//! What holds of every sequence of reports.
//!
//! The lock around the readiness state admits one report at a time, so
//! however many callers report concurrently, the state sees their reports
//! in some order. A history is that order: the names under which the
//! reports came, unknown names included. The laws below hold of every
//! history, and so of every interleaving.

use crate::error::ErrorKind;
use crate::readiness::{all_done, report_result, report_state, Action};
use crate::task::{lemma_name_round_trip, task_named, Task};
use vstd::prelude::*;

verus! {

/// The completed tasks after the reports of `names` were made, in order, on
/// a state whose completed tasks were `start`.
pub open spec fn state_after(start: Set<Task>, names: Seq<Seq<char>>) -> Set<Task>
    decreases names.len(),
{
    if names.len() == 0 {
        start
    } else {
        report_state(state_after(start, names.drop_last()), names.last())
    }
}

/// What the report at place `i` of the history returned.
pub open spec fn result_at(start: Set<Task>, names: Seq<Seq<char>>, i: int) -> Result<
    Action,
    ErrorKind,
> {
    report_result(state_after(start, names.take(i)), names[i])
}

/// The report at place `i` of the history was told to run the transition.
pub open spec fn fires_at(start: Set<Task>, names: Seq<Seq<char>>, i: int) -> bool {
    result_at(start, names, i) == Ok::<Action, ErrorKind>(Action::Transition)
}

/// How many reports of the history were told to run the transition.
pub open spec fn transitions(start: Set<Task>, names: Seq<Seq<char>>) -> nat
    decreases names.len(),
{
    if names.len() == 0 {
        0
    } else {
        transitions(start, names.drop_last()) + if fires_at(start, names, names.len() - 1) {
            1nat
        } else {
            0nat
        }
    }
}

/// The tasks that some report of the history names.
pub open spec fn reported(names: Seq<Seq<char>>) -> Set<Task> {
    Set::new(|task: Task| names.contains(task.spec_name()))
}

/// The report at place `k` is the first after which both tasks are done.
pub open spec fn first_to_complete(start: Set<Task>, names: Seq<Seq<char>>, k: int) -> bool {
    &&& 0 <= k < names.len()
    &&& all_done(state_after(start, names.take(k + 1)))
    &&& forall|j: int| 0 <= j <= k ==> !all_done(#[trigger] state_after(start, names.take(j)))
}

proof fn lemma_contains_last(names: Seq<Seq<char>>, name: Seq<char>)
    requires
        names.len() > 0,
    ensures
        names.contains(name) <==> names.drop_last().contains(name) || names.last() == name,
{
    let init = names.drop_last();
    if names.contains(name) {
        let i = choose|i: int| 0 <= i < names.len() && names[i] == name;
        if i < names.len() - 1 {
            assert(init[i] == name);
        }
    }
    if init.contains(name) {
        let i = choose|i: int| 0 <= i < init.len() && init[i] == name;
        assert(names[i] == name);
    }
    if names.last() == name {
        assert(names[names.len() - 1] == name);
    }
}

/// The state after a history holds the tasks that were completed before it
/// and those that it names, and no others.
pub proof fn lemma_state_after_is_union(start: Set<Task>, names: Seq<Seq<char>>)
    ensures
        state_after(start, names) == start.union(reported(names)),
    decreases names.len(),
{
    if names.len() == 0 {
        assert(state_after(start, names) =~= start.union(reported(names)));
    } else {
        let init = names.drop_last();
        let last = names.last();
        lemma_state_after_is_union(start, init);
        assert forall|task: Task|
            reported(names).contains(task) <==> reported(init).contains(task) || task_named(last)
                == Some(task) by {
            lemma_name_round_trip(task, last);
            lemma_contains_last(names, task.spec_name());
        }
        assert(state_after(start, names) =~= start.union(reported(names)));
    }
}

/// A flag that is set stays set: the completed tasks after a shorter prefix
/// of a history are among those after a longer one.
pub proof fn lemma_flags_stay_set(start: Set<Task>, names: Seq<Seq<char>>, i: int, j: int)
    requires
        0 <= i <= j <= names.len(),
    ensures
        start.subset_of(state_after(start, names.take(i))),
        state_after(start, names.take(i)).subset_of(state_after(start, names.take(j))),
{
    lemma_state_after_is_union(start, names.take(i));
    lemma_state_after_is_union(start, names.take(j));
    assert forall|task: Task| reported(names.take(i)).contains(task) implies reported(
        names.take(j),
    ).contains(task) by {
        let name = task.spec_name();
        let k = choose|k: int| 0 <= k < names.take(i).len() && names.take(i)[k] == name;
        assert(names.take(j)[k] == name);
    }
}

/// A history runs the transition at most once: once if it begins with the
/// rendezvous incomplete and ends with it complete, and not at all
/// otherwise.
pub proof fn lemma_transitions_count(start: Set<Task>, names: Seq<Seq<char>>)
    ensures
        transitions(start, names) == if !all_done(start) && all_done(state_after(start, names)) {
            1nat
        } else {
            0nat
        },
        transitions(start, names) <= 1,
    decreases names.len(),
{
    if names.len() > 0 {
        let init = names.drop_last();
        lemma_transitions_count(start, init);
        assert(names.take(names.len() - 1) =~= init);
        assert(init.take(init.len() as int) =~= init);
        lemma_flags_stay_set(start, init, init.len() as int, init.len() as int);
    }
}

/// The reports that are told to run the transition are exactly those that
/// are the first to see both tasks done.
pub proof fn lemma_fires_iff_first_to_complete(start: Set<Task>, names: Seq<Seq<char>>, k: int)
    requires
        0 <= k < names.len(),
    ensures
        fires_at(start, names, k) <==> first_to_complete(start, names, k),
{
    let before = names.take(k);
    let upto = names.take(k + 1);
    assert(upto.drop_last() =~= before);
    assert(upto.last() == names[k]);
    assert(state_after(start, upto) == report_state(state_after(start, before), names[k]));
    if fires_at(start, names, k) {
        assert forall|j: int| 0 <= j <= k implies !all_done(
            #[trigger] state_after(start, names.take(j)),
        ) by {
            lemma_flags_stay_set(start, names, j, k);
        }
    }
}

/// Exactly once: in a history on a fresh state in which each of the two
/// tasks reports at least once, in whatever order and however often, and
/// among whatever reports under unknown names, exactly one report is told
/// to run the transition, and it is the first that sees both tasks done.
pub proof fn lemma_exactly_once(names: Seq<Seq<char>>)
    requires
        names.contains(Task::Frontend.spec_name()),
        names.contains(Task::Backend.spec_name()),
    ensures
        transitions(Set::<Task>::empty(), names) == 1,
        exists|k: int|
            {
                &&& #[trigger] first_to_complete(Set::<Task>::empty(), names, k)
                &&& forall|i: int|
                    0 <= i < names.len() ==> (#[trigger] fires_at(Set::<Task>::empty(), names, i)
                        <==> i == k)
            },
{
    let start = Set::<Task>::empty();
    lemma_state_after_is_union(start, names);
    assert(all_done(state_after(start, names)));
    lemma_transitions_count(start, names);
    let k = lemma_completion_point(start, names);
    assert forall|i: int| 0 <= i < names.len() implies (#[trigger] fires_at(start, names, i) <==> i
        == k) by {
        lemma_fires_iff_first_to_complete(start, names, i);
        lemma_fires_iff_first_to_complete(start, names, k);
        if first_to_complete(start, names, i) && i != k {
            if i < k {
                assert(all_done(state_after(start, names.take(i + 1))));
            } else {
                assert(all_done(state_after(start, names.take(k + 1))));
            }
        }
    }
}

/// A history that completes the rendezvous has a report that is the first
/// to see both tasks done.
proof fn lemma_completion_point(start: Set<Task>, names: Seq<Seq<char>>) -> (k: int)
    requires
        !all_done(start),
        all_done(state_after(start, names)),
    ensures
        first_to_complete(start, names, k),
    decreases names.len(),
{
    let init = names.drop_last();
    assert(names.len() > 0);
    assert(names.take(names.len() as int) =~= names);
    assert(names.take(names.len() - 1) =~= init);
    if all_done(state_after(start, init)) {
        let k = lemma_completion_point(start, init);
        assert(names.take(k + 1) =~= init.take(k + 1));
        assert forall|j: int| 0 <= j <= k implies !all_done(
            #[trigger] state_after(start, names.take(j)),
        ) by {
            assert(names.take(j) =~= init.take(j));
        }
        k
    } else {
        let k = names.len() - 1;
        assert forall|j: int| 0 <= j <= k implies !all_done(
            #[trigger] state_after(start, names.take(j)),
        ) by {
            lemma_flags_stay_set(start, names, j, k);
        }
        k
    }
}

/// Idempotence: a report for a task that has already completed, and so
/// every report after the rendezvous is complete, succeeds, leaves the
/// state as it is and is not told to run the transition.
pub proof fn lemma_repeated_report_is_idle(done: Set<Task>, task: Task)
    requires
        done.contains(task),
    ensures
        report_state(done, task.spec_name()) == done,
        report_result(done, task.spec_name()) == Ok::<Action, ErrorKind>(Action::Nothing),
{
    lemma_name_round_trip(task, task.spec_name());
    assert(done.insert(task) =~= done);
}

/// Reporting twice what was reported once changes nothing: the second of
/// two reports under one name leaves the state of the first and is never
/// told to run the transition.
pub proof fn lemma_second_report_is_idle(done: Set<Task>, name: Seq<char>)
    ensures
        report_state(report_state(done, name), name) == report_state(done, name),
        report_result(report_state(done, name), name) != Ok::<Action, ErrorKind>(
            Action::Transition,
        ),
        report_result(report_state(done, name), name) is Ok <==> report_result(done, name) is Ok,
{
    match task_named(name) {
        Some(task) => {
            assert(done.insert(task).insert(task) =~= done.insert(task));
        },
        None => {},
    }
}

/// Ordering independence: two histories that hold the same names, in
/// whatever order and however often, end in the same state and run the
/// transition the same number of times.
pub proof fn lemma_order_independent(
    start: Set<Task>,
    first: Seq<Seq<char>>,
    second: Seq<Seq<char>>,
)
    requires
        forall|name: Seq<char>| first.contains(name) <==> second.contains(name),
    ensures
        state_after(start, first) == state_after(start, second),
        transitions(start, first) == transitions(start, second),
{
    lemma_state_after_is_union(start, first);
    lemma_state_after_is_union(start, second);
    assert(reported(first) =~= reported(second));
    lemma_transitions_count(start, first);
    lemma_transitions_count(start, second);
}

/// No premature transition: as long as one of the two tasks has not
/// reported, no report is told to run the transition, whatever the other
/// task and unknown names have reported.
pub proof fn lemma_no_premature_transition(start: Set<Task>, names: Seq<Seq<char>>, missing: Task)
    requires
        !start.contains(missing),
        !names.contains(missing.spec_name()),
    ensures
        !state_after(start, names).contains(missing),
        !all_done(state_after(start, names)),
        transitions(start, names) == 0,
        forall|i: int| 0 <= i < names.len() ==> !#[trigger] fires_at(start, names, i),
{
    lemma_state_after_is_union(start, names);
    lemma_transitions_count(start, names);
    assert forall|i: int| 0 <= i < names.len() implies !#[trigger] fires_at(start, names, i) by {
        lemma_fires_iff_first_to_complete(start, names, i);
        lemma_flags_stay_set(start, names, i + 1, names.len() as int);
        assert(names.take(names.len() as int) =~= names);
    }
}

} // verus!
