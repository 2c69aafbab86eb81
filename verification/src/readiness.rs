//! The record of which tasks have completed, and the report operation that
//! decides which single report runs the transition.

use crate::error::ErrorKind;
use crate::task::{task_named, Task};
use vstd::prelude::*;

verus! {

/// What the caller of a report has to do once the report has returned.
#[derive(Clone, Copy, Debug, PartialEq, Eq, Structural)]
pub enum Action {
    /// Nothing: the other task is still running, or the rendezvous was
    /// already complete before this report.
    Nothing,
    /// Run the transition: this report completed the rendezvous.
    Transition,
}

/// Both tasks are among the completed ones.
pub open spec fn all_done(done: Set<Task>) -> bool {
    done.contains(Task::Frontend) && done.contains(Task::Backend)
}

/// The action owed for marking `task` when `done` are the tasks completed so
/// far: the transition if and only if this mark is the one that completes
/// the rendezvous.
pub open spec fn mark_action(done: Set<Task>, task: Task) -> Action {
    if !all_done(done) && all_done(done.insert(task)) {
        Action::Transition
    } else {
        Action::Nothing
    }
}

/// The completed tasks after a report under `name`.
pub open spec fn report_state(done: Set<Task>, name: Seq<char>) -> Set<Task> {
    match task_named(name) {
        Some(task) => done.insert(task),
        None => done,
    }
}

/// What a report under `name` returns when `done` are the tasks completed
/// before it.
pub open spec fn report_result(done: Set<Task>, name: Seq<char>) -> Result<Action, ErrorKind> {
    match task_named(name) {
        Some(task) => Ok(mark_action(done, task)),
        None => Err(ErrorKind::InvalidTask),
    }
}

/// Which of the two tasks have completed.
///
/// The view of a state is the set of completed tasks. A state starts empty,
/// changes only through `mark` and `report`, and those only ever add to it.
#[derive(Clone, Copy, Debug, PartialEq, Eq, Structural)]
pub struct ReadinessState {
    frontend_done: bool,
    backend_done: bool,
}

impl View for ReadinessState {
    type V = Set<Task>;

    closed spec fn view(&self) -> Set<Task> {
        Set::new(
            |task: Task|
                match task {
                    Task::Frontend => self.frontend_done,
                    Task::Backend => self.backend_done,
                },
        )
    }
}

impl ReadinessState {
    /// The state in which neither task has completed.
    pub fn new() -> (state: ReadinessState)
        ensures
            state@ == Set::<Task>::empty(),
    {
        let state = ReadinessState { frontend_done: false, backend_done: false };
        assert(state@ =~= Set::<Task>::empty());
        state
    }

    /// Whether the frontend task has completed.
    pub fn frontend_done(&self) -> (done: bool)
        ensures
            done == self@.contains(Task::Frontend),
    {
        self.frontend_done
    }

    /// Whether the backend task has completed.
    pub fn backend_done(&self) -> (done: bool)
        ensures
            done == self@.contains(Task::Backend),
    {
        self.backend_done
    }

    /// Whether `task` has completed.
    pub fn is_done(&self, task: Task) -> (done: bool)
        ensures
            done == self@.contains(task),
    {
        match task {
            Task::Frontend => self.frontend_done,
            Task::Backend => self.backend_done,
        }
    }

    /// Whether both tasks have completed.
    pub fn is_complete(&self) -> (complete: bool)
        ensures
            complete == all_done(self@),
    {
        self.frontend_done && self.backend_done
    }

    /// Marks `task` as completed and says whether this mark completed the
    /// rendezvous.
    ///
    /// The task joins the completed ones and nothing leaves them. The answer
    /// is `Action::Transition` exactly when both tasks are completed after
    /// the mark and were not both completed before it.
    pub fn mark(&mut self, task: Task) -> (action: Action)
        ensures
            final(self)@ == old(self)@.insert(task),
            old(self)@.subset_of(final(self)@),
            action == mark_action(old(self)@, task),
            action == Action::Transition <==> !all_done(old(self)@) && all_done(final(self)@),
            old(self)@.contains(task) ==> *final(self) == *old(self) && action == Action::Nothing,
    {
        let complete_before = self.frontend_done && self.backend_done;
        match task {
            Task::Frontend => {
                self.frontend_done = true;
            },
            Task::Backend => {
                self.backend_done = true;
            },
        }
        assert(self@ =~= old(self)@.insert(task));
        proof {
            if old(self)@.contains(task) {
                assert(old(self)@.insert(task) =~= old(self)@);
                self.lemma_view_determines_state(*old(self));
            }
        }
        if !complete_before && self.frontend_done && self.backend_done {
            Action::Transition
        } else {
            Action::Nothing
        }
    }

    /// Reports the completion of the task called `name`.
    ///
    /// A name other than `frontend` and `backend` is refused with
    /// `ErrorKind::InvalidTask` and leaves the state as it was. Otherwise the
    /// named task is marked, the report succeeds, and its action is
    /// `Action::Transition` exactly when this report completed the
    /// rendezvous.
    pub fn report(&mut self, name: &str) -> (result: Result<Action, ErrorKind>)
        ensures
            match task_named(name@) {
                Some(task) => {
                    &&& final(self)@ == old(self)@.insert(task)
                    &&& result == Ok::<Action, ErrorKind>(mark_action(old(self)@, task))
                },
                None => {
                    &&& *final(self) == *old(self)
                    &&& result == Err::<Action, ErrorKind>(ErrorKind::InvalidTask)
                },
            },
            final(self)@ == report_state(old(self)@, name@),
            result == report_result(old(self)@, name@),
            old(self)@.subset_of(final(self)@),
    {
        match Task::parse(name) {
            Ok(task) => Ok(self.mark(task)),
            Err(error) => Err(error),
        }
    }

    /// A state is determined by the tasks that completed.
    pub proof fn lemma_view_determines_state(self, other: ReadinessState)
        requires
            self@ == other@,
        ensures
            self == other,
    {
        assert(self.frontend_done == self@.contains(Task::Frontend));
        assert(other.frontend_done == other@.contains(Task::Frontend));
        assert(self.backend_done == self@.contains(Task::Backend));
        assert(other.backend_done == other@.contains(Task::Backend));
    }
}

impl Default for ReadinessState {
    /// The state in which neither task has completed.
    fn default() -> (state: ReadinessState)
        ensures
            state@ == Set::<Task>::empty(),
    {
        ReadinessState::new()
    }
}

} // verus!
