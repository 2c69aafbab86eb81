//! The transition from the loading surface to the main surface, as a
//! protocol between this library and a host that owns the surfaces.
//!
//! The library decides which host call comes next and what the transition
//! amounts to; the host performs each call and answers whether it succeeded.
//! The calls come in one fixed order and stop at the first failure.

use crate::error::{ErrorKind, Surface};
use vstd::prelude::*;

verus! {

/// A request that the transition makes to the host.
#[derive(Clone, Copy, Debug, PartialEq, Eq, Structural)]
pub enum HostCall {
    /// Look the surface up. It succeeds if the host has the surface.
    Find(Surface),
    /// Hide the surface that was last looked up.
    Hide(Surface),
    /// Show the surface that was last looked up.
    Show(Surface),
}

/// One of the four steps of the transition, in the order in which they run.
#[derive(Clone, Copy, Debug, PartialEq, Eq, Structural)]
pub enum Step {
    /// Look the loading surface up.
    LocateLoading,
    /// Hide the loading surface.
    HideLoading,
    /// Look the main surface up.
    LocateMain,
    /// Show the main surface.
    ShowMain,
}

impl Step {
    /// The number of steps of a whole transition.
    pub open spec fn count() -> int {
        4
    }

    /// The place of this step in the order of the steps, from 0.
    pub open spec fn index(self) -> int {
        match self {
            Step::LocateLoading => 0,
            Step::HideLoading => 1,
            Step::LocateMain => 2,
            Step::ShowMain => 3,
        }
    }

    /// The step at place `index`, for `0 <= index < Step::count()`.
    pub open spec fn at(index: int) -> Step {
        if index <= 0 {
            Step::LocateLoading
        } else if index == 1 {
            Step::HideLoading
        } else if index == 2 {
            Step::LocateMain
        } else {
            Step::ShowMain
        }
    }

    /// The host call that carries this step out.
    pub open spec fn spec_call(self) -> HostCall {
        match self {
            Step::LocateLoading => HostCall::Find(Surface::Loading),
            Step::HideLoading => HostCall::Hide(Surface::Loading),
            Step::LocateMain => HostCall::Find(Surface::Main),
            Step::ShowMain => HostCall::Show(Surface::Main),
        }
    }

    /// The step that follows this one, if any does.
    pub open spec fn spec_next(self) -> Option<Step> {
        match self {
            Step::LocateLoading => Some(Step::HideLoading),
            Step::HideLoading => Some(Step::LocateMain),
            Step::LocateMain => Some(Step::ShowMain),
            Step::ShowMain => None,
        }
    }

    /// The error that a failure of this step amounts to: a surface that is
    /// not found where the step looks one up, a failed operation where it
    /// hides or shows one.
    pub open spec fn spec_failure(self) -> ErrorKind {
        match self {
            Step::LocateLoading => ErrorKind::SurfaceNotFound(Surface::Loading),
            Step::LocateMain => ErrorKind::SurfaceNotFound(Surface::Main),
            Step::HideLoading => ErrorKind::SurfaceOperationFailed,
            Step::ShowMain => ErrorKind::SurfaceOperationFailed,
        }
    }

    /// The host call that carries this step out.
    pub fn call(self) -> (call: HostCall)
        ensures
            call == self.spec_call(),
    {
        match self {
            Step::LocateLoading => HostCall::Find(Surface::Loading),
            Step::HideLoading => HostCall::Hide(Surface::Loading),
            Step::LocateMain => HostCall::Find(Surface::Main),
            Step::ShowMain => HostCall::Show(Surface::Main),
        }
    }

    /// The step that follows this one, if any does.
    pub fn next(self) -> (next: Option<Step>)
        ensures
            next == self.spec_next(),
            next matches Some(step) ==> step.index() == self.index() + 1,
            next is None <==> self.index() + 1 == Step::count(),
    {
        match self {
            Step::LocateLoading => Some(Step::HideLoading),
            Step::HideLoading => Some(Step::LocateMain),
            Step::LocateMain => Some(Step::ShowMain),
            Step::ShowMain => None,
        }
    }

    /// The error that a failure of this step amounts to.
    pub fn failure(self) -> (error: ErrorKind)
        ensures
            error == self.spec_failure(),
    {
        match self {
            Step::LocateLoading => ErrorKind::SurfaceNotFound(Surface::Loading),
            Step::LocateMain => ErrorKind::SurfaceNotFound(Surface::Main),
            Step::HideLoading => ErrorKind::SurfaceOperationFailed,
            Step::ShowMain => ErrorKind::SurfaceOperationFailed,
        }
    }
}

/// How far a transition has come.
#[derive(Clone, Copy, Debug, PartialEq, Eq, Structural)]
pub enum Transition {
    /// The step is the next to run; all steps before it succeeded.
    Pending(Step),
    /// The step failed; no later step runs.
    Failed(Step),
    /// All four steps succeeded.
    Done,
}

impl Transition {
    /// A transition of which no step has run yet.
    pub open spec fn spec_start() -> Transition {
        Transition::Pending(Step::LocateLoading)
    }

    /// The transition after the host answered the pending call with
    /// `succeeded`. A transition that is over stays as it is.
    pub open spec fn spec_advance(self, succeeded: bool) -> Transition {
        match self {
            Transition::Pending(step) => if !succeeded {
                Transition::Failed(step)
            } else {
                match step.spec_next() {
                    Some(next) => Transition::Pending(next),
                    None => Transition::Done,
                }
            },
            Transition::Failed(step) => Transition::Failed(step),
            Transition::Done => Transition::Done,
        }
    }

    /// The call that the host is to perform next; none once the transition
    /// is over.
    pub open spec fn spec_next_call(self) -> Option<HostCall> {
        match self {
            Transition::Pending(step) => Some(step.spec_call()),
            Transition::Failed(_) => None,
            Transition::Done => None,
        }
    }

    /// What the transition came to; nothing while a step is pending.
    pub open spec fn spec_outcome(self) -> Option<Result<(), ErrorKind>> {
        match self {
            Transition::Pending(_) => None,
            Transition::Failed(step) => Some(Err(step.spec_failure())),
            Transition::Done => Some(Ok(())),
        }
    }

    /// A transition of which no step has run yet.
    pub fn start() -> (transition: Transition)
        ensures
            transition == Transition::spec_start(),
    {
        Transition::Pending(Step::LocateLoading)
    }

    /// The call that the host is to perform next; none once the transition
    /// is over.
    pub fn next_call(&self) -> (call: Option<HostCall>)
        ensures
            call == self.spec_next_call(),
    {
        match self {
            Transition::Pending(step) => Some(step.call()),
            Transition::Failed(_) => None,
            Transition::Done => None,
        }
    }

    /// Takes the host's answer to the pending call.
    ///
    /// On success the next step becomes pending, or the transition is done
    /// after the last one. On failure the transition has failed at the
    /// pending step. A transition that is over stays as it is.
    pub fn advance(&mut self, succeeded: bool)
        ensures
            *final(self) == old(self).spec_advance(succeeded),
    {
        if let Transition::Pending(step) = *self {
            if !succeeded {
                *self = Transition::Failed(step);
            } else {
                match step.next() {
                    Some(next) => {
                        *self = Transition::Pending(next);
                    },
                    None => {
                        *self = Transition::Done;
                    },
                }
            }
        }
    }

    /// Whether the transition is over, with or without success.
    pub fn is_finished(&self) -> (finished: bool)
        ensures
            finished == self.spec_next_call().is_none(),
            finished == self.spec_outcome().is_some(),
    {
        match self {
            Transition::Pending(_) => false,
            Transition::Failed(_) => true,
            Transition::Done => true,
        }
    }

    /// What the transition came to: success after four successful steps,
    /// the error of the step that failed, nothing while a step is pending.
    pub fn outcome(&self) -> (outcome: Option<Result<(), ErrorKind>>)
        ensures
            outcome == self.spec_outcome(),
    {
        match self {
            Transition::Pending(_) => None,
            Transition::Failed(step) => Some(Err(step.failure())),
            Transition::Done => Some(Ok(())),
        }
    }
}

/// The transition after the host gave the answers `replies`, in order, to
/// the calls of a transition that started afresh.
pub open spec fn after_replies(replies: Seq<bool>) -> Transition
    decreases replies.len(),
{
    if replies.len() == 0 {
        Transition::spec_start()
    } else {
        after_replies(replies.drop_last()).spec_advance(replies.last())
    }
}

/// The first `n` answers all report success.
pub open spec fn all_succeeded(replies: Seq<bool>, n: int) -> bool {
    forall|i: int| 0 <= i < n ==> replies[i]
}

/// Where a transition stands after any answers of the host: a step is
/// pending exactly when it is the next in order and no answer so far was a
/// failure; the transition failed at the step of the first failure among the
/// first four answers; it is done when the first four answers were all
/// successes. Answers given after the transition is over change nothing.
pub proof fn lemma_after_replies(replies: Seq<bool>)
    ensures
        match after_replies(replies) {
            Transition::Pending(step) => {
                &&& replies.len() == step.index()
                &&& all_succeeded(replies, replies.len() as int)
            },
            Transition::Failed(step) => {
                &&& step.index() < replies.len()
                &&& all_succeeded(replies, step.index())
                &&& !replies[step.index()]
            },
            Transition::Done => {
                &&& replies.len() >= Step::count()
                &&& all_succeeded(replies, Step::count())
            },
        },
    decreases replies.len(),
{
    if replies.len() > 0 {
        let init = replies.drop_last();
        lemma_after_replies(init);
        assert forall|i: int| 0 <= i < init.len() implies init[i] == replies[i] by {}
        match after_replies(init) {
            Transition::Pending(step) => {
                assert(replies.last() == replies[step.index()]);
                if replies.last() {
                    assert forall|i: int| 0 <= i < replies.len() implies replies[i] by {
                        if i < init.len() {
                            assert(init[i]);
                        }
                    }
                } else {
                    assert forall|i: int| 0 <= i < step.index() implies replies[i] by {
                        assert(init[i]);
                    }
                }
            },
            Transition::Failed(step) => {
                assert(!init[step.index()]);
                assert forall|i: int| 0 <= i < step.index() implies replies[i] by {
                    assert(init[i]);
                }
            },
            Transition::Done => {
                assert forall|i: int| 0 <= i < Step::count() implies replies[i] by {
                    assert(init[i]);
                }
            },
        }
    }
}

/// The calls come in the fixed order and stop at the first failure: after
/// `k` answers the host is asked for the step at place `k` if all `k`
/// answers were successes and a step is left, and for nothing otherwise.
pub proof fn lemma_calls_in_order(replies: Seq<bool>, k: int)
    requires
        0 <= k <= replies.len(),
    ensures
        after_replies(replies.take(k)).spec_next_call() == if k < Step::count() && all_succeeded(
            replies,
            k,
        ) {
            Some(Step::at(k).spec_call())
        } else {
            None
        },
{
    let seen = replies.take(k);
    lemma_after_replies(seen);
    match after_replies(seen) {
        Transition::Pending(step) => {
            assert forall|i: int| 0 <= i < k implies replies[i] by {
                assert(seen[i]);
            }
        },
        Transition::Failed(step) => {
            assert(!seen[step.index()]);
            assert(!replies[step.index()]);
        },
        Transition::Done => {},
    }
}

/// What a transition comes to: nothing yet while fewer than four answers
/// came and all were successes; success once the first four answers were
/// successes; and otherwise the error of the step whose answer was the
/// first failure.
pub proof fn lemma_outcome(replies: Seq<bool>)
    ensures
        replies.len() < Step::count() && all_succeeded(replies, replies.len() as int)
            ==> after_replies(replies).spec_outcome() is None,
        replies.len() >= Step::count() && all_succeeded(replies, Step::count()) ==> after_replies(
            replies,
        ).spec_outcome() == Some(Ok::<(), ErrorKind>(())),
        forall|i: int|
            0 <= i < replies.len() && i < Step::count() && all_succeeded(replies, i)
                && !#[trigger] replies[i] ==> after_replies(replies).spec_outcome() == Some(
                Err::<(), ErrorKind>(Step::at(i).spec_failure()),
            ),
{
    lemma_after_replies(replies);
    assert forall|i: int|
        0 <= i < replies.len() && i < Step::count() && all_succeeded(replies, i)
            && !#[trigger] replies[i] implies after_replies(replies).spec_outcome() == Some(
        Err::<(), ErrorKind>(Step::at(i).spec_failure()),
    ) by {
        match after_replies(replies) {
            Transition::Pending(step) => {},
            Transition::Failed(step) => {
                let at = step.index();
                if at < i {
                    assert(replies[at]);
                } else if i < at {
                    assert(replies[i]);
                }
            },
            Transition::Done => {},
        }
    }
}

/// The main surface is shown last: the host is asked to show it only after
/// the loading surface was found and hidden and the main surface was found.
pub proof fn lemma_main_shown_last(replies: Seq<bool>, k: int)
    requires
        0 <= k <= replies.len(),
        after_replies(replies.take(k)).spec_next_call() == Some(HostCall::Show(Surface::Main)),
    ensures
        k == 3,
        replies[0] && replies[1] && replies[2],
{
    lemma_calls_in_order(replies, k);
}

/// If the loading surface is missing, the transition fails with that and
/// asks the host for nothing more: the main surface is never shown.
pub proof fn lemma_loading_missing(replies: Seq<bool>, k: int)
    requires
        1 <= k <= replies.len(),
        !replies[0],
    ensures
        after_replies(replies).spec_outcome() == Some(
            Err::<(), ErrorKind>(ErrorKind::SurfaceNotFound(Surface::Loading)),
        ),
        after_replies(replies.take(k)).spec_next_call() is None,
{
    lemma_outcome(replies);
    lemma_calls_in_order(replies, k);
}

} // verus!
