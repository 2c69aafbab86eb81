//! The readiness state behind a lock, for callers that report concurrently.
//!
//! The lock admits one report at a time, so the state sees concurrent
//! reports in some order, and what `crate::history` proves of every order
//! holds of them. A report holds the lock only while it marks its task and
//! looks at the two flags; the lock is free again when the report returns,
//! before its caller runs the transition.
//!
//! The lock is `std::sync::Mutex`. Nothing here is proved of the lock
//! itself: that it admits one holder at a time is taken from the standard
//! library.

use crate::error::ErrorKind;
use crate::readiness::{Action, ReadinessState};
use crate::task::task_named;
use std::sync::{Mutex, MutexGuard, PoisonError};
use vstd::prelude::*;

verus! {

/// `std::sync::Mutex`, held as a value of which nothing is known.
#[verifier::external_type_specification]
#[verifier::external_body]
#[verifier::reject_recursive_types(T)]
pub struct ExMutex<T: ?Sized>(Mutex<T>);

/// `std::sync::MutexGuard`, held as a value of which nothing is known.
#[verifier::external_type_specification]
#[verifier::external_body]
#[verifier::reject_recursive_types(T)]
pub struct ExMutexGuard<'a, T: ?Sized + 'a>(MutexGuard<'a, T>);

/// `std::sync::PoisonError`, held as a value of which nothing is known.
#[verifier::external_type_specification]
#[verifier::external_body]
#[verifier::reject_recursive_types(T)]
pub struct ExPoisonError<T>(PoisonError<T>);

/// Calls `std::sync::Mutex::new`. Nothing is claimed of the lock it makes.
#[verifier::external_body]
fn new_lock(state: ReadinessState) -> Mutex<ReadinessState> {
    Mutex::new(state)
}

/// Calls `std::sync::Mutex::lock`, which waits until the lock is free. It
/// returns the guard, or the error that holds the guard when a thread
/// panicked while it held the lock. Nothing is claimed of the state that
/// the guard gives access to: it is whatever the last holder left.
#[verifier::external_body]
fn acquire<'a>(lock: &'a Mutex<ReadinessState>) -> Result<
    MutexGuard<'a, ReadinessState>,
    PoisonError<MutexGuard<'a, ReadinessState>>,
> {
    lock.lock()
}

/// Calls `std::sync::PoisonError::into_inner`: the guard that the error
/// holds. Nothing is claimed of the state that the guard gives access to.
#[verifier::external_body]
fn recover<'a>(poisoned: PoisonError<MutexGuard<'a, ReadinessState>>) -> MutexGuard<
    'a,
    ReadinessState,
> {
    poisoned.into_inner()
}

/// Calls `DerefMut::deref_mut` of `std::sync::MutexGuard`: the state that
/// the held lock protects. Nothing is claimed of its value.
#[verifier::external_body]
fn guarded<'a, 'b>(guard: &'a mut MutexGuard<'b, ReadinessState>) -> &'a mut ReadinessState {
    &mut **guard
}

/// A readiness state that many callers can report to at once.
pub struct SharedReadiness {
    lock: Mutex<ReadinessState>,
}

impl SharedReadiness {
    /// A shared state in which neither task has completed.
    pub fn new() -> SharedReadiness {
        SharedReadiness { lock: new_lock(ReadinessState::new()) }
    }

    /// Takes the lock. A lock that was left poisoned is taken all the same:
    /// every value of the state is a valid one, whenever its holder stopped.
    fn hold(&self) -> MutexGuard<'_, ReadinessState> {
        match acquire(&self.lock) {
            Ok(guard) => guard,
            Err(poisoned) => recover(poisoned),
        }
    }

    /// Reports the completion of the task called `name`, under the lock.
    ///
    /// A name other than `frontend` and `backend` is refused with
    /// `ErrorKind::InvalidTask`; every other report succeeds. Which action a
    /// successful report returns depends on the reports that the lock
    /// admitted before it: it is what `ReadinessState::report` returns on
    /// the state that they left. The lock is released before this function
    /// returns.
    pub fn report(&self, name: &str) -> (result: Result<Action, ErrorKind>)
        ensures
            task_named(name@) is None <==> result == Err::<Action, ErrorKind>(
                ErrorKind::InvalidTask,
            ),
            task_named(name@) is Some <==> result is Ok,
    {
        let mut guard = self.hold();
        let state = guarded(&mut guard);
        state.report(name)
    }

    /// A copy of the state as it is at some moment during the call. Other
    /// callers may have reported by the time it is looked at.
    pub fn snapshot(&self) -> ReadinessState {
        let mut guard = self.hold();
        let state = guarded(&mut guard);
        *state
    }
}

} // verus!
