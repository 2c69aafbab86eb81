//! A two-task readiness rendezvous.
//!
//! Two independent activities, a user-facing one and a background one, each
//! report their completion. The report that completes the pair is told to run
//! the transition from the loading surface to the main surface; no other
//! report ever is. The transition itself is a short protocol of host calls
//! that stops at the first failure.

pub mod error;
pub mod history;
pub mod readiness;
pub mod shared;
pub mod task;
pub mod text;
pub mod transition;

pub use error::{ErrorKind, Surface};
pub use readiness::{all_done, mark_action, report_result, report_state, Action, ReadinessState};
pub use shared::SharedReadiness;
pub use task::{task_named, Task};
pub use transition::{after_replies, all_succeeded, HostCall, Step, Transition};
