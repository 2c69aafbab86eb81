//! The surfaces the transition works on, and the ways the rendezvous fails.

use vstd::prelude::*;

verus! {

/// A displayable view that the host can look up, hide and show.
#[derive(Clone, Copy, Debug, PartialEq, Eq, Structural)]
pub enum Surface {
    /// Shown while the two tasks are still running.
    Loading,
    /// Shown once both tasks are done.
    Main,
}

impl Surface {
    /// The name by which the host is asked for this surface.
    pub open spec fn spec_name(self) -> Seq<char> {
        match self {
            Surface::Loading => "loading"@,
            Surface::Main => "main"@,
        }
    }

    /// The name by which the host is asked for this surface.
    pub fn name(self) -> (name: &'static str)
        ensures
            name@ == self.spec_name(),
    {
        match self {
            Surface::Loading => "loading",
            Surface::Main => "main",
        }
    }
}

/// Why a report or a transition failed.
#[derive(Clone, Copy, Debug, PartialEq, Eq, Structural)]
pub enum ErrorKind {
    /// A report named a task that is neither of the two known ones.
    InvalidTask,
    /// The host does not have the surface that the transition asked for.
    SurfaceNotFound(Surface),
    /// The host found the surface but could not hide or show it.
    SurfaceOperationFailed,
}

impl ErrorKind {
    /// The text that describes this error to a person.
    pub open spec fn spec_message(self) -> Seq<char> {
        match self {
            ErrorKind::InvalidTask => "invalid task completed"@,
            ErrorKind::SurfaceNotFound(Surface::Loading) => "loading surface not found"@,
            ErrorKind::SurfaceNotFound(Surface::Main) => "main surface not found"@,
            ErrorKind::SurfaceOperationFailed => "surface operation failed"@,
        }
    }

    /// The text that describes this error to a person.
    pub fn message(&self) -> (text: &'static str)
        ensures
            text@ == self.spec_message(),
    {
        match self {
            ErrorKind::InvalidTask => "invalid task completed",
            ErrorKind::SurfaceNotFound(Surface::Loading) => "loading surface not found",
            ErrorKind::SurfaceNotFound(Surface::Main) => "main surface not found",
            ErrorKind::SurfaceOperationFailed => "surface operation failed",
        }
    }
}

} // verus!
