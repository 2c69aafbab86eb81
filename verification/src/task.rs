//! The two tasks whose completion the rendezvous waits for.

use crate::error::ErrorKind;
use crate::text::same_text;
use vstd::prelude::*;

verus! {

/// One of the two activities that report to the rendezvous.
#[derive(Clone, Copy, Debug, PartialEq, Eq, Structural)]
pub enum Task {
    /// The user-facing initialization.
    Frontend,
    /// The background initialization.
    Backend,
}

/// The task that a name stands for, if it stands for one.
pub open spec fn task_named(name: Seq<char>) -> Option<Task> {
    if name == "frontend"@ {
        Some(Task::Frontend)
    } else if name == "backend"@ {
        Some(Task::Backend)
    } else {
        None
    }
}

impl Task {
    /// The name under which the task reports its completion.
    pub open spec fn spec_name(self) -> Seq<char> {
        match self {
            Task::Frontend => "frontend"@,
            Task::Backend => "backend"@,
        }
    }

    /// The name under which the task reports its completion.
    pub fn name(self) -> (name: &'static str)
        ensures
            name@ == self.spec_name(),
            task_named(name@) == Some(self),
    {
        proof {
            lemma_names_differ();
        }
        match self {
            Task::Frontend => "frontend",
            Task::Backend => "backend",
        }
    }

    /// Reads a task from its name. Exactly the two names `frontend` and
    /// `backend` are accepted; every other text is an invalid task.
    pub fn parse(name: &str) -> (parsed: Result<Task, ErrorKind>)
        ensures
            parsed == match task_named(name@) {
                Some(task) => Ok::<Task, ErrorKind>(task),
                None => Err::<Task, ErrorKind>(ErrorKind::InvalidTask),
            },
    {
        if same_text(name, "frontend") {
            Ok(Task::Frontend)
        } else if same_text(name, "backend") {
            Ok(Task::Backend)
        } else {
            Err(ErrorKind::InvalidTask)
        }
    }
}

/// The two task names are different texts.
pub proof fn lemma_names_differ()
    ensures
        "frontend"@ != "backend"@,
        "frontend"@.len() == 8,
        "backend"@.len() == 7,
{
    reveal_strlit("frontend");
    reveal_strlit("backend");
    assert("frontend"@.len() != "backend"@.len());
}

/// Every task is read back from its own name, and a name is read as a task
/// only if it is that task's name.
pub proof fn lemma_name_round_trip(task: Task, name: Seq<char>)
    ensures
        task_named(task.spec_name()) == Some(task),
        task_named(name) == Some(task) <==> name == task.spec_name(),
{
    lemma_names_differ();
}

} // verus!
