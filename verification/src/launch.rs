//! Launching an external program.
//!
//! To launch is to fork and, in the child, to replace the process image with
//! the program. The fork is an unsafe call, and the other takes C strings and
//! returns only when it failed: neither is made from this crate. The caller
//! makes them, and this module decides what follows from a fork and what a
//! child does that could not start its program.

use vstd::prelude::*;

use crate::error::ShellError;

verus! {

/// The exit code of a child that could not start its program.
pub const EXEC_FAILURE_CODE: i32 = 1;

/// The process id of a child to wait for, known to be positive.
///
/// A handle is made by [`esh_launch`] alone, from the process id that a fork
/// gave the parent, and it cannot be copied. Nothing here keeps count of the
/// children: whoever hands `esh_launch` the same process id twice gets two
/// handles.
#[derive(Debug)]
pub struct ChildHandle {
    pid: i32,
}

impl ChildHandle {
    #[verifier::type_invariant]
    spec fn well_formed(self) -> bool {
        self.pid > 0
    }

    /// The process id of the child.
    pub closed spec fn id(self) -> int {
        self.pid as int
    }

    /// The handle of the child with the process id `pid`. Only a positive
    /// number names one process, so any other gets no handle.
    fn new(pid: i32) -> (handle: Option<ChildHandle>)
        ensures
            handle is Some <==> pid > 0,
            handle matches Some(child) ==> child.id() == pid,
    {
        if pid > 0 {
            Some(ChildHandle { pid })
        } else {
            None
        }
    }

    /// The process id of the child, a positive number.
    pub fn pid(&self) -> (pid: i32)
        ensures
            pid == self.id(),
            pid > 0,
    {
        proof {
            use_type_invariant(self);
        }
        self.pid
    }
}

/// How a fork came out, as the process sees it that asked for it.
#[derive(Clone, Copy, Debug, PartialEq, Eq, Structural)]
pub enum ForkOutcome {
    /// This is the parent, and the child has this process id.
    Parent(i32),
    /// This is the child.
    Child,
    /// No child was created.
    Failed,
}

/// What a process does next after a fork.
#[derive(Debug)]
pub enum LaunchStep {
    /// Parent: the child runs. Wait for it.
    Wait(ChildHandle),
    /// Child: replace the process image with `program`, found on the search
    /// path, and hand it `argv` as its arguments.
    Exec { program: String, argv: Vec<String> },
    /// There is no child, and nothing to wait for.
    Fail(ShellError),
}

/// Decides what follows from a fork that was made to launch `command`.
///
/// The parent gets the handle of its child, and gets it at once: waiting is a
/// step of its own. The child gets the program to become, named by the first
/// word of the command, with the whole command as its arguments. A fork that
/// failed, or one that names no child, is an error.
pub fn esh_launch(command: Vec<String>, forked: ForkOutcome) -> (step: LaunchStep)
    requires
        command.len() > 0,
    ensures
        match forked {
            ForkOutcome::Parent(pid) => if pid > 0 {
                step matches LaunchStep::Wait(child) && child.id() == pid
            } else {
                step matches LaunchStep::Fail(error) && error == ShellError::ForkFailed
            },
            ForkOutcome::Child => step matches LaunchStep::Exec { program, argv } && program@
                == command[0]@ && argv.deep_view() == command.deep_view(),
            ForkOutcome::Failed => step matches LaunchStep::Fail(error) && error
                == ShellError::ForkFailed,
        },
{
    match forked {
        ForkOutcome::Parent(pid) => match ChildHandle::new(pid) {
            Some(child) => LaunchStep::Wait(child),
            None => LaunchStep::Fail(ShellError::ForkFailed),
        },
        ForkOutcome::Child => {
            let program = command[0].clone();
            LaunchStep::Exec { program, argv: command }
        },
        ForkOutcome::Failed => LaunchStep::Fail(ShellError::ForkFailed),
    }
}

/// What a child says when it could not start its program, before it exits
/// with [`EXEC_FAILURE_CODE`].
pub fn exec_failure_message() -> (text: &'static str)
    ensures
        text@ == "execvp failed."@,
{
    "execvp failed."
}

} // verus!
