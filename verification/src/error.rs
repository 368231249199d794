//! What can go wrong while a program is launched and awaited.

use vstd::prelude::*;

verus! {

/// Why a launched command has no exit code to show.
#[derive(Clone, Copy, Debug, PartialEq, Eq, Structural)]
pub enum ShellError {
    /// No process could be created for the command.
    ForkFailed,
    /// The process was ended by a signal.
    Signaled,
    /// The wait for the process failed, and how it ended is not known.
    WaitFailed,
}

impl ShellError {
    /// The words in which the shell reports the error.
    pub open spec fn text(self) -> Seq<char> {
        match self {
            ShellError::ForkFailed => "fork failed"@,
            ShellError::Signaled => "signaled"@,
            ShellError::WaitFailed => "wait failed"@,
        }
    }

    /// The words in which the shell reports the error.
    pub fn message(self) -> (text: String)
        ensures
            text@ == self.text(),
    {
        match self {
            ShellError::ForkFailed => "fork failed".to_owned(),
            ShellError::Signaled => "signaled".to_owned(),
            ShellError::WaitFailed => "wait failed".to_owned(),
        }
    }
}

} // verus!
