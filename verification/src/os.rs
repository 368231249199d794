//! The calls that the shell's core makes into the operating system.
//!
//! Verus takes the two functions here on trust: it reads their headers and not
//! their bodies. What they return depends on the state of the system at the
//! moment of the call, so their contracts say next to nothing.

use nix::sys::wait::{waitpid, WaitPidFlag, WaitStatus};
use nix::unistd::{chdir, Pid};
use vstd::prelude::*;

use crate::wait::WaitEvent;

verus! {

/// Asks the system, with `nix::unistd::chdir`, to make `path` the working
/// directory of this process, and says whether it did. A path with a NUL
/// character in it is refused like any other that the system cannot follow.
///
/// The contract claims nothing: the answer depends on what the path names at
/// the moment of the call.
#[verifier::external_body]
pub(crate) fn change_dir(path: &str) -> (changed: bool) {
    chdir(path).is_ok()
}

/// Waits, with `nix::sys::wait::waitpid`, for the next change of state of the
/// child `pid`, stops included (`WUNTRACED`), and blocks until there is one.
/// An exit is handed on with its code and a death by signal as such; every
/// other change of state is [`WaitEvent::Other`], and an error of the call is
/// [`WaitEvent::Failed`], whatever the error.
/// The process id is to be positive: only then does it name one process, and
/// not a group of them or any child at all.
///
/// The one claim: an exit code is a number from 0 to 255. `waitpid` takes it
/// from the status word with `WEXITSTATUS`, which keeps eight bits of it.
#[verifier::external_body]
pub(crate) fn wait_child(pid: i32) -> (event: WaitEvent)
    requires
        pid > 0,
    ensures
        event matches WaitEvent::Exited(code) ==> 0 <= code <= 255,
{
    match waitpid(Pid::from_raw(pid), Some(WaitPidFlag::WUNTRACED)) {
        Ok(WaitStatus::Exited(_, code)) => WaitEvent::Exited(code),
        Ok(WaitStatus::Signaled(_, _, _)) => WaitEvent::Signaled,
        Ok(_) => WaitEvent::Other,
        Err(_) => WaitEvent::Failed,
    }
}

} // verus!
