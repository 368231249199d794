//! Waiting for a launched program to end.
//!
//! The system answers a wait with the child's latest change of state. An exit
//! and a death by signal end the wait, and so does a wait that fails: it is
//! reported and not tried again. After any other answer, a stop for one, the
//! shell waits again, for the same child, as long as it takes.
//!
//! A wait takes the handle that it is given and hands it back only when the
//! wait has not ended.

use vstd::prelude::*;

use crate::error::ShellError;
use crate::launch::ChildHandle;
use crate::os::wait_child;

verus! {

/// One answer of the system to a wait for a child.
#[derive(Clone, Copy, Debug, PartialEq, Eq, Structural)]
pub enum WaitEvent {
    /// The child ended by itself, with this exit code.
    Exited(i32),
    /// The child was ended by a signal.
    Signaled,
    /// Any other change of state: the child stopped or went on.
    Other,
    /// The wait itself failed: the system gave an error for an answer.
    Failed,
}

/// How a wait for a child ended.
#[derive(Clone, Copy, Debug, PartialEq, Eq, Structural)]
pub enum ExitStatus {
    /// The child ended by itself, with this exit code.
    Exited(i32),
    /// The child was ended by a signal.
    Signaled,
    /// The wait failed, and how the child ended is not known.
    WaitFailed,
}

/// What to do after one answer.
#[derive(Clone, Copy, Debug, PartialEq, Eq, Structural)]
pub enum WaitStep {
    /// The wait has ended, this way.
    Done(ExitStatus),
    /// The child has not ended: wait again.
    Again,
}

/// What a wait came to.
#[derive(Debug)]
pub enum Waited {
    /// The wait has ended, this way, and the handle is used up.
    Ended(ExitStatus),
    /// The child has not ended. This is the handle again.
    Running(ChildHandle),
}

impl WaitEvent {
    /// What the answer asks of the waiting shell. Only after a change of state
    /// that is not the end does the shell wait again; a failed wait ends the
    /// wait like an exit does.
    pub open spec fn step(self) -> WaitStep {
        match self {
            WaitEvent::Exited(code) => WaitStep::Done(ExitStatus::Exited(code)),
            WaitEvent::Signaled => WaitStep::Done(ExitStatus::Signaled),
            WaitEvent::Other => WaitStep::Again,
            WaitEvent::Failed => WaitStep::Done(ExitStatus::WaitFailed),
        }
    }
}

impl ExitStatus {
    /// What the shell shows for a wait that ended this way: the exit code of
    /// the child, or the error that there is none.
    pub open spec fn result(self) -> Result<i32, ShellError> {
        match self {
            ExitStatus::Exited(code) => Ok(code),
            ExitStatus::Signaled => Err(ShellError::Signaled),
            ExitStatus::WaitFailed => Err(ShellError::WaitFailed),
        }
    }
}

/// How a wait ends that gets `events` for answers, one after the other: with
/// the first answer that is an end or a failure. `None` if there is no such
/// answer among them, and the wait goes on.
pub open spec fn wait_outcome(events: Seq<WaitEvent>) -> Option<ExitStatus>
    decreases events.len(),
{
    if events.len() == 0 {
        None
    } else {
        match events.first().step() {
            WaitStep::Done(status) => Some(status),
            WaitStep::Again => wait_outcome(events.drop_first()),
        }
    }
}

/// Decides on one answer of the system.
pub fn wait_step(event: WaitEvent) -> (step: WaitStep)
    ensures
        step == event.step(),
{
    match event {
        WaitEvent::Exited(code) => WaitStep::Done(ExitStatus::Exited(code)),
        WaitEvent::Signaled => WaitStep::Done(ExitStatus::Signaled),
        WaitEvent::Other => WaitStep::Again,
        WaitEvent::Failed => WaitStep::Done(ExitStatus::WaitFailed),
    }
}

/// Waits once for `child` and settles on the answer. Blocks until the system
/// has an answer. Which one it is depends on the child alone; [`settle`] says
/// what comes of each. An exit code is a number from 0 to 255.
pub fn wait_once(child: ChildHandle) -> (waited: Waited)
    ensures
        waited matches Waited::Running(same) ==> same.id() == child.id(),
        waited matches Waited::Ended(ExitStatus::Exited(code)) ==> 0 <= code <= 255,
{
    let pid = child.pid();
    settle(child, wait_child(pid))
}

/// What a wait for `child` comes to when the system answers it with `event`:
/// an end or a failure ends the wait, and any other answer gives the handle
/// back, the same one, to wait again.
pub open spec fn waited_of(child: ChildHandle, event: WaitEvent) -> Waited {
    match event.step() {
        WaitStep::Done(status) => Waited::Ended(status),
        WaitStep::Again => Waited::Running(child),
    }
}

/// Settles a wait for `child` on the answer `event` of the system.
pub fn settle(child: ChildHandle, event: WaitEvent) -> (waited: Waited)
    ensures
        waited == waited_of(child, event),
{
    match wait_step(event) {
        WaitStep::Done(status) => Waited::Ended(status),
        WaitStep::Again => Waited::Running(child),
    }
}

/// Waits for `child` until it has ended or a wait has failed, asking the
/// system again after every other answer, without a pause and up to
/// `attempts` times. A wait that failed is not tried again.
///
/// If the wait has not ended by then, the handle comes back and the child can
/// be waited for again. Whether it ends at all is its own affair.
pub fn wait_loop(child: ChildHandle, attempts: u64) -> (waited: Waited)
    ensures
        attempts == 0 ==> waited is Running,
        waited matches Waited::Running(same) ==> same.id() == child.id(),
        waited matches Waited::Ended(ExitStatus::Exited(code)) ==> 0 <= code <= 255,
{
    let ghost id = child.id();
    let mut child = child;
    let mut left: u64 = attempts;
    while left > 0
        invariant
            left <= attempts,
            child.id() == id,
        decreases left,
    {
        match wait_once(child) {
            Waited::Ended(status) => {
                return Waited::Ended(status);
            },
            Waited::Running(same) => {
                child = same;
            },
        }
        left -= 1;
    }
    Waited::Running(child)
}

/// What the shell shows for a wait that ended with `status`.
pub fn exit_result(status: ExitStatus) -> (result: Result<i32, ShellError>)
    ensures
        result == status.result(),
{
    match status {
        ExitStatus::Exited(code) => Ok(code),
        ExitStatus::Signaled => Err(ShellError::Signaled),
        ExitStatus::WaitFailed => Err(ShellError::WaitFailed),
    }
}

/// A wait goes on through stops and ends with the first answer that is none.
/// If that answer is an exit, the shell shows the exit code of the child,
/// unchanged.
pub proof fn lemma_wait_ends_with_exit_code(events: Seq<WaitEvent>, k: int, code: i32)
    requires
        0 <= k < events.len(),
        forall|j: int| 0 <= j < k ==> events[j] == WaitEvent::Other,
        events[k] == WaitEvent::Exited(code),
    ensures
        wait_outcome(events.take(k)) is None,
        wait_outcome(events) == Some(ExitStatus::Exited(code)),
        ExitStatus::Exited(code).result() == Ok::<i32, ShellError>(code),
    decreases k,
{
    if k > 0 {
        let rest = events.drop_first();
        lemma_wait_ends_with_exit_code(rest, k - 1, code);
        assert(events.take(k).drop_first() == rest.take(k - 1));
    }
}

/// A wait that meets a death by signal first ends with the error for it.
pub proof fn lemma_wait_ends_with_signal(events: Seq<WaitEvent>, k: int)
    requires
        0 <= k < events.len(),
        forall|j: int| 0 <= j < k ==> events[j] == WaitEvent::Other,
        events[k] == WaitEvent::Signaled,
    ensures
        wait_outcome(events) == Some(ExitStatus::Signaled),
        ExitStatus::Signaled.result() == Err::<i32, ShellError>(ShellError::Signaled),
    decreases k,
{
    if k > 0 {
        lemma_wait_ends_with_signal(events.drop_first(), k - 1);
    }
}

/// A wait that fails ends there, with the error for it: what would have
/// come after the failure is never asked for.
pub proof fn lemma_failed_wait_is_not_retried(events: Seq<WaitEvent>, k: int)
    requires
        0 <= k < events.len(),
        forall|j: int| 0 <= j < k ==> events[j] == WaitEvent::Other,
        events[k] == WaitEvent::Failed,
    ensures
        wait_outcome(events) == Some(ExitStatus::WaitFailed),
        wait_outcome(events) == wait_outcome(events.take(k + 1)),
        ExitStatus::WaitFailed.result() == Err::<i32, ShellError>(ShellError::WaitFailed),
    decreases k,
{
    if k > 0 {
        let rest = events.drop_first();
        lemma_failed_wait_is_not_retried(rest, k - 1);
        assert(events.take(k + 1).drop_first() == rest.take(k));
    }
}

} // verus!
