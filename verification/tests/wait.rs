use esh::error::ShellError;
use esh::launch::{esh_launch, ChildHandle, ForkOutcome, LaunchStep};
use esh::wait::{exit_result, settle, wait_step, ExitStatus, WaitEvent, WaitStep, Waited};

fn child_with(pid: i32) -> ChildHandle {
    match esh_launch(vec!["sleep".to_string()], ForkOutcome::Parent(pid)) {
        LaunchStep::Wait(child) => child,
        other => panic!("{:?}", other),
    }
}

fn wait_through(events: &[WaitEvent]) -> (Option<ExitStatus>, usize) {
    let mut asked = 0;
    for event in events {
        asked += 1;
        if let WaitStep::Done(status) = wait_step(*event) {
            return (Some(status), asked);
        }
    }
    (None, asked)
}

#[test]
fn an_exit_ends_the_wait_with_its_code() {
    assert_eq!(wait_step(WaitEvent::Exited(0)), WaitStep::Done(ExitStatus::Exited(0)));
    assert_eq!(wait_step(WaitEvent::Exited(1)), WaitStep::Done(ExitStatus::Exited(1)));
    assert_eq!(wait_step(WaitEvent::Exited(42)), WaitStep::Done(ExitStatus::Exited(42)));
    assert_eq!(wait_step(WaitEvent::Exited(255)), WaitStep::Done(ExitStatus::Exited(255)));
}

#[test]
fn a_signal_ends_the_wait() {
    assert_eq!(wait_step(WaitEvent::Signaled), WaitStep::Done(ExitStatus::Signaled));
}

#[test]
fn any_other_answer_waits_again() {
    assert_eq!(wait_step(WaitEvent::Other), WaitStep::Again);
}

#[test]
fn a_failed_wait_ends_the_wait() {
    assert_eq!(wait_step(WaitEvent::Failed), WaitStep::Done(ExitStatus::WaitFailed));
}

#[test]
fn a_failed_wait_is_an_error() {
    assert_eq!(exit_result(ExitStatus::WaitFailed), Err(ShellError::WaitFailed));
    assert_eq!(ShellError::WaitFailed.message(), "wait failed");
}

#[test]
fn a_failed_wait_is_not_retried() {
    let events = [WaitEvent::Other, WaitEvent::Failed, WaitEvent::Exited(0)];
    assert_eq!(wait_through(&events), (Some(ExitStatus::WaitFailed), 2));
    assert_eq!(wait_through(&events[1..]), (Some(ExitStatus::WaitFailed), 1));
}

#[test]
fn a_failed_wait_settles_the_wait() {
    match settle(child_with(4711), WaitEvent::Failed) {
        Waited::Ended(status) => assert_eq!(status, ExitStatus::WaitFailed),
        other => panic!("{:?}", other),
    }
}

#[test]
fn exit_code_is_shown_unchanged() {
    for code in [0, 1, 2, 7, 101, 127, 128, 255] {
        assert_eq!(exit_result(ExitStatus::Exited(code)), Ok(code));
    }
}

#[test]
fn death_by_signal_is_an_error() {
    assert_eq!(exit_result(ExitStatus::Signaled), Err(ShellError::Signaled));
    assert_eq!(ShellError::Signaled.message(), "signaled");
}

#[test]
fn a_wait_ends_with_the_first_terminal_answer() {
    let events = [
        WaitEvent::Other,
        WaitEvent::Other,
        WaitEvent::Exited(3),
        WaitEvent::Signaled,
        WaitEvent::Exited(9),
    ];
    assert_eq!(wait_through(&events), (Some(ExitStatus::Exited(3)), 3));
    assert_eq!(wait_through(&events[..2]), (None, 2));
    assert_eq!(wait_through(&events[3..]), (Some(ExitStatus::Signaled), 1));
    assert_eq!(wait_through(&[]), (None, 0));
}

#[test]
fn a_wait_goes_on_through_any_number_of_stops() {
    let mut events = vec![WaitEvent::Other; 1000];
    assert_eq!(wait_through(&events), (None, 1000));
    events.push(WaitEvent::Exited(0));
    assert_eq!(wait_through(&events), (Some(ExitStatus::Exited(0)), 1001));
}

#[test]
fn an_exit_settles_the_wait_with_its_code() {
    for code in [0, 1, 42, 255] {
        match settle(child_with(4711), WaitEvent::Exited(code)) {
            Waited::Ended(status) => assert_eq!(status, ExitStatus::Exited(code)),
            other => panic!("{:?}", other),
        }
    }
}

#[test]
fn a_signal_settles_the_wait() {
    match settle(child_with(4711), WaitEvent::Signaled) {
        Waited::Ended(status) => assert_eq!(status, ExitStatus::Signaled),
        other => panic!("{:?}", other),
    }
}

#[test]
fn any_other_answer_gives_the_same_handle_back() {
    for pid in [1, 4711, i32::MAX] {
        match settle(child_with(pid), WaitEvent::Other) {
            Waited::Running(same) => assert_eq!(same.pid(), pid),
            other => panic!("{:?}", other),
        }
    }
}
