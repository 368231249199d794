use esh::error::ShellError;
use esh::execute::Execution;
use esh::launch::{esh_launch, ChildHandle, ForkOutcome, LaunchStep};
use esh::registry::Registry;
use esh::shell::{conclude, esh_turn, Conclusion, Control, Finished, Report};
use esh::wait::{exit_result, wait_loop, wait_once, ExitStatus, Waited};
use nix::spawn::{posix_spawn, PosixSpawnAttr, PosixSpawnFileActions};
use nix::NixPath;

fn spawn_sh(script: &str) -> i32 {
    let actions = PosixSpawnFileActions::init().unwrap();
    let attr = PosixSpawnAttr::init().unwrap();
    let spawned = script.with_nix_path(|script| {
        posix_spawn("/bin/sh", &actions, &attr, &[c"sh", c"-c", script], &[c"PATH=/bin:/usr/bin"])
    });
    spawned.unwrap().unwrap().as_raw()
}

fn handle_of(pid: i32) -> ChildHandle {
    match esh_launch(vec!["sh".to_string()], ForkOutcome::Parent(pid)) {
        LaunchStep::Wait(child) => child,
        other => panic!("{:?}", other),
    }
}

fn wait_for(pid: i32) -> (ExitStatus, usize) {
    let mut child = handle_of(pid);
    let mut asked = 0;
    loop {
        asked += 1;
        match wait_once(child) {
            Waited::Ended(status) => return (status, asked),
            Waited::Running(same) => child = same,
        }
    }
}

#[test]
fn a_child_that_exits_is_awaited_and_its_code_returned() {
    for (script, code) in [("exit 0", 0), ("exit 1", 1), ("exit 7", 7), ("exit 255", 255)] {
        let (status, asked) = wait_for(spawn_sh(script));
        assert_eq!(status, ExitStatus::Exited(code));
        assert_eq!(asked, 1);
        assert_eq!(exit_result(status), Ok(code));
    }
}

#[test]
fn a_child_is_awaited_until_it_ends() {
    let (status, _) = wait_for(spawn_sh("sleep 1; exit 3"));
    assert_eq!(status, ExitStatus::Exited(3));
}

#[test]
fn a_child_killed_by_a_signal_is_reported_as_signaled() {
    let (status, _) = wait_for(spawn_sh("kill -9 $$"));
    assert_eq!(status, ExitStatus::Signaled);
    let conclusion = conclude(Finished::Launched(exit_result(status)));
    assert_eq!(conclusion.control, Control::Continue);
    assert_eq!(conclusion.report, Report::Error(ShellError::Signaled));
}

#[test]
fn a_stopped_child_is_waited_for_again() {
    let (status, asked) = wait_for(spawn_sh("(sleep 1; kill -CONT $$) & kill -STOP $$; exit 5"));
    assert_eq!(status, ExitStatus::Exited(5));
    assert!(asked >= 2);
}

#[test]
fn a_running_child_keeps_its_handle() {
    let pid = spawn_sh("(sleep 1; kill -CONT $$) & kill -STOP $$; exit 5");
    let child = match wait_once(handle_of(pid)) {
        Waited::Running(same) => same,
        other => panic!("{:?}", other),
    };
    assert_eq!(child.pid(), pid);
    assert!(matches!(wait_loop(child, u64::MAX), Waited::Ended(ExitStatus::Exited(5))));
}

#[test]
fn waiting_for_what_is_no_child_fails() {
    let own = nix::unistd::getpid().as_raw();
    match wait_once(handle_of(own)) {
        Waited::Ended(status) => {
            assert_eq!(status, ExitStatus::WaitFailed);
            assert_eq!(exit_result(status), Err(ShellError::WaitFailed));
        }
        other => panic!("{:?}", other),
    }
}

#[test]
fn a_reaped_child_is_no_child_any_more() {
    let pid = spawn_sh("exit 0");
    let (status, _) = wait_for(pid);
    assert_eq!(status, ExitStatus::Exited(0));
    assert!(matches!(wait_once(handle_of(pid)), Waited::Ended(ExitStatus::WaitFailed)));
}

#[test]
fn a_wait_loop_ends_with_the_child() {
    let child = handle_of(spawn_sh("sleep 1; exit 9"));
    assert!(matches!(wait_loop(child, u64::MAX), Waited::Ended(ExitStatus::Exited(9))));
}

#[test]
fn a_wait_loop_goes_through_stops() {
    let child = handle_of(spawn_sh("(sleep 1; kill -CONT $$) & kill -STOP $$; exit 6"));
    assert!(matches!(wait_loop(child, u64::MAX), Waited::Ended(ExitStatus::Exited(6))));
}

#[test]
fn a_wait_loop_without_attempts_does_not_wait() {
    let pid = spawn_sh("exit 2");
    let child = match wait_loop(handle_of(pid), 0) {
        Waited::Running(same) => same,
        other => panic!("{:?}", other),
    };
    assert_eq!(child.pid(), pid);
    assert!(matches!(wait_loop(child, 1), Waited::Ended(ExitStatus::Exited(2))));
}

#[test]
fn a_wait_loop_gives_up_after_its_attempts() {
    let pid = spawn_sh("(sleep 1; kill -CONT $$) & kill -STOP $$; exit 8");
    let child = match wait_loop(handle_of(pid), 1) {
        Waited::Running(same) => same,
        other => panic!("{:?}", other),
    };
    assert_eq!(child.pid(), pid);
    assert!(matches!(wait_loop(child, 1), Waited::Ended(ExitStatus::Exited(8))));
}

#[test]
fn a_wait_loop_for_what_is_no_child_fails_and_is_not_retried() {
    let own = nix::unistd::getpid().as_raw();
    for attempts in [1, 2, 1000, u64::MAX] {
        assert!(matches!(
            wait_loop(handle_of(own), attempts),
            Waited::Ended(ExitStatus::WaitFailed)
        ));
    }
}

#[test]
fn a_failed_wait_is_reported_and_the_shell_goes_on() {
    let own = nix::unistd::getpid().as_raw();
    let status = match wait_loop(handle_of(own), u64::MAX) {
        Waited::Ended(status) => status,
        other => panic!("{:?}", other),
    };
    let conclusion = conclude(Finished::Launched(exit_result(status)));
    assert_eq!(conclusion.report, Report::Error(ShellError::WaitFailed));
    assert_eq!(conclusion.control, Control::Continue);
    assert_eq!(ShellError::WaitFailed.message(), "wait failed");
}

#[test]
fn echo_hello_runs_to_its_end_and_status_zero_is_reported() {
    let registry = Registry::new();
    let argv = match esh_turn(&registry, "echo hello\n") {
        Execution::Launch(argv) => argv,
        other => panic!("{:?}", other),
    };
    let (status, _) = wait_for(spawn_sh(&argv.join(" ")));
    assert_eq!(
        conclude(Finished::Launched(exit_result(status))),
        Conclusion { report: Report::Status(0), control: Control::Continue }
    );
}

#[test]
fn a_program_launched_after_cd_starts_in_the_new_directory() {
    let registry = Registry::new();
    match esh_turn(&registry, "cd /tmp\n") {
        Execution::Ran(reply) => assert_eq!(reply.output, vec!["moved".to_string()]),
        other => panic!("{:?}", other),
    }
    let (status, _) = wait_for(spawn_sh("test \"$(pwd)\" = /tmp"));
    assert_eq!(status, ExitStatus::Exited(0));
    let (status, _) = wait_for(spawn_sh("test \"$(pwd)\" = /"));
    assert_eq!(status, ExitStatus::Exited(1));
}
