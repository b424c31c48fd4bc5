use rdb::{CommandOutcome, DebugError, Process, ProcessState, WaitEvent};

// An identifier far above any real process identifier: every OS call against
// it fails, which keeps these tests deterministic and harmless.
const ABSENT_PID: i32 = 2147483647;

#[test]
fn command_recognition_accepts_prefixes() {
    assert!(rdb::command_is_continue("c"));
    assert!(rdb::command_is_continue("co"));
    assert!(rdb::command_is_continue("cont"));
    assert!(rdb::command_is_continue("continue"));
    assert!(rdb::command_is_continue("  continue"));
    assert!(rdb::command_is_continue("c now"));
}

#[test]
fn command_recognition_rejects_everything_else() {
    assert!(!rdb::command_is_continue("cx"));
    assert!(!rdb::command_is_continue(""));
    assert!(!rdb::command_is_continue("   "));
    assert!(!rdb::command_is_continue("continues"));
    assert!(!rdb::command_is_continue("C"));
    assert!(!rdb::command_is_continue("step"));
}

#[test]
fn unknown_command_changes_no_state() {
    let mut p = Process::new(ABSENT_PID, false, ProcessState::Stopped);
    assert!(matches!(p.dispatch_command("cx"), CommandOutcome::UnknownCommand));
    assert_eq!(p.state(), ProcessState::Stopped);
    assert!(matches!(p.dispatch_command(""), CommandOutcome::UnknownCommand));
    assert_eq!(p.state(), ProcessState::Stopped);
    assert!(matches!(p.dispatch_command("step"), CommandOutcome::UnknownCommand));
    assert_eq!(p.state(), ProcessState::Stopped);
}

#[test]
fn continue_command_reaches_the_resume_call() {
    // each accepted prefix starts exactly one resume+wait cycle; on a target
    // the OS does not know, that cycle surfaces the resume failure
    for line in ["c", "cont", "continue"] {
        let mut p = Process::new(ABSENT_PID, false, ProcessState::Stopped);
        match p.dispatch_command(line) {
            CommandOutcome::CommandFailed(DebugError::ResumeFailed(reason)) => {
                assert!(reason.starts_with("could not continue"));
            }
            _ => assert!(false, "expected the resume step to run and fail"),
        }
        assert_eq!(p.state(), ProcessState::Stopped);
    }
}

#[test]
fn resume_failure_leaves_state_unchanged() {
    let mut p = Process::new(ABSENT_PID, false, ProcessState::Stopped);
    assert!(matches!(p.resume(), Err(DebugError::ResumeFailed(_))));
    assert_eq!(p.state(), ProcessState::Stopped);
}

#[test]
fn wait_failure_marks_the_target_terminated() {
    let mut p = Process::new(ABSENT_PID, false, ProcessState::Running);
    assert!(matches!(p.wait_on_signal(), Err(DebugError::WaitFailed(_))));
    assert_eq!(p.state(), ProcessState::Terminated);
}

#[test]
fn wait_observations_drive_the_state_machine() {
    let mut p = Process::new(ABSENT_PID, false, ProcessState::Running);
    assert_eq!(p.apply_wait(Ok(WaitEvent::Stopped(19))), Ok(19));
    assert_eq!(p.state(), ProcessState::Stopped);

    let mut q = Process::new(ABSENT_PID, false, ProcessState::Running);
    assert!(matches!(
        q.apply_wait(Ok(WaitEvent::Exited(0))),
        Err(DebugError::UnexpectedWaitStatus)
    ));
    assert_eq!(q.state(), ProcessState::Exited);

    let mut r = Process::new(ABSENT_PID, false, ProcessState::Running);
    assert!(matches!(
        r.apply_wait(Err("boom".to_string())),
        Err(DebugError::WaitFailed(_))
    ));
    assert_eq!(r.state(), ProcessState::Terminated);
}

#[test]
fn cleanup_is_idempotent_on_a_gone_target() {
    // the target identifier names no live process, as after an exit: every
    // protocol step is refused by the OS and the protocol still returns
    let mut p = Process::new(ABSENT_PID, true, ProcessState::Running);
    p.cleanup();
    assert_eq!(p.state(), ProcessState::Terminated);
    p.cleanup();
    assert_eq!(p.state(), ProcessState::Terminated);
}

#[test]
fn cleanup_leaves_unowned_targets_to_themselves() {
    let mut p = Process::new(ABSENT_PID, false, ProcessState::Stopped);
    p.cleanup();
    assert_eq!(p.state(), ProcessState::Running);
}

#[test]
fn cleanup_preserves_terminal_states() {
    let mut p = Process::new(ABSENT_PID, false, ProcessState::Exited);
    p.cleanup();
    assert_eq!(p.state(), ProcessState::Exited);
    let mut q = Process::new(ABSENT_PID, true, ProcessState::Terminated);
    q.cleanup();
    assert_eq!(q.state(), ProcessState::Terminated);
}

#[test]
fn string_equality_helper() {
    assert!(rdb::str_eq("-p", "-p"));
    assert!(!rdb::str_eq("-p", "-q"));
    assert!(!rdb::str_eq("-p", "-pp"));
    assert!(rdb::str_eq("", ""));
}

#[test]
fn unexpected_wait_status_has_a_diagnostic() {
    assert_eq!(
        DebugError::UnexpectedWaitStatus.message(),
        "unexpected wait status".to_string()
    );
    assert_eq!(
        DebugError::WaitFailed("waitpid failed: ECHILD".to_string()).message(),
        "waitpid failed: ECHILD".to_string()
    );
}
