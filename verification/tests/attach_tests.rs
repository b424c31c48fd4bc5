use rdb::{AcquisitionPlan, DebugError, Process};

// An identifier far above any real process identifier: the OS rejects every
// call against it, which keeps these tests deterministic and harmless.
const ABSENT_PID: i32 = 2147483647;

#[test]
fn test_process_attach_pid_0_fails() {
    match Process::attach("0") {
        Ok(_) => {
            assert!(false, "attached to process with pid 0")
        }
        Err(_) => {
            assert!(true)
        }
    }
}

#[test]
fn attach_rejects_non_numeric_text() {
    assert!(matches!(Process::attach("abc"), Err(DebugError::InvalidIdentifier)));
    assert!(matches!(Process::attach("12x"), Err(DebugError::InvalidIdentifier)));
    assert!(matches!(Process::attach(""), Err(DebugError::InvalidIdentifier)));
    assert!(matches!(Process::attach("+"), Err(DebugError::InvalidIdentifier)));
    assert!(matches!(Process::attach("1 2"), Err(DebugError::InvalidIdentifier)));
}

#[test]
fn attach_rejects_non_positive_identifiers() {
    assert!(matches!(Process::attach("0"), Err(DebugError::InvalidIdentifier)));
    assert!(matches!(Process::attach("-5"), Err(DebugError::InvalidIdentifier)));
    assert!(matches!(Process::attach("000"), Err(DebugError::InvalidIdentifier)));
}

#[test]
fn attach_rejects_overflowing_identifiers() {
    assert!(matches!(Process::attach("2147483648"), Err(DebugError::InvalidIdentifier)));
    assert!(matches!(Process::attach("99999999999999999999"), Err(DebugError::InvalidIdentifier)));
}

#[test]
fn attach_to_absent_process_is_an_os_failure() {
    // valid identifier text, so the OS is asked and refuses
    match Process::attach("2147483647") {
        Err(DebugError::AttachFailed(reason)) => {
            assert!(reason.starts_with("failed to attach"));
        }
        _ => assert!(false, "expected AttachFailed"),
    }
}

#[test]
fn invalid_identifier_has_a_diagnostic() {
    let e = DebugError::InvalidIdentifier;
    assert_eq!(
        e.message(),
        "invalid process identifier: not a positive integer".to_string()
    );
}

#[test]
fn parse_pid_text_exact_values() {
    assert_eq!(rdb::parse_pid_text("123"), Some(123));
    assert_eq!(rdb::parse_pid_text("007"), Some(7));
    assert_eq!(rdb::parse_pid_text("+42"), Some(42));
    assert_eq!(rdb::parse_pid_text("2147483647"), Some(2147483647));
    assert_eq!(rdb::parse_pid_text("1"), Some(1));
}

#[test]
fn parse_pid_text_rejections() {
    assert_eq!(rdb::parse_pid_text("0"), None);
    assert_eq!(rdb::parse_pid_text("-1"), None);
    assert_eq!(rdb::parse_pid_text("2147483648"), None);
    assert_eq!(rdb::parse_pid_text(""), None);
    assert_eq!(rdb::parse_pid_text("+"), None);
    assert_eq!(rdb::parse_pid_text("-"), None);
    assert_eq!(rdb::parse_pid_text("12.5"), None);
    assert_eq!(rdb::parse_pid_text(" 1"), None);
}

#[test]
fn attach_outcome_reflects_the_os_answer() {
    let p = Process::attach_outcome(ABSENT_PID, Ok(())).expect("an OS yes must give a controller");
    assert_eq!(p.pid(), ABSENT_PID);
    assert_eq!(p.state(), rdb::ProcessState::Running);
    match Process::attach_outcome(ABSENT_PID, Err("denied".to_string())) {
        Err(DebugError::AttachFailed(reason)) => assert_eq!(reason, "denied".to_string()),
        _ => assert!(false, "expected AttachFailed"),
    }
}

#[test]
fn launch_outcome_empty_report_is_success() {
    let p = Process::launch_outcome(ABSENT_PID, String::new()).expect("empty report must succeed");
    assert_eq!(p.pid(), ABSENT_PID);
    assert_eq!(p.state(), rdb::ProcessState::Running);
}

#[test]
fn launch_outcome_report_is_a_launch_failure() {
    match Process::launch_outcome(ABSENT_PID, "exec failed: no such file".to_string()) {
        Err(DebugError::LaunchFailed(msg)) => {
            assert_eq!(msg, "exec failed: no such file".to_string());
        }
        _ => assert!(false, "expected LaunchFailed"),
    }
}

#[test]
fn select_acquisition_routes_flagged_identifier_to_attach() {
    let args: Vec<String> = vec!["rdb".to_string(), "-p".to_string(), "123".to_string()];
    match rdb::select_acquisition(&args) {
        AcquisitionPlan::AttachTo(id) => assert_eq!(id, "123".to_string()),
        _ => assert!(false, "expected the attach strategy"),
    }
}

#[test]
fn select_acquisition_routes_paths_to_launch() {
    let args: Vec<String> = vec!["rdb".to_string(), "/bin/echo".to_string()];
    match rdb::select_acquisition(&args) {
        AcquisitionPlan::LaunchPath(path) => assert_eq!(path, "/bin/echo".to_string()),
        _ => assert!(false, "expected the launch strategy"),
    }
    // a -p flag without exactly one identifier after it is not the attach form
    let four: Vec<String> =
        vec!["rdb".to_string(), "-p".to_string(), "1".to_string(), "2".to_string()];
    assert!(matches!(rdb::select_acquisition(&four), AcquisitionPlan::LaunchPath(_)));
    let other: Vec<String> = vec!["rdb".to_string(), "-q".to_string(), "1".to_string()];
    assert!(matches!(rdb::select_acquisition(&other), AcquisitionPlan::LaunchPath(_)));
}
