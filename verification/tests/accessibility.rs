use telepathy::accessibility::{
    check_accessibility_permission, permission_queried, status_from_diagnostic,
    status_from_reply, AccessibilityStep, PERMISSION_QUERY, SCRIPT_FLAG, SCRIPT_RUNNER,
};
use telepathy::platform::Platform;
use telepathy::process::{ExitStatus, ProcessOutput};

fn ran(success: bool, stdout: &[u8], stderr: &[u8]) -> Result<ProcessOutput, String> {
    Ok(ProcessOutput {
        status: ExitStatus { success, code: Some(if success { 0 } else { 1 }) },
        stdout: stdout.to_vec(),
        stderr: stderr.to_vec(),
    })
}

#[test]
fn query_command_line() {
    assert_eq!(SCRIPT_RUNNER, "osascript");
    assert_eq!(SCRIPT_FLAG, "-e");
    assert_eq!(PERMISSION_QUERY, "tell application \"System Events\" to get UI elements enabled");
}

#[test]
fn check_is_vacuous_without_the_permission_concept() {
    for _ in 0..3 {
        match check_accessibility_permission(Platform::Other) {
            AccessibilityStep::Finished(status) => {
                assert!(status.granted);
                assert_eq!(status.detail, None);
            }
            AccessibilityStep::Query => panic!("no query is due"),
        }
    }
}

#[test]
fn check_queries_where_the_permission_exists() {
    assert!(matches!(check_accessibility_permission(Platform::MacOs), AccessibilityStep::Query));
}

#[test]
fn clean_true_grants() {
    let status = permission_queried(ran(true, b"true\n", b""));
    assert!(status.granted);
    assert_eq!(status.detail, None);
}

#[test]
fn clean_true_in_any_case_grants() {
    assert!(permission_queried(ran(true, b"TRUE", b"")).granted);
    assert!(permission_queried(ran(true, b"  True \r\n", b"")).granted);
}

#[test]
fn clean_false_refuses_without_detail() {
    let status = permission_queried(ran(true, b"false\n", b"ignored"));
    assert!(!status.granted);
    assert_eq!(status.detail, None);
}

#[test]
fn clean_other_text_refuses() {
    assert!(!permission_queried(ran(true, b"", b"")).granted);
    assert!(!permission_queried(ran(true, b"true true", b"")).granted);
    assert!(!permission_queried(ran(true, b"yes", b"")).granted);
}

#[test]
fn failed_query_refuses_with_stderr() {
    let status = permission_queried(ran(false, b"true", b" execution error: not allowed (-1743)\n"));
    assert!(!status.granted);
    assert_eq!(status.detail, Some("execution error: not allowed (-1743)".to_string()));
}

#[test]
fn failed_query_without_stderr_has_no_detail() {
    let status = permission_queried(ran(false, b"true", b""));
    assert!(!status.granted);
    assert_eq!(status.detail, None);
    let status = permission_queried(ran(false, b"", b" \n"));
    assert_eq!(status.detail, None);
}

#[test]
fn query_that_cannot_run_refuses_with_the_error() {
    let status = permission_queried(Err("No such file or directory (os error 2)".to_string()));
    assert!(!status.granted);
    assert_eq!(status.detail, Some("No such file or directory (os error 2)".to_string()));
}

#[test]
fn status_from_reply_matches_true_only() {
    assert!(status_from_reply("true").granted);
    assert!(!status_from_reply("True").granted);
    assert!(!status_from_reply("false").granted);
    assert!(!status_from_reply("").granted);
    assert_eq!(status_from_reply("true").detail, None);
}

#[test]
fn status_from_diagnostic_drops_an_empty_text() {
    let status = status_from_diagnostic(String::new());
    assert!(!status.granted);
    assert_eq!(status.detail, None);
    let status = status_from_diagnostic("denied".to_string());
    assert!(!status.granted);
    assert_eq!(status.detail, Some("denied".to_string()));
}
