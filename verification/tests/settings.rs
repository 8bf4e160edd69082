use telepathy::platform::Platform;
use telepathy::process::{ExitStatus, ProcessOutput};
use telepathy::settings::{
    launch_failure_text, open_system_settings, rejection_text, replay, SettingsPanel,
    SettingsStep, OPENER,
};

const CAMERA: [&str; 3] = [
    "x-apple.systempreferences:com.apple.preference.security?Privacy_Camera",
    "x-apple.systempreferences:com.apple.settings.PrivacySecurity.extension?Privacy_Camera",
    "x-apple.systempreferences:com.apple.preference.security",
];

const ACCESSIBILITY: [&str; 3] = [
    "x-apple.systempreferences:com.apple.preference.security?Privacy_Accessibility",
    "x-apple.systempreferences:com.apple.settings.PrivacySecurity.extension?Privacy_Accessibility",
    "x-apple.systempreferences:com.apple.preference.security",
];

fn accepts() -> Result<ProcessOutput, String> {
    Ok(ProcessOutput {
        status: ExitStatus { success: true, code: Some(0) },
        stdout: Vec::new(),
        stderr: Vec::new(),
    })
}

fn rejects(code: Option<i32>, stderr: &str) -> Result<ProcessOutput, String> {
    Ok(ProcessOutput {
        status: ExitStatus { success: false, code },
        stdout: Vec::new(),
        stderr: stderr.as_bytes().to_vec(),
    })
}

fn opened_url(step: &SettingsStep) -> &'static str {
    match step {
        SettingsStep::Open(link) => link.url(),
        SettingsStep::Finished(_) => panic!("the request is over"),
    }
}

fn error_of(step: SettingsStep) -> String {
    match step {
        SettingsStep::Finished(Err(message)) => message,
        _ => panic!("the request did not fail"),
    }
}

#[test]
fn opener_is_open() {
    assert_eq!(OPENER, "open");
}

#[test]
fn request_starts_with_the_first_camera_target() {
    let step = open_system_settings(Platform::MacOs, SettingsPanel::Camera);
    assert_eq!(opened_url(&step), CAMERA[0]);
}

#[test]
fn request_starts_with_the_first_accessibility_target() {
    let step = open_system_settings(Platform::MacOs, SettingsPanel::Accessibility);
    assert_eq!(opened_url(&step), ACCESSIBILITY[0]);
}

#[test]
fn request_is_not_implemented_elsewhere() {
    let step = open_system_settings(Platform::Other, SettingsPanel::Camera);
    assert_eq!(error_of(step), "System Settings deep link is only implemented on macOS.");
    let step = open_system_settings(Platform::Other, SettingsPanel::Accessibility);
    assert_eq!(error_of(step), "System Settings deep link is only implemented on macOS.");
}

#[test]
fn targets_follow_in_order() {
    for (panel, urls) in [(SettingsPanel::Camera, CAMERA), (SettingsPanel::Accessibility, ACCESSIBILITY)] {
        let mut step = open_system_settings(Platform::MacOs, panel);
        for expected in urls {
            assert_eq!(opened_url(&step), expected);
            step = match step {
                SettingsStep::Open(link) => link.opened(&rejects(Some(1), "")),
                SettingsStep::Finished(_) => unreachable!(),
            };
        }
        assert!(matches!(step, SettingsStep::Finished(Err(_))));
    }
}

#[test]
fn accepted_at_once_takes_one_attempt() {
    let outcomes = vec![accepts()];
    let (step, attempts) = replay(Platform::MacOs, SettingsPanel::Camera, &outcomes);
    assert!(matches!(step, SettingsStep::Finished(Ok(()))));
    assert_eq!(attempts, 1);
}

#[test]
fn accepted_after_one_rejection_takes_two_attempts() {
    let outcomes = vec![rejects(Some(1), "no handler"), accepts(), accepts()];
    let (step, attempts) = replay(Platform::MacOs, SettingsPanel::Accessibility, &outcomes);
    assert!(matches!(step, SettingsStep::Finished(Ok(()))));
    assert_eq!(attempts, 2);
}

#[test]
fn accepted_after_two_rejections_takes_three_attempts() {
    let outcomes = vec![rejects(Some(1), ""), rejects(None, "x"), accepts()];
    let (step, attempts) = replay(Platform::MacOs, SettingsPanel::Camera, &outcomes);
    assert!(matches!(step, SettingsStep::Finished(Ok(()))));
    assert_eq!(attempts, 3);
}

#[test]
fn all_rejected_reports_the_last_target() {
    let outcomes = vec![rejects(Some(1), "first"), rejects(Some(2), "second"), rejects(Some(3), " third \n")];
    let (step, attempts) = replay(Platform::MacOs, SettingsPanel::Camera, &outcomes);
    assert_eq!(attempts, 3);
    let message = error_of(step);
    assert_eq!(
        message,
        "open exited with status 3 for x-apple.systempreferences:com.apple.preference.security: third"
    );
    assert!(message.contains(CAMERA[2]));
}

#[test]
fn all_rejected_without_diagnostic() {
    let outcomes = vec![rejects(Some(1), ""), rejects(Some(1), ""), rejects(Some(1), "  \n")];
    let (step, attempts) = replay(Platform::MacOs, SettingsPanel::Accessibility, &outcomes);
    assert_eq!(attempts, 3);
    assert_eq!(
        error_of(step),
        "open exited with status 1 for x-apple.systempreferences:com.apple.preference.security"
    );
}

#[test]
fn all_rejected_without_exit_code() {
    let outcomes = vec![rejects(Some(1), ""), rejects(Some(1), ""), rejects(None, "killed")];
    let (step, _) = replay(Platform::MacOs, SettingsPanel::Camera, &outcomes);
    assert_eq!(
        error_of(step),
        "open exited with status unknown for x-apple.systempreferences:com.apple.preference.security: killed"
    );
}

#[test]
fn answers_after_the_end_are_not_consumed() {
    let outcomes = vec![accepts(), rejects(Some(1), ""), rejects(Some(1), ""), rejects(Some(1), "")];
    let (step, attempts) = replay(Platform::MacOs, SettingsPanel::Camera, &outcomes);
    assert!(matches!(step, SettingsStep::Finished(Ok(()))));
    assert_eq!(attempts, 1);
}

#[test]
fn opener_that_cannot_run_ends_the_request() {
    let outcomes = vec![rejects(Some(1), ""), Err("No such file or directory (os error 2)".to_string()), accepts()];
    let (step, attempts) = replay(Platform::MacOs, SettingsPanel::Camera, &outcomes);
    assert_eq!(attempts, 2);
    assert_eq!(
        error_of(step),
        "Unable to execute 'open' for x-apple.systempreferences:com.apple.settings.PrivacySecurity.extension?Privacy_Camera: No such file or directory (os error 2)"
    );
}

#[test]
fn short_script_leaves_the_request_pending() {
    let outcomes = vec![rejects(Some(1), "")];
    let (step, attempts) = replay(Platform::MacOs, SettingsPanel::Accessibility, &outcomes);
    assert_eq!(attempts, 1);
    assert_eq!(opened_url(&step), ACCESSIBILITY[1]);
    let none: Vec<Result<ProcessOutput, String>> = Vec::new();
    let (step, attempts) = replay(Platform::MacOs, SettingsPanel::Accessibility, &none);
    assert_eq!(attempts, 0);
    assert_eq!(opened_url(&step), ACCESSIBILITY[0]);
}

#[test]
fn unsupported_platform_makes_no_attempt() {
    let outcomes = vec![accepts(), accepts(), accepts()];
    let (step, attempts) = replay(Platform::Other, SettingsPanel::Camera, &outcomes);
    assert_eq!(attempts, 0);
    assert_eq!(error_of(step), "System Settings deep link is only implemented on macOS.");
}

#[test]
fn rejection_text_formats() {
    assert_eq!(rejection_text("u", Some(0), ""), "open exited with status 0 for u");
    assert_eq!(rejection_text("u", Some(-9), "why"), "open exited with status -9 for u: why");
    assert_eq!(rejection_text("u", None, ""), "open exited with status unknown for u");
    assert_eq!(rejection_text("", Some(256), "d"), "open exited with status 256 for : d");
}

#[test]
fn launch_failure_text_formats() {
    assert_eq!(launch_failure_text("u", "denied"), "Unable to execute 'open' for u: denied");
    assert_eq!(launch_failure_text("u", ""), "Unable to execute 'open' for u: ");
}
