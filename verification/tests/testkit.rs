use cli_framework::testkit::TestOutput;

#[test]
fn normalize_strips_timestamp() {
    let out = TestOutput {
        stdout: "started at 2026-04-28T12:00:00 done".to_string(),
        stderr: "error at 2026-04-28T12:00:00".to_string(),
        exit_code: 0,
    };
    let normalized = out.normalize();
    assert_eq!(normalized.stdout, "started at <TIMESTAMP> done");
    assert_eq!(normalized.stderr, "error at <TIMESTAMP>");
}

#[test]
fn normalize_no_timestamp_unchanged() {
    let out = TestOutput {
        stdout: "no timestamps here".to_string(),
        stderr: "".to_string(),
        exit_code: 0,
    };
    let normalized = out.normalize();
    assert_eq!(normalized.stdout, "no timestamps here");
}

#[test]
fn assert_diagnostic_code_passes_when_present() {
    let out = TestOutput {
        stdout: "".to_string(),
        stderr: "error[E001]: unknown command\n  hint: check spelling".to_string(),
        exit_code: 1,
    };
    assert!(out.has_diagnostic_code("E001"));
    out.assert_diagnostic_code("E001");
}

#[test]
fn output_checks_answer_what_the_assertions_demand() {
    let out = TestOutput {
        stdout: "hello".to_string(),
        stderr: "error[E001]".to_string(),
        exit_code: -2,
    };
    assert!(!out.has_diagnostic_code("E999"));
    assert_eq!(out.exit_code(), -2);
    out.assert_exit_code(-2);
    assert!(out.stdout_contains("ell"));
    out.assert_stdout_contains("ell");
    assert!(!out.stdout_contains("x"));
    assert!(out.stderr_contains("E001"));
    out.assert_stderr_contains("E001");
    assert!(!out.stderr_contains("E2"));
}

#[test]
fn diagnostic_code_lookup_reports_absence() {
    let out = TestOutput {
        stdout: "".to_string(),
        stderr: "error[E001]: unknown".to_string(),
        exit_code: 1,
    };
    assert!(out.has_diagnostic_code("E001"));
    assert!(!out.has_diagnostic_code("E999"));
    assert_eq!(out.exit_code(), 1);
}
