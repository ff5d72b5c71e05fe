use brewhouse::outcome::{outcome_of_run, update_report, BrewError, OperationOutcome};

#[test]
fn success_exit_keeps_stdout() {
    let r = outcome_of_run(true, "done".to_string(), "noise".to_string());
    assert!(matches!(r, OperationOutcome::Success(ref t) if t == "done"));
    assert!(r.is_success());
}

#[test]
fn failure_exit_prefers_stderr() {
    let r = outcome_of_run(false, "partial".to_string(), "boom".to_string());
    assert!(matches!(r, OperationOutcome::Failure(ref t) if t == "boom"));
    assert!(!r.is_success());
}

#[test]
fn failure_exit_with_empty_stderr_falls_back_to_stdout() {
    let r = outcome_of_run(false, "partial".to_string(), String::new());
    assert!(matches!(r, OperationOutcome::Failure(ref t) if t == "partial"));
}

#[test]
fn update_success_hands_back_both_streams() {
    let r = update_report(true, "out".to_string(), "progress".to_string());
    assert_eq!(r.unwrap(), ("out".to_string(), "progress".to_string()));
}

#[test]
fn update_failure_joins_both_streams() {
    let e = update_report(false, "out".to_string(), "err".to_string()).unwrap_err();
    match e {
        BrewError::CommandFailed(m) => assert_eq!(m, "out\nerr"),
        other => panic!("unexpected error: {:?}", other),
    }
}

#[test]
fn error_messages_name_their_kind() {
    assert_eq!(
        BrewError::CommandFailed("boom".to_string()).message(),
        "Brew command failed: boom"
    );
    assert_eq!(
        BrewError::ParseError("bad".to_string()).message(),
        "Failed to parse brew output: bad"
    );
    assert_eq!(
        BrewError::NotInstalled.message(),
        "Homebrew is not installed or not in PATH"
    );
}
