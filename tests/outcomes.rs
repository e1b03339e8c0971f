use run_with_callback::outcome::{classify_exit, ExitReport, ProcessOutcome};

fn exited(code: Option<i32>, description: &str) -> ExitReport {
    ExitReport::Exited { code, description: description.to_string() }
}

#[test]
fn exit_code_zero_is_success() {
    let o = classify_exit(exited(Some(0), "exit status: 0"));
    assert!(matches!(o, ProcessOutcome::Success));
    assert!(o.is_success());
}

#[test]
fn nonzero_exit_is_a_failure_with_its_status() {
    match classify_exit(exited(Some(1), "exit status: 1")) {
        ProcessOutcome::Failed(d) => assert_eq!(d, "exit status: 1"),
        _ => panic!("a nonzero exit is a failure"),
    }
    assert!(!classify_exit(exited(Some(-1), "exit status: -1")).is_success());
}

#[test]
fn end_by_signal_is_a_failure() {
    match classify_exit(exited(None, "signal: 15 (SIGTERM)")) {
        ProcessOutcome::Failed(d) => assert_eq!(d, "signal: 15 (SIGTERM)"),
        _ => panic!("an end by signal is a failure"),
    }
}

#[test]
fn failed_wait_is_a_wait_error() {
    let o = classify_exit(ExitReport::WaitFailed("no child processes".to_string()));
    match &o {
        ProcessOutcome::WaitError(m) => assert_eq!(m, "no child processes"),
        _ => panic!("a failed wait is a wait error"),
    }
    assert!(!o.is_success());
    assert!(!o.is_spawn_error());
    assert!(ProcessOutcome::SpawnError("not found".to_string()).is_spawn_error());
}
