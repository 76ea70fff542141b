use greenboot::checks::{run_diagnostics, DiagError, RootChecks, ScriptOutcome};

fn root(required: Option<Vec<ScriptOutcome>>, wanted: Vec<ScriptOutcome>) -> RootChecks {
    RootChecks { required, wanted }
}

fn failed(stderr: &str) -> ScriptOutcome {
    ScriptOutcome::Failed(String::from(stderr))
}

// validate when required folder is not found
#[test]
fn missing_required_folder() {
    let roots = vec![root(None, vec![]), root(None, vec![])];
    assert_eq!(
        run_diagnostics(&roots).unwrap_err().message(),
        String::from("required.d not found")
    );
}

#[test]
fn test_passed_diagnostics() {
    let roots = vec![
        root(None, vec![]),
        root(
            Some(vec![ScriptOutcome::Passed]),
            vec![ScriptOutcome::Passed, failed("boom")],
        ),
    ];
    let state = run_diagnostics(&roots);
    assert!(state.is_ok());
}

#[test]
fn test_failed_diagnostics() {
    let roots = vec![
        root(None, vec![]),
        root(
            Some(vec![ScriptOutcome::Passed, failed("exit status: 1")]),
            vec![ScriptOutcome::Passed, failed("boom")],
        ),
    ];
    let failed_msg = run_diagnostics(&roots).unwrap_err().message();
    assert_eq!(failed_msg, String::from("health-check failed!"));
}

#[test]
fn empty_required_dir_passes() {
    // A required directory that exists but holds no scripts is not a
    // configuration error and nothing failed.
    let roots = vec![root(None, vec![]), root(Some(vec![]), vec![])];
    assert!(run_diagnostics(&roots).is_ok());
}

#[test]
fn required_presence_unioned_across_roots() {
    // Only the vendor root has a required directory: the site root's
    // absence must not override it.
    let roots = vec![root(Some(vec![ScriptOutcome::Passed]), vec![]), root(None, vec![])];
    assert!(run_diagnostics(&roots).is_ok());
}

#[test]
fn required_failure_in_any_root_fails() {
    let roots = vec![
        root(Some(vec![ScriptOutcome::Passed]), vec![]),
        root(Some(vec![failed("nope")]), vec![]),
    ];
    assert_eq!(run_diagnostics(&roots), Err(DiagError::HealthCheckFailed));
}

#[test]
fn wanted_failures_never_flip_the_verdict() {
    let roots = vec![root(
        Some(vec![ScriptOutcome::Passed]),
        vec![failed("a"), failed("b"), failed("c")],
    )];
    assert!(run_diagnostics(&roots).is_ok());
}
