use greenboot::checks::{DiagError, RootChecks, ScriptOutcome};
use greenboot::config::GreenbootConfig;
use greenboot::handler::{BootEnv, EnvOp};
use greenboot::health::{health_check, motd_phrase, Action, MotdState};

fn root(required: Option<Vec<ScriptOutcome>>, wanted: Vec<ScriptOutcome>) -> RootChecks {
    RootChecks { required, wanted }
}

fn failed(stderr: &str) -> ScriptOutcome {
    ScriptOutcome::Failed(String::from(stderr))
}

fn fresh() -> BootEnv {
    BootEnv { boot_counter: None, boot_success: None }
}

// Required directory present but empty, wanted directory with one passing
// script: the check passes, the counter stays unset, the flag goes true.
#[test]
fn scenario_empty_required_passes() {
    let mut env = fresh();
    let config = GreenbootConfig::get_config(None);
    let roots = vec![root(None, vec![]), root(Some(vec![]), vec![ScriptOutcome::Passed])];
    let report = health_check(&mut env, &config, &roots);
    assert!(report.verdict.is_ok());
    assert_eq!(env.boot_counter, None);
    assert_eq!(env.boot_success, Some(true));
    assert_eq!(
        report.actions,
        vec![
            Action::RunGreen,
            Action::WriteMotd(MotdState::Passed),
            Action::Env(EnvOp::SetSuccess(true)),
            Action::Env(EnvOp::UnsetCounter),
        ]
    );
}

// One required script exiting 1: the check fails, the counter becomes the
// default budget of 3, the flag goes false, and a reboot is requested.
#[test]
fn scenario_required_failure_starts_recovery() {
    let mut env = fresh();
    let config = GreenbootConfig::get_config(None);
    let roots = vec![root(None, vec![]), root(Some(vec![failed("exit status: 1")]), vec![])];
    let report = health_check(&mut env, &config, &roots);
    assert_eq!(report.verdict, Err(DiagError::HealthCheckFailed));
    assert_eq!(env.boot_counter, Some(3));
    assert_eq!(env.boot_success, Some(false));
    assert_eq!(
        report.actions,
        vec![
            Action::WriteMotd(MotdState::Failed),
            Action::Env(EnvOp::SetSuccess(false)),
            Action::RunRed,
            Action::Env(EnvOp::SetCounter(3)),
            Action::Reboot,
        ]
    );
}

// A retry cycle already in progress is never overwritten by a further
// failure: the counter keeps its value and no counter write is issued.
#[test]
fn failure_leaves_existing_counter_untouched() {
    let mut env = BootEnv { boot_counter: Some(2), boot_success: Some(false) };
    let config = GreenbootConfig::get_config(None);
    let roots = vec![root(Some(vec![failed("nope")]), vec![])];
    let report = health_check(&mut env, &config, &roots);
    assert_eq!(report.verdict, Err(DiagError::HealthCheckFailed));
    assert_eq!(env.boot_counter, Some(2));
    assert_eq!(
        report.actions,
        vec![
            Action::WriteMotd(MotdState::Failed),
            Action::Env(EnvOp::SetSuccess(false)),
            Action::RunRed,
            Action::Reboot,
        ]
    );
}

// No required directory anywhere: the configuration error is reported and
// no recovery starts — nothing to re-run differently.
#[test]
fn configuration_error_starts_no_recovery() {
    let mut env = BootEnv { boot_counter: Some(1), boot_success: Some(true) };
    let config = GreenbootConfig::get_config(None);
    let roots = vec![root(None, vec![ScriptOutcome::Passed]), root(None, vec![])];
    let report = health_check(&mut env, &config, &roots);
    assert_eq!(report.verdict, Err(DiagError::RequiredNotFound));
    assert_eq!(report.verdict.unwrap_err().message(), String::from("required.d not found"));
    assert_eq!(env.boot_counter, Some(1));
    assert_eq!(env.boot_success, Some(true));
    assert_eq!(report.actions, vec![Action::WriteMotd(MotdState::Failed)]);
}

// A pass ends any retry cycle that was in progress.
#[test]
fn pass_clears_an_existing_counter() {
    let mut env = BootEnv { boot_counter: Some(1), boot_success: Some(false) };
    let config = GreenbootConfig::get_config(None);
    let roots = vec![root(Some(vec![ScriptOutcome::Passed]), vec![])];
    let report = health_check(&mut env, &config, &roots);
    assert!(report.verdict.is_ok());
    assert_eq!(env.boot_counter, None);
    assert_eq!(env.boot_success, Some(true));
}

// The configured budget, not the default, is what a failure establishes.
#[test]
fn failure_uses_the_configured_budget() {
    let mut env = fresh();
    let config = GreenbootConfig::get_config(Some(7));
    let roots = vec![root(Some(vec![failed("x")]), vec![])];
    health_check(&mut env, &config, &roots);
    assert_eq!(env.boot_counter, Some(7));
}

#[test]
fn motd_phrases() {
    assert_eq!(
        motd_phrase(MotdState::InProgress),
        String::from("healthcheck is in progress")
    );
    assert_eq!(
        motd_phrase(MotdState::Passed),
        String::from("healthcheck passed - status is GREEN")
    );
    assert_eq!(
        motd_phrase(MotdState::Failed),
        String::from("healthcheck failed - status is RED")
    );
}
