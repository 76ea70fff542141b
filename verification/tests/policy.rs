use greenboot::policy::{poc_rollback_policy, within_grace_period, GraceVerdict, PolicyError};

#[test]
fn older_current_deployment_is_already_previous() {
    assert_eq!(within_grace_period(100, 200, 300, 1), GraceVerdict::AlreadyPrevious);
}

#[test]
fn grace_window_boundary_is_exact() {
    // Window of one hour after deploying at t=1000 closes strictly after
    // t=4600.
    assert_eq!(within_grace_period(1000, 500, 4600, 1), GraceVerdict::Within);
    assert_eq!(within_grace_period(1000, 500, 4601, 1), GraceVerdict::GracePassed);
}

#[test]
fn zero_hour_window_closes_immediately() {
    assert_eq!(within_grace_period(1000, 500, 1000, 0), GraceVerdict::Within);
    assert_eq!(within_grace_period(1000, 500, 1001, 0), GraceVerdict::GracePassed);
}

#[test]
fn huge_timestamps_do_not_overflow() {
    assert_eq!(
        within_grace_period(u64::MAX, 0, u64::MAX, u32::MAX),
        GraceVerdict::Within
    );
}

fn status(t_current: u64, t_previous: u64) -> String {
    format!(
        "{{\"deployments\":[{{\"timestamp\":{}}},{{\"timestamp\":{}}}]}}",
        t_current, t_previous
    )
}

#[test]
fn policy_accepts_a_fresh_deployment() {
    let json = status(1000, 500);
    assert_eq!(poc_rollback_policy(&json, 1200, 1), Ok(()));
}

#[test]
fn policy_refuses_after_the_grace_window() {
    let json = status(1000, 500);
    let err = poc_rollback_policy(&json, 1000 + 3600 + 1, 1).unwrap_err();
    assert_eq!(err, PolicyError::GracePeriodPassed);
    assert_eq!(
        err.message(),
        String::from("grace period has already passed to trigger rollback")
    );
}

#[test]
fn policy_refuses_when_already_on_the_previous_deployment() {
    let json = status(500, 1000);
    let err = poc_rollback_policy(&json, 1200, 1).unwrap_err();
    assert_eq!(err, PolicyError::AlreadyInPrevious);
    assert_eq!(err.message(), String::from("already in the previous deployment"));
}

#[test]
fn policy_refuses_text_that_is_not_json() {
    let err = poc_rollback_policy("rpm-ostree exploded", 0, 1).unwrap_err();
    assert_eq!(err, PolicyError::MalformedStatus);
    assert_eq!(err.message(), String::from("cannot_convert to json"));
}

#[test]
fn policy_needs_two_deployments() {
    let json = String::from("{\"deployments\":[{\"timestamp\":1000}]}");
    assert_eq!(poc_rollback_policy(&json, 1200, 1), Err(PolicyError::MalformedStatus));
}

#[test]
fn policy_needs_numeric_timestamps() {
    let json = String::from(
        "{\"deployments\":[{\"timestamp\":\"soon\"},{\"timestamp\":500}]}",
    );
    assert_eq!(poc_rollback_policy(&json, 1200, 1), Err(PolicyError::MalformedStatus));
}
