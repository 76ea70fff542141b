//! Deployment-age policy for rollback eligibility.
//!
//! The deployment tool reports its status as a JSON document whose
//! `deployments` array carries one entry per deployment, newest first,
//! each with a `timestamp` in seconds. [`poc_rollback_policy`] reads the
//! two newest timestamps out of that document and applies the grace-period
//! rule of [`within_grace_period`]: a rollback is only sensible while the
//! current deployment is newer than the previous one and still within its
//! grace window. Obtaining the status text and the current time happens
//! outside the crate.

use vstd::prelude::*;

verus! {

#[verifier::external_type_specification]
#[verifier::external_body]
pub struct ExValue(serde_json::Value);

/// Relies on `serde_json::from_str`: parses a JSON document, `None` when
/// the text is not valid JSON.
#[verifier::external_body]
fn parse_status_json(s: &str) -> Option<serde_json::Value> {
    serde_json::from_str(s).ok()
}

/// Relies on `serde_json::Value::get` with a string index: looks the key
/// up in a JSON map, `None` for a missing key or a non-map value.
#[verifier::external_body]
fn json_member<'a>(v: &'a serde_json::Value, key: &str) -> Option<&'a serde_json::Value> {
    v.get(key)
}

/// Relies on `serde_json::Value::get` with a usize index: picks the
/// element of a JSON array, `None` when out of bounds or not an array.
#[verifier::external_body]
fn json_element<'a>(v: &'a serde_json::Value, i: usize) -> Option<&'a serde_json::Value> {
    v.get(i)
}

/// Relies on `serde_json::Value::as_u64`: the value as an unsigned
/// integer, `None` when it is not one.
#[verifier::external_body]
fn json_as_u64(v: &serde_json::Value) -> Option<u64> {
    v.as_u64()
}

/// Where a deployment stands relative to its rollback grace window.
#[derive(Clone, Copy, Debug, PartialEq, Eq, Structural)]
pub enum GraceVerdict {
    /// The current deployment is older than the previous one: the system
    /// is already running the deployment a rollback would restore.
    AlreadyPrevious,
    /// The grace window after deploying has already closed.
    GracePassed,
    /// Still within the grace window.
    Within,
}

/// The grace-period rule over plain timestamps (seconds): rolling back is
/// sensible only while the current deployment is at least as new as the
/// previous one and `now` has not passed its deployment time by more than
/// the grace window.
pub open spec fn grace_verdict(
    t_current: u64,
    t_previous: u64,
    now_secs: u64,
    duration_hours: u32,
) -> GraceVerdict {
    if t_current < t_previous {
        GraceVerdict::AlreadyPrevious
    } else if t_current + duration_hours * 3600 < now_secs {
        GraceVerdict::GracePassed
    } else {
        GraceVerdict::Within
    }
}

/// Applies the grace-period rule exactly as [`grace_verdict`] states it.
pub fn within_grace_period(
    t_current: u64,
    t_previous: u64,
    now_secs: u64,
    duration_hours: u32,
) -> (r: GraceVerdict)
    ensures
        r == grace_verdict(t_current, t_previous, now_secs, duration_hours),
{
    if t_current < t_previous {
        GraceVerdict::AlreadyPrevious
    } else {
        let deadline: u128 = t_current as u128 + (duration_hours as u128) * 3600;
        if deadline < now_secs as u128 {
            GraceVerdict::GracePassed
        } else {
            GraceVerdict::Within
        }
    }
}

/// Why the policy refused, or could not decide.
#[derive(Clone, Copy, Debug, PartialEq, Eq, Structural)]
pub enum PolicyError {
    /// The status document was not JSON of the expected shape.
    MalformedStatus,
    AlreadyInPrevious,
    GracePeriodPassed,
}

impl PolicyError {
    pub open spec fn message_spec(&self) -> Seq<char> {
        match self {
            PolicyError::MalformedStatus => "cannot_convert to json"@,
            PolicyError::AlreadyInPrevious => "already in the previous deployment"@,
            PolicyError::GracePeriodPassed => "grace period has already passed to trigger rollback"@,
        }
    }

    /// Human-readable description of the refusal.
    pub fn message(&self) -> (r: String)
        ensures
            r@ == self.message_spec(),
    {
        match self {
            PolicyError::MalformedStatus => String::from_str("cannot_convert to json"),
            PolicyError::AlreadyInPrevious => String::from_str(
                "already in the previous deployment",
            ),
            PolicyError::GracePeriodPassed => String::from_str(
                "grace period has already passed to trigger rollback",
            ),
        }
    }
}

/// The `timestamp` of the `idx`-th deployment in the status document.
fn deployment_timestamp(deployments: &serde_json::Value, idx: usize) -> Option<u64> {
    match json_element(deployments, idx) {
        Some(d) => match json_member(d, "timestamp") {
            Some(t) => json_as_u64(t),
            None => None,
        },
        None => None,
    }
}

/// Decides whether a rollback would still be within the grace window,
/// from the deployment tool's JSON status text and the current time in
/// seconds. The two newest deployment timestamps are read out of the
/// document; a document without them is refused as malformed. The verdict
/// over the extracted timestamps is exactly [`grace_verdict`], which
/// carries the contract.
pub fn poc_rollback_policy(status_json: &str, now_secs: u64, duration_hours: u32) -> Result<
    (),
    PolicyError,
> {
    let parsed = match parse_status_json(status_json) {
        Some(v) => v,
        None => {
            return Err(PolicyError::MalformedStatus);
        },
    };
    let deployments = match json_member(&parsed, "deployments") {
        Some(d) => d,
        None => {
            return Err(PolicyError::MalformedStatus);
        },
    };
    let t_current = match deployment_timestamp(deployments, 0) {
        Some(t) => t,
        None => {
            return Err(PolicyError::MalformedStatus);
        },
    };
    let t_previous = match deployment_timestamp(deployments, 1) {
        Some(t) => t,
        None => {
            return Err(PolicyError::MalformedStatus);
        },
    };
    match within_grace_period(t_current, t_previous, now_secs, duration_hours) {
        GraceVerdict::AlreadyPrevious => Err(PolicyError::AlreadyInPrevious),
        GraceVerdict::GracePassed => Err(PolicyError::GracePeriodPassed),
        GraceVerdict::Within => Ok(()),
    }
}

} // verus!
