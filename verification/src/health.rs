//! The post-boot health-check orchestration.
//!
//! [`health_check`] composes the diagnostics verdict with the boot-counter
//! store: it decides the verdict from the required-tier outcomes, updates
//! the store model, and returns the ordered list of external effects the
//! caller must perform — which best-effort tier to run (red after a
//! failure, green after a pass), which status message to write, which store
//! writes to mirror, and whether to force a reboot. The caller writes the
//! in-progress status message and runs the required and wanted tiers before
//! calling in; every returned effect is best-effort except the reboot.

use vstd::prelude::*;

use crate::checks::{run_diagnostics, diagnostics_verdict, DiagError, RootChecks};
use crate::config::GreenbootConfig;
use crate::handler::{
    counter_after_set, handle_boot_success, set_boot_counter, BootEnv, EnvOp,
};

verus! {

/// The status a message-of-the-day line reports.
#[derive(Clone, Copy, Debug, PartialEq, Eq, Structural)]
pub enum MotdState {
    InProgress,
    Passed,
    Failed,
}

impl MotdState {
    pub open spec fn phrase_spec(&self) -> Seq<char> {
        match self {
            MotdState::InProgress => "healthcheck is in progress"@,
            MotdState::Passed => "healthcheck passed - status is GREEN"@,
            MotdState::Failed => "healthcheck failed - status is RED"@,
        }
    }
}

/// The status text for one phase, to be framed by [`crate::handler::handle_motd`].
pub fn motd_phrase(state: MotdState) -> (r: String)
    ensures
        r@ == state.phrase_spec(),
{
    match state {
        MotdState::InProgress => String::from_str("healthcheck is in progress"),
        MotdState::Passed => String::from_str("healthcheck passed - status is GREEN"),
        MotdState::Failed => String::from_str("healthcheck failed - status is RED"),
    }
}

/// One external effect of the orchestration, in the order returned. The
/// store writes and the reboot must happen as given; the tier runs and the
/// status-message write are best-effort, and their failures never change
/// the verdict.
#[derive(Clone, Copy, Debug, PartialEq, Eq, Structural)]
pub enum Action {
    Env(EnvOp),
    /// Run the diagnostic scripts (failures logged only).
    RunRed,
    /// Run the celebration scripts (failures logged only).
    RunGreen,
    WriteMotd(MotdState),
    /// Unconditionally reboot now, ending the failed boot attempt.
    Reboot,
}

/// The effects of a passing health check: green scripts, the green status
/// line, then record success (which clears any counter).
pub open spec fn pass_actions() -> Seq<Action> {
    seq![
        Action::RunGreen,
        Action::WriteMotd(MotdState::Passed),
        Action::Env(EnvOp::SetSuccess(true)),
        Action::Env(EnvOp::UnsetCounter),
    ]
}

/// The effects of a failing health check: the red status line, record
/// failure, run the red scripts, establish the counter if none is in
/// progress, and force a reboot.
pub open spec fn failure_actions(counter_before: Option<i32>, max_reboot: i32) -> Seq<Action> {
    seq![
        Action::WriteMotd(MotdState::Failed),
        Action::Env(EnvOp::SetSuccess(false)),
        Action::RunRed,
    ] + (if counter_before is Some {
        Seq::<Action>::empty()
    } else {
        seq![Action::Env(EnvOp::SetCounter(max_reboot))]
    }) + seq![Action::Reboot]
}

/// What a health-check run asks of its caller, beside its verdict.
pub struct HealthReport {
    pub actions: Vec<Action>,
    pub verdict: Result<(), DiagError>,
}

/// The end-to-end post-boot verification flow, after the required and
/// wanted tiers have run.
///
/// On a pass the success flag is set and the counter cleared. On a script
/// failure the success flag is set to false and the counter is established
/// at the configured budget — idempotently, never overwriting a cycle
/// already in progress — and a forced reboot is requested. The
/// configuration error (no required-check directory anywhere) is a hard
/// failure that does not start the recovery cycle: the store is left
/// untouched and only the failed status line is written.
pub fn health_check(env: &mut BootEnv, config: &GreenbootConfig, roots: &Vec<RootChecks>) -> (r:
    HealthReport)
    ensures
        r.verdict == diagnostics_verdict(roots@),
        diagnostics_verdict(roots@) is Ok ==> {
            &&& final(env).boot_success == Some(true)
            &&& final(env).boot_counter is None
            &&& r.actions@ == pass_actions()
        },
        diagnostics_verdict(roots@) == Err::<(), DiagError>(DiagError::RequiredNotFound) ==> {
            &&& *final(env) == *old(env)
            &&& r.actions@ == seq![Action::WriteMotd(MotdState::Failed)]
        },
        diagnostics_verdict(roots@) == Err::<(), DiagError>(DiagError::HealthCheckFailed) ==> {
            &&& final(env).boot_success == Some(false)
            &&& final(env).boot_counter == counter_after_set(
                old(env).boot_counter,
                config.max_reboot,
            )
            &&& r.actions@ == failure_actions(old(env).boot_counter, config.max_reboot)
        },
{
    let verdict = run_diagnostics(roots);
    let mut actions: Vec<Action> = Vec::new();
    match verdict {
        Ok(()) => {
            actions.push(Action::RunGreen);
            actions.push(Action::WriteMotd(MotdState::Passed));
            let ops = handle_boot_success(env, true);
            push_env_ops(&mut actions, &ops);
            assert(actions@ == pass_actions());
        },
        Err(DiagError::RequiredNotFound) => {
            actions.push(Action::WriteMotd(MotdState::Failed));
        },
        Err(DiagError::HealthCheckFailed) => {
            actions.push(Action::WriteMotd(MotdState::Failed));
            let ops = handle_boot_success(env, false);
            push_env_ops(&mut actions, &ops);
            actions.push(Action::RunRed);
            let ops = set_boot_counter(env, config.max_reboot);
            push_env_ops(&mut actions, &ops);
            actions.push(Action::Reboot);
            assert(actions@ == failure_actions(old(env).boot_counter, config.max_reboot));
        },
    }
    HealthReport { actions, verdict }
}

/// Appends each store write to the action list, in order.
pub(crate) fn push_env_ops(actions: &mut Vec<Action>, ops: &Vec<EnvOp>)
    ensures
        final(actions)@ == old(actions)@ + ops@.map_values(|op: EnvOp| Action::Env(op)),
{
    let ghost mapped = ops@.map_values(|op: EnvOp| Action::Env(op));
    let mut i: usize = 0;
    while i < ops.len()
        invariant
            i <= ops@.len(),
            mapped == ops@.map_values(|op: EnvOp| Action::Env(op)),
            actions@ == old(actions)@ + mapped.subrange(0, i as int),
        decreases ops@.len() - i,
    {
        actions.push(Action::Env(ops[i]));
        proof {
            assert(mapped.subrange(0, i + 1) == mapped.subrange(0, i as int).push(
                mapped[i as int],
            ));
        }
        i = i + 1;
    }
    proof {
        assert(mapped.subrange(0, ops@.len() as int) == mapped);
    }
}

} // verus!
