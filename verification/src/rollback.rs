//! The rollback trigger.
//!
//! Rolling back to the previous deployment is an external, irreversible
//! operation, so it is allowed only reluctantly:
//! [`crate::handler::handle_rollback`]
//! denies it unless the retry budget is exhausted, and only on its `Ok` may
//! the caller invoke the rollback primitive. [`rollback_command_result`]
//! interprets the primitive's exit status, and [`trigger_rollback`] takes
//! whatever that path yielded and finishes the cycle: on success it clears
//! the counter and requests a forced reboot; on any refusal or failure it
//! leaves the store untouched and reports a descriptive error.

use vstd::prelude::*;

use crate::handler::{unset_boot_counter, BootEnv, CmdStatus, EnvOp, HandlerError};
use crate::health::{push_env_ops, Action};

verus! {

/// Why a rollback invocation ended without a completed rollback.
#[derive(Clone, Copy, Debug, PartialEq, Eq, Structural)]
pub enum RollbackError {
    /// The rollback was not initiated or did not complete; the payload says
    /// why. The boot counter is left untouched in every such case.
    NotInitiated(HandlerError),
}

impl RollbackError {
    /// Human-readable description: names the underlying refusal rather
    /// than failing silently.
    pub fn message(&self) -> (r: String)
        ensures
            r@ == "Rollback not initiated as "@ + self->0.message_spec(),
    {
        let RollbackError::NotInitiated(inner) = self;
        String::from_str("Rollback not initiated as ").concat(inner.message().as_str())
    }
}

/// Interprets the rollback primitive's exit: only exit code 0 counts as a
/// completed rollback; any other exit or a signal is an error carrying the
/// status.
pub fn rollback_command_result(status: CmdStatus) -> (r: Result<(), HandlerError>)
    ensures
        r is Ok <==> status.is_success(),
        !status.is_success() ==> r == Err::<(), HandlerError>(HandlerError::RollbackFailed(
            status,
        )),
{
    match status {
        CmdStatus::Exited(code) => {
            if code == 0 {
                Ok(())
            } else {
                Err(HandlerError::RollbackFailed(status))
            }
        },
        CmdStatus::Signaled => Err(HandlerError::RollbackFailed(status)),
    }
}

/// Finishes a rollback attempt, given what the eligibility-checked
/// rollback path yielded: `Ok` when the primitive ran and succeeded,
/// `Err` when eligibility was denied or the primitive failed.
///
/// On success the retry cycle is over: the counter is cleared and a forced
/// reboot into the restored deployment is requested. On any error nothing
/// is changed — the counter keeps its value, no store write and no reboot
/// is requested — and the error is wrapped with its reason; repeated
/// failures require operator intervention, never an automatic retry.
pub fn trigger_rollback(env: &mut BootEnv, rollback: Result<(), HandlerError>) -> (r: Result<
    Vec<Action>,
    RollbackError,
>)
    ensures
        rollback is Ok ==> {
            &&& final(env).boot_counter is None
            &&& final(env).boot_success == old(env).boot_success
            &&& r is Ok
            &&& r->Ok_0@ == seq![Action::Env(EnvOp::UnsetCounter), Action::Reboot]
        },
        rollback is Err ==> {
            &&& *final(env) == *old(env)
            &&& r == Err::<Vec<Action>, RollbackError>(RollbackError::NotInitiated(
                rollback->Err_0,
            ))
        },
{
    match rollback {
        Ok(()) => {
            let ops = unset_boot_counter(env);
            let mut actions: Vec<Action> = Vec::new();
            push_env_ops(&mut actions, &ops);
            actions.push(Action::Reboot);
            proof {
                assert(actions@ =~= seq![Action::Env(EnvOp::UnsetCounter), Action::Reboot]);
            }
            Ok(actions)
        },
        Err(e) => Err(RollbackError::NotInitiated(e)),
    }
}

} // verus!
