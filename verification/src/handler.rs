//! Boot-counter store model and the per-variable decision functions.
//!
//! The bootloader keeps two variables in its non-volatile environment: an
//! integer `boot_counter` (remaining boot attempts before rollback) and a
//! `boot_success` flag. This process never decrements the counter — the
//! bootloader does that on every boot attempt — it only establishes the
//! counter once per failure cycle, clears it on success, and reads it to
//! decide policy. [`BootEnv`] models the two variables; every function here
//! says exactly how it changes that model and which writes ([`EnvOp`]) the
//! caller must mirror into the real store.

use vstd::prelude::*;

use crate::scan::{
    contains_in_range, contains_pat, find_newline, first_nl, last_eq,
    lemma_first_nl_characterizes, lemma_last_eq_characterizes, parse_i32_range, rfind_eq,
    spec_parse_i32,
};

verus! {

/// In-memory model of the two persistent bootloader environment variables.
///
/// `None` means the variable is absent from the store (or was unreadable,
/// which callers must treat identically).
#[derive(Clone, Copy, Debug, PartialEq, Eq)]
pub struct BootEnv {
    pub boot_counter: Option<i32>,
    pub boot_success: Option<bool>,
}

/// One write against the real bootloader environment store, to be performed
/// by the unverified shell in the order returned.
#[derive(Clone, Copy, Debug, PartialEq, Eq, Structural)]
pub enum EnvOp {
    /// `boot_counter=<n>`
    SetCounter(i32),
    /// remove `boot_counter`
    UnsetCounter,
    /// `boot_success=1` or `boot_success=0`
    SetSuccess(bool),
}

/// Exit of an external command: a normal exit with its code, or death by
/// signal. Success is exit code 0.
#[derive(Clone, Copy, Debug, PartialEq, Eq, Structural)]
pub enum CmdStatus {
    Exited(i32),
    Signaled,
}

impl CmdStatus {
    pub open spec fn is_success(&self) -> bool {
        *self == CmdStatus::Exited(0)
    }
}

/// Why a reboot or rollback request was refused.
#[derive(Clone, Copy, Debug, PartialEq, Eq, Structural)]
pub enum HandlerError {
    /// The retry budget is exhausted; rebooting again would loop forever.
    CountdownEnded,
    /// No retry cycle is in progress, so a counter-conditioned reboot is denied.
    CounterNotSet,
    /// The counter is absent or still above the exhaustion threshold.
    RollbackNotEligible,
    /// The rollback primitive ran and exited unsuccessfully.
    RollbackFailed(CmdStatus),
}

impl HandlerError {
    pub open spec fn message_spec(&self) -> Seq<char> {
        match self {
            HandlerError::CountdownEnded => "countdown ended, check greenboot-rollback status"@,
            HandlerError::CounterNotSet => "boot_counter is not set"@,
            HandlerError::RollbackNotEligible => "boot_counter is either unset or not equal to 0"@,
            HandlerError::RollbackFailed(_) => "rollback command exited unsuccessfully"@,
        }
    }

    /// Human-readable description of the refusal.
    pub fn message(&self) -> (r: String)
        ensures
            r@ == self.message_spec(),
    {
        match self {
            HandlerError::CountdownEnded => String::from_str(
                "countdown ended, check greenboot-rollback status",
            ),
            HandlerError::CounterNotSet => String::from_str("boot_counter is not set"),
            HandlerError::RollbackNotEligible => String::from_str(
                "boot_counter is either unset or not equal to 0",
            ),
            HandlerError::RollbackFailed(_) => String::from_str(
                "rollback command exited unsuccessfully",
            ),
        }
    }
}

/// The counter after an idempotent establishment: an in-progress retry
/// budget is never overwritten.
pub open spec fn counter_after_set(before: Option<i32>, n: i32) -> Option<i32> {
    if before is Some {
        before
    } else {
        Some(n)
    }
}

/// An unforced reboot is allowed only while retries remain.
pub open spec fn reboot_allowed(env: BootEnv, force: bool) -> bool {
    force || (env.boot_counter is Some && env.boot_counter->0 > 0)
}

/// Rollback is allowed only once the retry budget has reached the
/// exhaustion threshold.
pub open spec fn rollback_eligible(env: BootEnv) -> bool {
    env.boot_counter is Some && env.boot_counter->0 <= 0
}

/// Round trip of the counter store: once cleared, establishing `n` makes
/// the counter read back exactly `n`, and a second establishment with any
/// other value `m` leaves it at `n` — establishment never overwrites.
pub proof fn lemma_counter_round_trip(n: i32, m: i32)
    ensures
        counter_after_set(Option::<i32>::None, n) == Some(n),
        counter_after_set(counter_after_set(Option::<i32>::None, n), m) == Some(n),
{
}

/// A rollback is never eligible while the counter is absent or still above
/// the exhaustion threshold: [`handle_rollback`] then denies it, and the
/// rollback primitive — which may only run once it allows — is never
/// invoked there.
pub proof fn lemma_rollback_never_eligible(env: BootEnv)
    requires
        env.boot_counter is None || env.boot_counter->0 > 0,
    ensures
        !rollback_eligible(env),
{
}

/// Current counter value; `None` means no retry cycle is in progress.
pub fn get_boot_counter(env: &BootEnv) -> (r: Option<i32>)
    ensures
        r == env.boot_counter,
{
    env.boot_counter
}

/// Establishes the boot counter at `reboot_count` if none is present; a
/// counter already in the store is left untouched (idempotent, so being
/// invoked twice within one boot cannot corrupt the retry budget).
pub fn set_boot_counter(env: &mut BootEnv, reboot_count: i32) -> (ops: Vec<EnvOp>)
    ensures
        final(env).boot_counter == counter_after_set(old(env).boot_counter, reboot_count),
        final(env).boot_success == old(env).boot_success,
        old(env).boot_counter is Some ==> ops@ == Seq::<EnvOp>::empty(),
        old(env).boot_counter is None ==> ops@ == seq![EnvOp::SetCounter(reboot_count)],
{
    match env.boot_counter {
        Some(_) => Vec::new(),
        None => {
            env.boot_counter = Some(reboot_count);
            let mut ops: Vec<EnvOp> = Vec::new();
            ops.push(EnvOp::SetCounter(reboot_count));
            ops
        },
    }
}

/// Removes the counter, ending the retry cycle.
pub fn unset_boot_counter(env: &mut BootEnv) -> (ops: Vec<EnvOp>)
    ensures
        final(env).boot_counter is None,
        final(env).boot_success == old(env).boot_success,
        ops@ == seq![EnvOp::UnsetCounter],
{
    env.boot_counter = None;
    let mut ops: Vec<EnvOp> = Vec::new();
    ops.push(EnvOp::UnsetCounter);
    ops
}

/// Records the health-check verdict. Success also clears the counter (the
/// retry cycle is over); failure only sets the flag — establishing the
/// counter is a separate, explicit step.
pub fn handle_boot_success(env: &mut BootEnv, success: bool) -> (ops: Vec<EnvOp>)
    ensures
        final(env).boot_success == Some(success),
        success ==> final(env).boot_counter is None,
        success ==> ops@ == seq![EnvOp::SetSuccess(true), EnvOp::UnsetCounter],
        !success ==> final(env).boot_counter == old(env).boot_counter,
        !success ==> ops@ == seq![EnvOp::SetSuccess(false)],
{
    let mut ops: Vec<EnvOp> = Vec::new();
    if success {
        env.boot_success = Some(true);
        env.boot_counter = None;
        ops.push(EnvOp::SetSuccess(true));
        ops.push(EnvOp::UnsetCounter);
    } else {
        env.boot_success = Some(false);
        ops.push(EnvOp::SetSuccess(false));
    }
    ops
}

/// Decides whether the caller may reboot now. Unforced reboots depend on
/// the counter: absent means no retry cycle is in progress, and a
/// non-positive value means the countdown has ended and rollback — not
/// another reboot — is due. `Ok` means: issue the reboot command.
pub fn handle_reboot(env: &BootEnv, force: bool) -> (r: Result<(), HandlerError>)
    ensures
        r is Ok <==> reboot_allowed(*env, force),
        !reboot_allowed(*env, force) && env.boot_counter is Some ==> r == Err::<(),
        HandlerError>(HandlerError::CountdownEnded),
        !reboot_allowed(*env, force) && env.boot_counter is None ==> r == Err::<(),
        HandlerError>(HandlerError::CounterNotSet),
{
    if !force {
        match env.boot_counter {
            Some(t) => {
                if t <= 0 {
                    return Err(HandlerError::CountdownEnded);
                }
            },
            None => {
                return Err(HandlerError::CounterNotSet);
            },
        }
    }
    Ok(())
}

/// Decides whether the rollback primitive may be invoked. `Ok` means: the
/// retry budget is exhausted, run the primitive and interpret its status.
/// An `Err` means the primitive must not run at all.
pub fn handle_rollback(env: &BootEnv) -> (r: Result<(), HandlerError>)
    ensures
        r is Ok <==> rollback_eligible(*env),
        !rollback_eligible(*env) ==> r == Err::<(), HandlerError>(
            HandlerError::RollbackNotEligible,
        ),
{
    match env.boot_counter {
        Some(t) => {
            if t <= 0 {
                Ok(())
            } else {
                Err(HandlerError::RollbackNotEligible)
            }
        },
        None => Err(HandlerError::RollbackNotEligible),
    }
}

/// The key naming the counter in the bootloader's variable listing.
pub open spec fn boot_counter_key() -> Seq<char> {
    "boot_counter"@
}

/// The counter value a single listing line denotes: the text after the
/// line's last `=` (the whole line when it has none), parsed as the
/// counter's integer type.
pub open spec fn line_counter_value(line: Seq<char>) -> Option<int> {
    match last_eq(line) {
        Some(i) => spec_parse_i32(line.subrange(i + 1, line.len() as int)),
        None => spec_parse_i32(line),
    }
}

/// The counter the bootloader's variable listing denotes: the value of the
/// first line mentioning the counter key, if any line does and its value
/// parses.
pub open spec fn spec_parse_boot_counter(s: Seq<char>) -> Option<int>
    decreases s.len(),
{
    match first_nl(s) {
        Some(i) => if 0 <= i < s.len() {
            let line = s.subrange(0, i);
            if contains_pat(line, boot_counter_key()) {
                line_counter_value(line)
            } else {
                spec_parse_boot_counter(s.subrange(i + 1, s.len() as int))
            }
        } else {
            None
        },
        None => if contains_pat(s, boot_counter_key()) {
            line_counter_value(s)
        } else {
            None
        },
    }
}

/// Parses the value of the first `=`-assignment on a listing line.
fn parse_counter_line(s: &str, lo: usize, hi: usize) -> (r: Option<i32>)
    requires
        lo <= hi <= s@.len(),
    ensures
        r is Some <==> line_counter_value(s@.subrange(lo as int, hi as int)) is Some,
        r is Some ==> line_counter_value(s@.subrange(lo as int, hi as int)) == Some(
            r->0 as int,
        ),
{
    let ghost line = s@.subrange(lo as int, hi as int);
    proof {
        lemma_last_eq_characterizes(line);
        assert(forall|k: int| 0 <= k < line.len() ==> (#[trigger] line[k]) == s@[lo + k]);
    }
    let eq = rfind_eq(s, lo, hi);
    match eq {
        Some(i) => {
            proof {
                match last_eq(line) {
                    Some(i0) => {
                        if lo + i0 < i {
                            assert(line[i - lo] == '=');
                            assert(false);
                        }
                        if lo + i0 > i {
                            assert(s@[lo + i0] == '=');
                            assert(false);
                        }
                    },
                    None => {
                        assert(line[i - lo] == '=');
                        assert(false);
                    },
                }
                assert(line.subrange(i - lo + 1, line.len() as int) =~= s@.subrange(
                    i + 1,
                    hi as int,
                ));
            }
            parse_i32_range(s, i + 1, hi)
        },
        None => {
            proof {
                match last_eq(line) {
                    Some(i0) => {
                        assert(s@[lo + i0] == '=');
                        assert(false);
                    },
                    None => {},
                }
            }
            parse_i32_range(s, lo, hi)
        },
    }
}

/// Decodes the counter from the bootloader's variable listing: the first
/// line mentioning the counter key, the text after its last `=`, parsed as
/// a decimal integer. Anything else — no such line, an unparsable value —
/// is `None`, which callers must treat identically to "unset", biasing
/// recovery toward the safe forced reboot rather than an unconditional
/// rollback.
pub fn parse_boot_counter(s: &str) -> (r: Option<i32>)
    ensures
        r is Some <==> spec_parse_boot_counter(s@) is Some,
        r is Some ==> spec_parse_boot_counter(s@) == Some(r->0 as int),
    decreases s@.len(),
{
    let n = s.unicode_len();
    let nl = find_newline(s, 0);
    proof {
        lemma_first_nl_characterizes(s@);
    }
    match nl {
        Some(i) => {
            proof {
                match first_nl(s@) {
                    Some(i0) => {
                        if i0 < i as int {
                            assert(s@[i0] != '\n');
                            assert(false);
                        }
                        if i0 > i as int {
                            assert(s@[i as int] != '\n');
                            assert(false);
                        }
                    },
                    None => {
                        assert(s@[i as int] != '\n');
                        assert(false);
                    },
                }
            }
            if contains_in_range(s, 0, i, "boot_counter") {
                parse_counter_line(s, 0, i)
            } else {
                let rest = s.substring_char(i + 1, n);
                parse_boot_counter(rest)
            }
        },
        None => {
            proof {
                match first_nl(s@) {
                    Some(i0) => {
                        assert(s@[i0] == '\n');
                        assert(false);
                    },
                    None => {},
                }
                assert(s@.subrange(0, n as int) =~= s@);
            }
            if contains_in_range(s, 0, n, "boot_counter") {
                parse_counter_line(s, 0, n)
            } else {
                None
            }
        },
    }
}

/// Builds the one-line status message that overwrites the message-of-the-day
/// surface after each phase transition.
pub fn handle_motd(state: &str) -> (r: String)
    ensures
        r@ == "Greenboot "@ + state@ + "."@,
{
    String::from_str("Greenboot ").concat(state).concat(".")
}

} // verus!
