//! Health-check script evaluation.
//!
//! Check scripts are discovered under an ordered list of installation roots
//! (a vendor root scanned before a site-override root). The discovery and
//! execution — globbing the tier directory, running each script with a
//! shell, capturing its exit status and standard error — happen outside the
//! crate; [`run_diagnostics`] is handed the decoded outcomes and computes
//! the verdict. Presence of the required-check directory is unioned across
//! roots: a site root without one does not override a vendor root that has
//! one.

use vstd::prelude::*;

verus! {

/// How one executed check script ended. A script that could not be launched
/// at all counts as failed for the fatal tier, so it is decoded to `Failed`
/// too; the payload is the captured standard error text, kept for logging.
#[derive(Clone, Debug, PartialEq, Eq)]
pub enum ScriptOutcome {
    Passed,
    Failed(String),
}

/// What one installation root contributed: the outcomes of its required
/// scripts (`None` when the root has no required-check directory at all),
/// and of its wanted scripts, which are best-effort.
#[derive(Clone, Debug, PartialEq, Eq)]
pub struct RootChecks {
    pub required: Option<Vec<ScriptOutcome>>,
    pub wanted: Vec<ScriptOutcome>,
}

/// The two ways a diagnostics run can fail.
#[derive(Clone, Copy, Debug, PartialEq, Eq, Structural)]
pub enum DiagError {
    /// No root has a required-check directory: a configuration error, not a
    /// health failure — there is nothing to re-run differently.
    RequiredNotFound,
    /// At least one required script failed.
    HealthCheckFailed,
}

impl DiagError {
    pub open spec fn message_spec(&self) -> Seq<char> {
        match self {
            DiagError::RequiredNotFound => "required.d not found"@,
            DiagError::HealthCheckFailed => "health-check failed!"@,
        }
    }

    /// Human-readable description of the failure.
    pub fn message(&self) -> (r: String)
        ensures
            r@ == self.message_spec(),
    {
        match self {
            DiagError::RequiredNotFound => String::from_str("required.d not found"),
            DiagError::HealthCheckFailed => String::from_str("health-check failed!"),
        }
    }
}

/// Some root has a required-check directory.
pub open spec fn required_present(roots: Seq<RootChecks>) -> bool {
    exists|i: int| 0 <= i < roots.len() && (#[trigger] roots[i].required) is Some
}

/// Some required script under some root failed.
pub open spec fn required_failure(roots: Seq<RootChecks>) -> bool {
    exists|i: int, j: int|
        0 <= i < roots.len() && (#[trigger] roots[i].required) is Some && 0 <= j
            < roots[i].required->0@.len() && !((#[trigger] roots[i].required->0@[j])
            is Passed)
}

/// The verdict of a diagnostics run. Wanted outcomes never appear here:
/// wanted failures are logged only and cannot flip the verdict.
pub open spec fn diagnostics_verdict(roots: Seq<RootChecks>) -> Result<(), DiagError> {
    if !required_present(roots) {
        Err(DiagError::RequiredNotFound)
    } else if required_failure(roots) {
        Err(DiagError::HealthCheckFailed)
    } else {
        Ok(())
    }
}

/// Whether any outcome in one tier directory is a failure.
fn tier_has_failure(scripts: &Vec<ScriptOutcome>) -> (b: bool)
    ensures
        b <==> exists|j: int|
            0 <= j < scripts@.len() && !((#[trigger] scripts@[j]) is Passed),
{
    let mut j: usize = 0;
    while j < scripts.len()
        invariant
            j <= scripts@.len(),
            forall|k: int| 0 <= k < j ==> (#[trigger] scripts@[k]) is Passed,
        decreases scripts@.len() - j,
    {
        match scripts[j] {
            ScriptOutcome::Passed => {},
            ScriptOutcome::Failed(_) => {
                return true;
            },
        }
        j = j + 1;
    }
    false
}

/// Aggregates the required tier across all roots into the health verdict.
///
/// The configuration error (no required-check directory anywhere) takes
/// precedence over script failures, and the wanted outcomes are ignored:
/// they were already run and logged by the caller, and their failures are
/// warnings by design.
pub fn run_diagnostics(roots: &Vec<RootChecks>) -> (r: Result<(), DiagError>)
    ensures
        r == diagnostics_verdict(roots@),
{
    let mut path_exists: bool = false;
    let mut script_failure: bool = false;
    let mut i: usize = 0;
    while i < roots.len()
        invariant
            i <= roots@.len(),
            path_exists <==> exists|k: int|
                0 <= k < i && (#[trigger] roots@[k].required) is Some,
            script_failure <==> exists|k: int, j: int|
                0 <= k < i && (#[trigger] roots@[k].required) is Some && 0 <= j
                    < roots@[k].required->0@.len() && !((
                #[trigger] roots@[k].required->0@[j]) is Passed),
        decreases roots@.len() - i,
    {
        match &roots[i].required {
            Some(scripts) => {
                path_exists = true;
                if tier_has_failure(scripts) {
                    script_failure = true;
                }
            },
            None => {},
        }
        i = i + 1;
    }
    if !path_exists {
        Err(DiagError::RequiredNotFound)
    } else if script_failure {
        Err(DiagError::HealthCheckFailed)
    } else {
        Ok(())
    }
}

/// No required-check directory under any root yields the configuration
/// error — never a pass, and never the health-failure error.
pub proof fn lemma_missing_required_is_config_error(roots: Seq<RootChecks>)
    requires
        !required_present(roots),
    ensures
        diagnostics_verdict(roots) == Err::<(), DiagError>(DiagError::RequiredNotFound),
{
}

/// When every required script passes (and at least one root has a
/// required-check directory), the diagnostics pass, whatever the wanted
/// outcomes are.
pub proof fn lemma_wanted_failures_never_flip_verdict(roots: Seq<RootChecks>)
    requires
        required_present(roots),
        forall|i: int, j: int|
            0 <= i < roots.len() && (#[trigger] roots[i].required) is Some && 0 <= j
                < roots[i].required->0@.len() ==> (#[trigger] roots[i].required->0@[j])
                is Passed,
    ensures
        diagnostics_verdict(roots) is Ok,
{
}

/// The verdict depends on the required tier alone: two root lists with the
/// same required outcomes get the same verdict, whatever their wanted
/// outcomes.
pub proof fn lemma_verdict_independent_of_wanted(a: Seq<RootChecks>, b: Seq<RootChecks>)
    requires
        a.len() == b.len(),
        forall|i: int| 0 <= i < a.len() ==> (#[trigger] a[i].required) == b[i].required,
    ensures
        diagnostics_verdict(a) == diagnostics_verdict(b),
{
    assert forall|i: int| 0 <= i < b.len() implies (#[trigger] b[i].required) == a[i].required by {
        assert(a[i].required == b[i].required);
    }
    if required_present(a) {
        let i = choose|i: int| 0 <= i < a.len() && (#[trigger] a[i].required) is Some;
        assert(b[i].required is Some);
    }
    if required_present(b) {
        let i = choose|i: int| 0 <= i < b.len() && (#[trigger] b[i].required) is Some;
        assert(a[i].required is Some);
    }
    if required_failure(a) {
        let (i, j) = choose|i: int, j: int|
            0 <= i < a.len() && (#[trigger] a[i].required) is Some && 0 <= j
                < a[i].required->0@.len() && !((#[trigger] a[i].required->0@[j]) is Passed);
        assert(b[i].required is Some && !(b[i].required->0@[j] is Passed));
    }
    if required_failure(b) {
        let (i, j) = choose|i: int, j: int|
            0 <= i < b.len() && (#[trigger] b[i].required) is Some && 0 <= j
                < b[i].required->0@.len() && !((#[trigger] b[i].required->0@[j]) is Passed);
        assert(a[i].required is Some && !(a[i].required->0@[j] is Passed));
    }
}

/// At least one required script failing (with the directory present) yields
/// the health-failure error.
pub proof fn lemma_required_failure_fails(roots: Seq<RootChecks>)
    requires
        required_present(roots),
        required_failure(roots),
    ensures
        diagnostics_verdict(roots) == Err::<(), DiagError>(DiagError::HealthCheckFailed),
{
}

} // verus!
