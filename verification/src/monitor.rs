//! Service liveness classification.
//!
//! A fixed set of named system services is inspected through the service
//! manager: does the unit exist, and is it enabled? Those queries happen
//! outside the crate; each service arrives here as a [`ServiceProbe`] of
//! decoded answers. A missing or disabled service is a critical error —
//! the device needs manual intervention, and automation must not
//! reboot-loop it — while services that are enabled but whose runtime
//! liveness could not be verified yield a distinct, auto-recoverable error
//! meant to merge into the regular retry procedure. Failed queries are
//! logged by the caller and classify as nothing here.

use vstd::prelude::*;

use crate::scan::{dec_rep, format_u64};

verus! {

/// What the service manager said about one monitored service.
#[derive(Clone, Debug, PartialEq, Eq)]
pub struct ServiceProbe {
    pub name: String,
    /// Whether the unit exists; `None` when the query itself failed.
    pub exists: Option<bool>,
    /// Whether the unit's state is the enabled one; `None` when the unit
    /// was not queried (it does not exist) or the query failed.
    pub enabled: Option<bool>,
}

/// The classification of one monitored service.
#[derive(Clone, Copy, Debug, PartialEq, Eq, Structural)]
pub enum ServiceState {
    /// The unit does not exist on the system.
    NotFound,
    /// The unit exists but is not enabled.
    Disabled,
    /// The unit is enabled; runtime liveness is not probed, so "enabled"
    /// is the best available signal.
    EnabledUnverified,
}

/// How the service set failed as a whole.
#[derive(Clone, Debug, PartialEq, Eq)]
pub enum MonitorError {
    /// Missing or disabled services, by name, discovery order: manual
    /// intervention is needed and automated recovery must stop.
    Critical(Vec<String>),
    /// Every service exists and is enabled, but actual liveness is
    /// unverified: recoverable through the regular retry procedure.
    AutoRecoverable,
}

impl MonitorError {
    /// What the monitor reports: the number of bad services on a critical
    /// failure, the recoverable marker otherwise.
    pub fn message(&self) -> (r: String)
        ensures
            match self {
                MonitorError::Critical(bad) => r@ == dec_rep(bad@.len() as nat),
                MonitorError::AutoRecoverable => r@ == "-1"@,
            },
    {
        match self {
            MonitorError::Critical(bad) => format_u64(bad.len() as u64),
            MonitorError::AutoRecoverable => String::from_str("-1"),
        }
    }
}

/// Classification of a single probe. Existence is decided first: a unit
/// that does not exist is `NotFound` and its enablement is never
/// considered. A probe whose queries failed classifies as nothing.
pub open spec fn classify(p: ServiceProbe) -> Option<ServiceState> {
    if p.exists == Some(false) {
        Some(ServiceState::NotFound)
    } else if p.enabled == Some(true) {
        Some(ServiceState::EnabledUnverified)
    } else if p.enabled == Some(false) {
        Some(ServiceState::Disabled)
    } else {
        None
    }
}

/// The names of the probes classified as `st`, in order.
pub open spec fn names_with(ps: Seq<ServiceProbe>, st: ServiceState) -> Seq<Seq<char>>
    decreases ps.len(),
{
    if ps.len() == 0 {
        Seq::empty()
    } else {
        let rest = names_with(ps.drop_last(), st);
        if classify(ps.last()) == Some(st) {
            rest.push(ps.last().name@)
        } else {
            rest
        }
    }
}

/// The names reported on a critical failure: every missing service, then
/// every disabled one, each set in discovery order.
pub open spec fn bad_names(ps: Seq<ServiceProbe>) -> Seq<Seq<char>> {
    names_with(ps, ServiceState::NotFound) + names_with(ps, ServiceState::Disabled)
}

/// Some service classified as enabled-but-unverified.
pub open spec fn any_enabled(ps: Seq<ServiceProbe>) -> bool {
    exists|i: int|
        0 <= i < ps.len() && classify(#[trigger] ps[i]) == Some(ServiceState::EnabledUnverified)
}

pub open spec fn names_of(v: Seq<String>) -> Seq<Seq<char>> {
    v.map_values(|n: String| n@)
}

/// Classifies the whole monitored set.
///
/// Any missing or disabled service makes the result critical, carrying the
/// bad names; otherwise any enabled-but-unverified service makes it
/// auto-recoverable; a set with neither — including one whose queries all
/// failed — passes.
#[verifier::loop_isolation(false)]
pub fn poc_service_monitor(probes: &Vec<ServiceProbe>) -> (r: Result<(), MonitorError>)
    ensures
        r is Ok <==> (bad_names(probes@).len() == 0 && !any_enabled(probes@)),
        bad_names(probes@).len() > 0 ==> (r matches Err(MonitorError::Critical(bad))
            && names_of(bad@) == bad_names(probes@)),
        bad_names(probes@).len() == 0 && any_enabled(probes@) ==> r == Err::<(), MonitorError>(
            MonitorError::AutoRecoverable,
        ),
{
    let ghost all = probes@;
    let mut bad: Vec<String> = Vec::new();
    let mut i: usize = 0;
    while i < probes.len()
        invariant
            i <= all.len(),
            names_of(bad@) == names_with(all.subrange(0, i as int), ServiceState::NotFound),
        decreases all.len() - i,
    {
        let ghost pre = all.subrange(0, i as int);
        match probes[i].exists {
            Some(false) => {
                bad.push(probes[i].name.clone());
            },
            _ => {},
        }
        proof {
            assert(all.subrange(0, i + 1).drop_last() =~= pre);
            assert(all.subrange(0, i + 1).last() == all[i as int]);
            assert(names_of(bad@) =~= names_with(all.subrange(0, i + 1), ServiceState::NotFound));
        }
        i = i + 1;
    }
    proof {
        assert(all.subrange(0, all.len() as int) =~= all);
    }
    let ghost nf = names_with(all, ServiceState::NotFound);
    proof {
        assert(names_of(bad@) =~= nf + names_with(all.subrange(0, 0), ServiceState::Disabled));
    }
    let mut enabled_seen = false;
    let mut j: usize = 0;
    while j < probes.len()
        invariant
            j <= all.len(),
            names_of(bad@) == nf + names_with(all.subrange(0, j as int), ServiceState::Disabled),
            enabled_seen <==> any_enabled(all.subrange(0, j as int)),
        decreases all.len() - j,
    {
        let ghost pre = all.subrange(0, j as int);
        let mut this_enabled = false;
        match probes[j].exists {
            Some(false) => {},
            _ => {
                match probes[j].enabled {
                    Some(true) => {
                        this_enabled = true;
                    },
                    Some(false) => {
                        bad.push(probes[j].name.clone());
                    },
                    None => {},
                }
            },
        }
        if this_enabled {
            enabled_seen = true;
        }
        proof {
            let ext = all.subrange(0, j + 1);
            assert(ext.drop_last() =~= pre);
            assert(ext.last() == all[j as int]);
            if classify(all[j as int]) == Some(ServiceState::Disabled) {
                assert(names_with(ext, ServiceState::Disabled) == names_with(
                    pre,
                    ServiceState::Disabled,
                ).push(all[j as int].name@));
                assert((nf + names_with(pre, ServiceState::Disabled)).push(
                    all[j as int].name@,
                ) =~= nf + names_with(pre, ServiceState::Disabled).push(all[j as int].name@));
                assert(names_of(bad@) =~= (nf + names_with(pre, ServiceState::Disabled)).push(
                    all[j as int].name@,
                ));
            } else {
                assert(names_of(bad@) == nf + names_with(ext, ServiceState::Disabled));
            }
            if this_enabled {
                assert(classify(all[j as int]) == Some(ServiceState::EnabledUnverified));
                assert(classify(ext[j as int]) == Some(ServiceState::EnabledUnverified));
                assert(any_enabled(ext));
            } else {
                assert(classify(all[j as int]) != Some(ServiceState::EnabledUnverified));
                if any_enabled(ext) {
                    let k = choose|k: int|
                        0 <= k < ext.len() && classify(#[trigger] ext[k]) == Some(
                            ServiceState::EnabledUnverified,
                        );
                    assert(k < j ==> ext[k] == pre[k] && any_enabled(pre));
                }
                if any_enabled(pre) {
                    let k = choose|k: int|
                        0 <= k < pre.len() && classify(#[trigger] pre[k]) == Some(
                            ServiceState::EnabledUnverified,
                        );
                    assert(ext[k] == pre[k]);
                    assert(any_enabled(ext));
                }
            }
        }
        j = j + 1;
    }
    proof {
        assert(all.subrange(0, all.len() as int) =~= all);
        assert(names_of(bad@) == bad_names(all));
    }
    if bad.len() > 0 {
        proof {
            assert(bad_names(all).len() > 0);
        }
        Err(MonitorError::Critical(bad))
    } else if enabled_seen {
        proof {
            assert(bad_names(all).len() == 0);
        }
        Err(MonitorError::AutoRecoverable)
    } else {
        Ok(())
    }
}

} // verus!
