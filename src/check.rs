//! The decision engine: one cycle of probe, resolve, compare and maybe dispatch.
//!
//! The prober, the identity resolver and the action dispatcher are handed in as
//! functions; the engine decides which of them run and what the cycle's outcome is.

use vstd::prelude::*;
use crate::actions::{configured_action, parse_action, Action};
use crate::config::{EffectiveConfig, EXIT_CONNECTIVITY_DNS, EXIT_CONNECTIVITY_FAILURE, EXIT_ISP_FAILURE};
use crate::networking::NetworkingError;
use crate::providers::{ChainError, VpnIdentity};
use crate::text::same_text;

verus! {

/// How a cycle ended.
#[derive(Debug, Clone, Copy, PartialEq, Eq, Structural)]
pub enum DecisionOutcome {
    /// The network is down (or its probe failed): nothing else was done.
    NoActionNetworkDown,
    /// No provider resolved the identity.
    NoActionIdentityUnknown,
    /// The identity differs from the watched one: the protective path is active.
    NoActionIdentityMatchesExpected,
    /// The identity is the watched one: the action was dispatched.
    ActionTriggered,
    /// As above, in dry-run mode.
    ActionTriggeredDryRun,
}

/// A failure of the cycle, handed back for the caller's own policy.
#[derive(Debug, Clone, PartialEq, Eq)]
pub enum CycleError {
    Connectivity(NetworkingError),
    Identity(ChainError),
    Action(String),
}

/// What one cycle did.
#[derive(Debug, Clone, PartialEq, Eq)]
pub struct CheckReport {
    pub outcome: DecisionOutcome,
    /// The resolved identity, when resolution ran and succeeded.
    pub isp: Option<String>,
    pub error: Option<CycleError>,
}

/// The outcome of a cycle whose probe gave `probe` and whose resolution, if it
/// ran, gave `identity`.
pub open spec fn outcome_for(
    probe: Result<bool, NetworkingError>,
    identity: Option<Result<VpnIdentity, ChainError>>,
    watched: Seq<char>,
    dry_run: bool,
) -> DecisionOutcome {
    if probe != Ok::<bool, NetworkingError>(true) {
        DecisionOutcome::NoActionNetworkDown
    } else {
        match identity {
            Some(Ok(id)) => if id.isp@ == watched {
                if dry_run { DecisionOutcome::ActionTriggeredDryRun } else { DecisionOutcome::ActionTriggered }
            } else {
                DecisionOutcome::NoActionIdentityMatchesExpected
            },
            _ => DecisionOutcome::NoActionIdentityUnknown,
        }
    }
}

pub open spec fn triggers_action(o: DecisionOutcome) -> bool {
    o == DecisionOutcome::ActionTriggered || o == DecisionOutcome::ActionTriggeredDryRun
}

/// Decides a cycle from what its probe and its resolution gave.
pub fn decide_outcome(
    probe: &Result<bool, NetworkingError>,
    identity: &Option<Result<VpnIdentity, ChainError>>,
    watched: &str,
    dry_run: bool,
) -> (r: DecisionOutcome)
    ensures
        r == outcome_for(*probe, *identity, watched@, dry_run),
{
    match probe {
        Ok(true) => {},
        _ => {
            return DecisionOutcome::NoActionNetworkDown;
        },
    }
    match identity {
        Some(Ok(id)) => if same_text(id.isp.as_str(), watched) {
            if dry_run { DecisionOutcome::ActionTriggeredDryRun } else { DecisionOutcome::ActionTriggered }
        } else {
            DecisionOutcome::NoActionIdentityMatchesExpected
        },
        _ => DecisionOutcome::NoActionIdentityUnknown,
    }
}

/// The report of a cycle that ran its resolution and got `identity`, before
/// any dispatch.
pub open spec fn resolved_report(identity: Result<VpnIdentity, ChainError>, r: CheckReport) -> bool {
    match identity {
        Ok(id) => r.isp == Some(id.isp),
        Err(e) => r.isp is None && r.error == Some(CycleError::Identity(e)),
    }
}

/// Runs one cycle. `probe_fn` probes reachability with the configuration,
/// `get_isp_fn` resolves the identity, `run_action_fn` dispatches an action.
/// Resolution runs only when the probe says the network is up; dispatch only
/// when the identity is the watched one, once, with the configured action and
/// dry-run flag. Failures are reported, never fatal.
pub fn perform_check<FProbe, FGet, FRun>(
    eff: &EffectiveConfig,
    probe_fn: FProbe,
    get_isp_fn: FGet,
    run_action_fn: FRun,
) -> (r: CheckReport)
    where
        FProbe: Fn(&EffectiveConfig) -> Result<bool, NetworkingError>,
        FGet: Fn() -> Result<VpnIdentity, ChainError>,
        FRun: Fn(&Action, bool) -> Result<(), String>,
    requires
        forall|e: &EffectiveConfig| #[trigger] probe_fn.requires((e,)),
        get_isp_fn.requires(()),
        forall|a: &Action, d: bool| #[trigger] run_action_fn.requires((a, d)),
    ensures
        exists|p: Result<bool, NetworkingError>| {
            &&& #[trigger] probe_fn.ensures((eff,), p)
            &&& if p == Ok::<bool, NetworkingError>(true) {
                exists|id: Result<VpnIdentity, ChainError>| {
                    &&& #[trigger] get_isp_fn.ensures((), id)
                    &&& r.outcome == outcome_for(p, Some(id), eff.isp_to_check@, eff.dry_run)
                    &&& resolved_report(id, r)
                    &&& triggers_action(r.outcome) ==> exists|a: Action, d: Result<(), String>| {
                        &&& configured_action(eff.action_type@, eff.action_arg@, a)
                        &&& #[trigger] run_action_fn.ensures((&a, eff.dry_run), d)
                        &&& r.error == match d {
                            Ok(()) => None,
                            Err(m) => Some(CycleError::Action(m)),
                        }
                    }
                    &&& !triggers_action(r.outcome) && id is Ok ==> r.error is None
                }
            } else {
                &&& r.outcome == DecisionOutcome::NoActionNetworkDown
                &&& r.isp is None
                &&& r.error == match p {
                    Err(e) => Some(CycleError::Connectivity(e)),
                    Ok(_) => None,
                }
            }
        },
{
    let probe = probe_fn(eff);
    match probe {
        Ok(true) => {},
        Ok(false) => {
            return CheckReport { outcome: DecisionOutcome::NoActionNetworkDown, isp: None, error: None };
        },
        Err(e) => {
            return CheckReport {
                outcome: DecisionOutcome::NoActionNetworkDown,
                isp: None,
                error: Some(CycleError::Connectivity(e)),
            };
        },
    }
    let resolved = Some(get_isp_fn());
    let outcome = decide_outcome(&probe, &resolved, eff.isp_to_check.as_str(), eff.dry_run);
    match resolved {
        Some(Err(e)) => CheckReport { outcome, isp: None, error: Some(CycleError::Identity(e)) },
        Some(Ok(id)) => {
            if outcome == DecisionOutcome::ActionTriggered || outcome == DecisionOutcome::ActionTriggeredDryRun {
                let action = parse_action(eff.action_type.as_str(), eff.action_arg.as_str());
                let done = run_action_fn(&action, eff.dry_run);
                let error = match done {
                    Ok(()) => None,
                    Err(m) => Some(CycleError::Action(m)),
                };
                CheckReport { outcome, isp: Some(id.isp), error }
            } else {
                CheckReport { outcome, isp: Some(id.isp), error: None }
            }
        },
        None => CheckReport { outcome, isp: None, error: None },
    }
}

/// The exit code that a caller which treats failures as fatal uses for a cycle:
/// name resolution, then an unreachable network, then an unresolved identity;
/// 0 when the cycle got as far as comparing identities.
pub open spec fn exit_code_for(r: CheckReport) -> i32 {
    match r.error {
        Some(CycleError::Connectivity(NetworkingError::DnsResolve(_))) => EXIT_CONNECTIVITY_DNS,
        Some(CycleError::Identity(_)) => EXIT_ISP_FAILURE,
        _ => if r.outcome == DecisionOutcome::NoActionNetworkDown { EXIT_CONNECTIVITY_FAILURE } else { 0 },
    }
}

/// The exit code for `report` when failures are fatal.
pub fn exit_code(report: &CheckReport) -> (r: i32)
    ensures
        r == exit_code_for(*report),
{
    match &report.error {
        Some(CycleError::Connectivity(NetworkingError::DnsResolve(_))) => EXIT_CONNECTIVITY_DNS,
        Some(CycleError::Identity(_)) => EXIT_ISP_FAILURE,
        _ => if report.outcome == DecisionOutcome::NoActionNetworkDown { EXIT_CONNECTIVITY_FAILURE } else { 0 },
    }
}

} // verus!
