use std::cell::RefCell;

use check_vpn::actions::Action;
use check_vpn::check::{exit_code, perform_check, CheckReport, CycleError, DecisionOutcome};
use check_vpn::config::EffectiveConfig;
use check_vpn::ip_api::ProviderError;
use check_vpn::networking::{NetworkingError, DEFAULT_RETRIES, DEFAULT_TIMEOUT_SECS};
use check_vpn::providers::{ChainError, ProviderFailure, VpnIdentity};

fn make_eff(isp_to_check: &str, dry_run: bool) -> EffectiveConfig {
    EffectiveConfig {
        interval: 60,
        isp_to_check: isp_to_check.to_string(),
        action_type: "command".to_string(),
        action_arg: "echo hi".to_string(),
        dry_run,
        connectivity_endpoints: vec!["8.8.8.8".to_string()],
        connectivity_ports: vec![443],
        connectivity_timeout_secs: DEFAULT_TIMEOUT_SECS,
        connectivity_retries: DEFAULT_RETRIES,
        run_once: false,
        exit_on_error: false,
        enable_ip_api: true,
        enable_ifconfig_co: true,
        provider_urls: vec![],
        custom_json_server: None,
        custom_json_key: None,
    }
}

fn online(_e: &EffectiveConfig) -> Result<bool, NetworkingError> {
    Ok(true)
}

fn isp(s: &str) -> Result<VpnIdentity, ChainError> {
    Ok(VpnIdentity { isp: s.to_string() })
}

#[test]
fn scenario_watched_identity_triggers_action_once() {
    let eff = make_eff("Hutchison 3G UK Ltd", false);
    let runs = RefCell::new(Vec::new());
    let r = perform_check(&eff, online, || isp("Hutchison 3G UK Ltd"), |a: &Action, d: bool| {
        runs.borrow_mut().push((a.clone(), d));
        Ok(())
    });
    assert_eq!(r.outcome, DecisionOutcome::ActionTriggered);
    assert_eq!(r.isp.as_deref(), Some("Hutchison 3G UK Ltd"));
    assert_eq!(r.error, None);
    assert_eq!(*runs.borrow(), vec![(Action::Command("echo hi".to_string()), false)]);
}

#[test]
fn scenario_other_identity_means_protected_path_is_active() {
    let eff = make_eff("Hutchison 3G UK Ltd", false);
    let runs = RefCell::new(0);
    let r = perform_check(&eff, online, || isp("Some VPN Provider"), |_a: &Action, _d: bool| {
        *runs.borrow_mut() += 1;
        Ok(())
    });
    assert_eq!(r.outcome, DecisionOutcome::NoActionIdentityMatchesExpected);
    assert_eq!(*runs.borrow(), 0);
}

#[test]
fn scenario_network_down_never_resolves_identity() {
    let eff = make_eff("Hutchison 3G UK Ltd", false);
    let resolved = RefCell::new(0);
    let runs = RefCell::new(0);
    let r = perform_check(
        &eff,
        |_e: &EffectiveConfig| Ok(false),
        || {
            *resolved.borrow_mut() += 1;
            isp("Hutchison 3G UK Ltd")
        },
        |_a: &Action, _d: bool| {
            *runs.borrow_mut() += 1;
            Ok(())
        },
    );
    assert_eq!(r.outcome, DecisionOutcome::NoActionNetworkDown);
    assert_eq!(r.error, None);
    assert_eq!(*resolved.borrow(), 0);
    assert_eq!(*runs.borrow(), 0);
}

#[test]
fn scenario_all_providers_fail_reports_each_failure() {
    let eff = make_eff("Hutchison 3G UK Ltd", false);
    let runs = RefCell::new(0);
    let failures = ChainError::Exhausted(vec![
        ProviderFailure { provider: "ip-api".to_string(), error: ProviderError::ServerError(502) },
        ProviderFailure { provider: "ifconfig.co".to_string(), error: ProviderError::Transport("timed out".to_string()) },
    ]);
    let expected = failures.clone();
    let r = perform_check(&eff, online, move || Err(failures.clone()), |_a: &Action, _d: bool| {
        *runs.borrow_mut() += 1;
        Ok(())
    });
    assert_eq!(r.outcome, DecisionOutcome::NoActionIdentityUnknown);
    assert_eq!(r.error, Some(CycleError::Identity(expected)));
    assert_eq!(*runs.borrow(), 0);
}

#[test]
fn dns_failure_is_surfaced_as_network_down() {
    let eff = make_eff("X", false);
    let r = perform_check(
        &eff,
        |_e: &EffectiveConfig| Err(NetworkingError::DnsResolve("no such host".to_string())),
        || isp("X"),
        |_a: &Action, _d: bool| Ok(()),
    );
    assert_eq!(r.outcome, DecisionOutcome::NoActionNetworkDown);
    assert_eq!(r.error, Some(CycleError::Connectivity(NetworkingError::DnsResolve("no such host".to_string()))));
}

#[test]
fn dry_run_passes_the_flag_and_reports_it() {
    let eff = make_eff("X", true);
    let runs = RefCell::new(Vec::new());
    let r = perform_check(&eff, online, || isp("X"), |a: &Action, d: bool| {
        runs.borrow_mut().push((a.clone(), d));
        Ok(())
    });
    assert_eq!(r.outcome, DecisionOutcome::ActionTriggeredDryRun);
    assert_eq!(*runs.borrow(), vec![(Action::Command("echo hi".to_string()), true)]);
}

#[test]
fn failed_dispatch_is_reported() {
    let eff = make_eff("X", false);
    let r = perform_check(&eff, online, || isp("X"), |_a: &Action, _d: bool| Err("bus unavailable".to_string()));
    assert_eq!(r.outcome, DecisionOutcome::ActionTriggered);
    assert_eq!(r.error, Some(CycleError::Action("bus unavailable".to_string())));
}

#[test]
fn comparison_is_case_sensitive() {
    let eff = make_eff("Hutchison 3G UK Ltd", false);
    let r = perform_check(&eff, online, || isp("hutchison 3g uk ltd"), |_a: &Action, _d: bool| Ok(()));
    assert_eq!(r.outcome, DecisionOutcome::NoActionIdentityMatchesExpected);
}

#[test]
fn perform_check_triggers_action_when_isp_matches() {
    let eff = make_eff("TARGET_ISP", false);
    let called = RefCell::new(false);
    let r = perform_check(&eff, online, || isp("TARGET_ISP"), |_a: &Action, _d: bool| {
        *called.borrow_mut() = true;
        Ok(())
    });
    assert!(r.error.is_none());
    assert!(*called.borrow(), "expected action to be triggered");
}

#[test]
fn perform_check_does_not_trigger_action_when_isp_differs() {
    let eff = make_eff("TARGET_ISP", false);
    let called = RefCell::new(false);
    let r = perform_check(&eff, online, || isp("OTHER_ISP"), |_a: &Action, _d: bool| {
        *called.borrow_mut() = true;
        Ok(())
    });
    assert!(r.error.is_none());
    assert!(!*called.borrow(), "expected no action when ISP differs");
}

#[test]
fn perform_check_handles_get_isp_error_without_exiting_when_nonfatal() {
    let eff = make_eff("TARGET_ISP", false);
    let called = RefCell::new(false);
    let r = perform_check(&eff, online, || Err(ChainError::NoProviders), |_a: &Action, _d: bool| {
        *called.borrow_mut() = true;
        Ok(())
    });
    assert_eq!(r.outcome, DecisionOutcome::NoActionIdentityUnknown);
    assert!(!*called.borrow(), "action should not be called on get_isp error when non-fatal");
}

#[test]
fn exit_codes_follow_the_failure_kind() {
    let report = |outcome, error| CheckReport { outcome, isp: None, error };
    let dns = report(
        DecisionOutcome::NoActionNetworkDown,
        Some(CycleError::Connectivity(NetworkingError::DnsResolve("x".to_string()))),
    );
    assert_eq!(exit_code(&dns), 3);
    assert_eq!(exit_code(&report(DecisionOutcome::NoActionNetworkDown, None)), 4);
    assert_eq!(
        exit_code(&report(DecisionOutcome::NoActionIdentityUnknown, Some(CycleError::Identity(ChainError::NoProviders)))),
        5
    );
    assert_eq!(exit_code(&report(DecisionOutcome::ActionTriggered, None)), 0);
    assert_eq!(exit_code(&report(DecisionOutcome::NoActionIdentityMatchesExpected, None)), 0);
}
