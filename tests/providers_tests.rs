use std::cell::RefCell;

use check_vpn::config::{Args, Config};
use check_vpn::ip_api::{identity_from_body, BodyFault, ProviderError};
use check_vpn::providers::{
    build_provider_chain, query_first_success, ChainError, Provider, ProviderFailure, ProviderKind, VpnIdentity,
};

/// Answers a provider's query from a canned HTTP status and body.
fn answer(p: &Provider, status: u16, body: &str) -> Result<VpnIdentity, ProviderError> {
    if status >= 500 {
        return Err(ProviderError::ServerError(status));
    }
    identity_from_body(body.as_bytes(), p.max_bytes, &p.field_keys())
}

fn id(s: &str) -> VpnIdentity {
    VpnIdentity { isp: s.to_string() }
}

#[test]
fn fallback_success_after_failure() {
    let chain = vec![Provider::generic_json("http://bad/json"), Provider::generic_json("http://good/json")];
    let r = query_first_success(&chain, |p| {
        if p.url == "http://bad/json" { answer(p, 500, "") } else { answer(p, 200, "{\"isp\":\"GoodISP\"}") }
    });
    assert_eq!(r.expect("should fallback to good provider").isp, "GoodISP");
}

#[test]
fn custom_json_key_extraction() {
    let gp = Provider::generic_json("http://mock/json").with_key(Some("asn".to_string()));
    let chain = vec![gp];
    let r = query_first_success(&chain, |p| answer(p, 200, "{ \"asn\": \"ASN123\" }"));
    assert_eq!(r.expect("expected success").isp, "ASN123");
}

#[test]
fn custom_json_key_fallback_when_missing() {
    let gp = Provider::generic_json("http://mock/json").with_key(Some("asn".to_string()));
    let chain = vec![gp];
    let r = query_first_success(&chain, |p| answer(p, 200, "{ \"org\": \"OrgValue\" }"));
    assert_eq!(r.expect("expected fallback success").isp, "OrgValue");
}

#[test]
fn ifconfig_co_reads_asn_org_but_not_org() {
    let p = Provider::ifconfig_co();
    assert_eq!(answer(&p, 200, "{\"asn_org\":\"Vodafone Limited\"}"), Ok(id("Vodafone Limited")));
    assert_eq!(
        answer(&p, 200, "{\"org\":\"Vodafone Limited\"}"),
        Err(ProviderError::MalformedBody(BodyFault::NoIdentityField))
    );
}

#[test]
fn failing_then_succeeding_returns_the_second() {
    let chain = vec![Provider::ip_api(), Provider::ifconfig_co()];
    let asked = RefCell::new(Vec::new());
    let r = query_first_success(&chain, |p| {
        asked.borrow_mut().push(p.name());
        match p.kind {
            ProviderKind::IpApi => Err(ProviderError::ClientError(403)),
            _ => Ok(id("Second")),
        }
    });
    assert_eq!(r, Ok(id("Second")));
    assert_eq!(*asked.borrow(), vec!["ip-api".to_string(), "ifconfig.co".to_string()]);
}

#[test]
fn succeeding_then_failing_never_asks_the_second() {
    let chain = vec![Provider::ip_api(), Provider::ifconfig_co()];
    let asked = RefCell::new(Vec::new());
    let r = query_first_success(&chain, |p| {
        asked.borrow_mut().push(p.name());
        match p.kind {
            ProviderKind::IpApi => Ok(id("First")),
            _ => Err(ProviderError::ClientError(403)),
        }
    });
    assert_eq!(r, Ok(id("First")));
    assert_eq!(*asked.borrow(), vec!["ip-api".to_string()]);
}

#[test]
fn all_failing_reports_every_provider() {
    let chain = vec![Provider::generic_json("http://one/json"), Provider::ip_api()];
    let r = query_first_success(&chain, |p| match p.kind {
        ProviderKind::IpApi => Err(ProviderError::RateLimited),
        _ => Err(ProviderError::Transport("refused".to_string())),
    });
    let e = r.unwrap_err();
    assert_eq!(
        e,
        ChainError::Exhausted(vec![
            ProviderFailure { provider: "http://one/json".to_string(), error: ProviderError::Transport("refused".to_string()) },
            ProviderFailure { provider: "ip-api".to_string(), error: ProviderError::RateLimited },
        ])
    );
    assert_eq!(e.message(), "ip-api: non-success status: 429");
}

#[test]
fn empty_chain_has_no_providers() {
    let r = query_first_success(&vec![], |_p: &Provider| Ok(id("never")));
    assert_eq!(r, Err(ChainError::NoProviders));
    assert_eq!(ChainError::NoProviders.message(), "no providers configured");
}

#[test]
fn chain_order_is_urls_then_custom_then_builtins() {
    let mut cfg = Config::default();
    cfg.provider_urls = Some(vec!["http://a/json".to_string(), "http://b/json".to_string()]);
    cfg.custom_json_server = Some("http://custom/json".to_string());
    cfg.custom_json_key = Some("asn".to_string());
    cfg.enable_ifconfig_co = Some(false);
    let args = Args {
        interval: None,
        isp_to_check: None,
        vpn_lost_action_type: None,
        vpn_lost_action_arg: None,
        dry_run: false,
        connectivity_endpoints: None,
        connectivity_ports: None,
        connectivity_timeout_secs: None,
        connectivity_retries: None,
        run_once: false,
        verbose: 0,
        config: None,
        enable_metrics: false,
        metrics_addr: "0.0.0.0:9090".to_string(),
        exit_on_error: false,
    };
    let chain = build_provider_chain(&cfg.merge_with_args(&args));
    let names: Vec<String> = chain.iter().map(|p| p.name()).collect();
    assert_eq!(names, vec!["http://a/json", "http://b/json", "http://custom/json", "ip-api"]);
    assert_eq!(chain[2].field_keys(), vec!["asn", "isp", "asn_org", "org"]);
    assert_eq!(chain[3].field_keys(), vec!["isp"]);
}
