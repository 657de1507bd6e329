use check_vpn::networking::{candidate_addresses, default_ports, ConnectOutcome, NetworkingError, ProbeStep, Prober};

fn texts(v: &[&str]) -> Vec<String> {
    v.iter().map(|s| s.to_string()).collect()
}

/// Drives a probe against a simulated network: `world(address, attempt)`.
/// Returns the verdict, the addresses tried and the delays asked for.
fn drive<W: Fn(&str, usize) -> ConnectOutcome>(
    endpoints: &[&str],
    ports: &[u16],
    retries: usize,
    world: W,
) -> (Result<bool, NetworkingError>, Vec<String>, Vec<u64>) {
    let mut p = Prober::new(&texts(endpoints), &ports.to_vec(), retries);
    let mut tried = Vec::new();
    let mut delays = Vec::new();
    let mut step = p.start();
    let mut attempt_on: (String, usize) = (String::new(), 0);
    loop {
        match step {
            ProbeStep::Connect { address, delay_ms } => {
                if attempt_on.0 == address {
                    attempt_on.1 += 1;
                } else {
                    attempt_on = (address.clone(), 0);
                }
                delays.push(delay_ms);
                tried.push(address.clone());
                let outcome = world(&address, attempt_on.1);
                step = p.record(outcome);
            }
            ProbeStep::Finished(v) => return (v, tried, delays),
        }
    }
}

#[test]
fn candidates_follow_endpoint_order_and_ports() {
    let c = candidate_addresses(&texts(&["127.0.0.1:8080", "example.com"]), &vec![443, 80]);
    assert_eq!(c, texts(&["127.0.0.1:8080", "example.com:443", "example.com:80"]));
}

#[test]
fn explicit_port_is_never_combined_with_default_ports() {
    let c = candidate_addresses(&texts(&["host:53"]), &default_ports());
    assert_eq!(c, texts(&["host:53"]));
}

#[test]
fn default_ports_are_https_dns_http() {
    assert_eq!(default_ports(), vec![443, 53, 80]);
}

#[test]
fn live_listener_on_a_later_candidate_is_found() {
    let (v, tried, _) = drive(&["10.0.0.1", "127.0.0.1"], &[443, 65535], 2, |a, _| {
        if a == "127.0.0.1:65535" { ConnectOutcome::Connected } else { ConnectOutcome::Unreachable }
    });
    assert_eq!(v, Ok(true));
    assert_eq!(
        tried,
        texts(&["10.0.0.1:443", "10.0.0.1:443", "10.0.0.1:65535", "10.0.0.1:65535", "127.0.0.1:443", "127.0.0.1:443", "127.0.0.1:65535"])
    );
}

#[test]
fn no_listener_anywhere_is_offline_not_an_error() {
    let (v, tried, _) = drive(&["a", "b:1"], &[1, 2], 3, |_, _| ConnectOutcome::Unreachable);
    assert_eq!(v, Ok(false));
    assert_eq!(tried.len(), 9);
}

#[test]
fn dns_failure_is_reported_at_once() {
    let (v, tried, _) = drive(&["nonexistent.invalid.tld", "127.0.0.1"], &[443], 3, |a, _| {
        if a.starts_with("nonexistent") {
            ConnectOutcome::DnsFailure("no such host".to_string())
        } else {
            ConnectOutcome::Connected
        }
    });
    assert_eq!(v, Err(NetworkingError::DnsResolve("no such host".to_string())));
    assert_eq!(tried, texts(&["nonexistent.invalid.tld:443"]));
}

#[test]
fn listener_that_appears_on_a_retry_is_found_after_linear_backoff() {
    let (v, _, delays) = drive(&["127.0.0.1:9"], &[443], 3, |_, attempt| {
        if attempt == 2 { ConnectOutcome::Connected } else { ConnectOutcome::Unreachable }
    });
    assert_eq!(v, Ok(true));
    assert_eq!(delays, vec![0, 200, 400]);
}

#[test]
fn zero_retries_still_makes_one_attempt() {
    let (v, tried, delays) = drive(&["a", "b"], &[7], 0, |_, _| ConnectOutcome::Unreachable);
    assert_eq!(v, Ok(false));
    assert_eq!(tried, texts(&["a:7", "b:7"]));
    assert_eq!(delays, vec![0, 0]);
}

#[test]
fn empty_endpoint_list_is_offline() {
    let p = Prober::new(&vec![], &vec![443], 1);
    assert_eq!(p.start(), ProbeStep::Finished(Ok(false)));
}

#[test]
fn networking_error_messages() {
    assert_eq!(NetworkingError::DnsResolve("x".into()).message(), "DNS resolution failed: x");
    assert_eq!(NetworkingError::Io("y".into()).message(), "I/O error: y");
}
