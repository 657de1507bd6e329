use check_vpn::metrics::{build_health_response, build_metrics_response, build_not_found_response};

#[test]
fn health_response_contains_ok() {
    let b = build_health_response();
    let s = String::from_utf8(b).unwrap();
    assert!(s.contains("200 OK"));
    assert!(s.ends_with("ok"));
}

#[test]
fn metrics_response_contains_metric() {
    let b = build_metrics_response();
    let s = String::from_utf8(b).unwrap();
    assert!(s.contains("check_vpn_up 1"));
    assert!(s.contains("200 OK"));
}

#[test]
fn not_found_response_is_404() {
    let b = build_not_found_response();
    let s = String::from_utf8(b).unwrap();
    assert!(s.contains("404 Not Found"));
}

#[test]
fn health_response_is_exact() {
    let s = String::from_utf8(build_health_response()).unwrap();
    assert_eq!(
        s,
        "HTTP/1.1 200 OK\r\nContent-Type: text/plain\r\nContent-Length: 2\r\nConnection: close\r\n\r\nok"
    );
}

#[test]
fn metrics_response_declares_its_body_length() {
    let body = "# HELP check_vpn_up 1 if the service is up\n# TYPE check_vpn_up gauge\ncheck_vpn_up 1\n";
    let s = String::from_utf8(build_metrics_response()).unwrap();
    let expected = format!(
        "HTTP/1.1 200 OK\r\nContent-Type: text/plain; version=0.0.4\r\nContent-Length: {}\r\nConnection: close\r\n\r\n{}",
        body.len(),
        body
    );
    assert_eq!(s, expected);
}
