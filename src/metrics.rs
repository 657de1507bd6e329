//! The bytes of the health and metrics endpoint's answers.

use vstd::prelude::*;
use vstd::utf8::encode_utf8;
use crate::text::{decimal, push_decimal};

verus! {

/// An HTTP/1.1 answer with a `Content-Type`, the body's length, and the body.
pub open spec fn http_text(status: Seq<char>, content_type: Seq<char>, body: Seq<char>) -> Seq<char> {
    "HTTP/1.1 "@ + status + "\r\nContent-Type: "@ + content_type + "\r\nContent-Length: "@
        + decimal(body.len()) + "\r\nConnection: close\r\n\r\n"@ + body
}

pub open spec fn metrics_body() -> Seq<char> {
    "# HELP check_vpn_up 1 if the service is up\n# TYPE check_vpn_up gauge\ncheck_vpn_up 1\n"@
}

fn http_bytes(status: &str, content_type: &str, body: &str) -> (r: Vec<u8>)
    ensures
        r@ == encode_utf8(http_text(status@, content_type@, body@)),
{
    let mut s = String::new();
    s.append("HTTP/1.1 ");
    s.append(status);
    s.append("\r\nContent-Type: ");
    s.append(content_type);
    s.append("\r\nContent-Length: ");
    let n = body.unicode_len();
    push_decimal(&mut s, n as u64);
    s.append("\r\nConnection: close\r\n\r\n");
    s.append(body);
    assert(s@ =~= http_text(status@, content_type@, body@));
    s.as_str().as_bytes_vec()
}

/// `200 OK` with the body `ok`.
pub fn build_health_response() -> (r: Vec<u8>)
    ensures
        r@ == encode_utf8(http_text("200 OK"@, "text/plain"@, "ok"@)),
{
    http_bytes("200 OK", "text/plain", "ok")
}

/// `200 OK` with the service's one gauge in the text exposition format.
pub fn build_metrics_response() -> (r: Vec<u8>)
    ensures
        r@ == encode_utf8(http_text("200 OK"@, "text/plain; version=0.0.4"@, metrics_body())),
{
    http_bytes("200 OK", "text/plain; version=0.0.4",
        "# HELP check_vpn_up 1 if the service is up\n# TYPE check_vpn_up gauge\ncheck_vpn_up 1\n")
}

/// `404 Not Found` with an empty body.
pub fn build_not_found_response() -> (r: Vec<u8>)
    ensures
        r@ == encode_utf8("HTTP/1.1 404 Not Found\r\nContent-Length: 0\r\nConnection: close\r\n\r\n"@),
{
    "HTTP/1.1 404 Not Found\r\nContent-Length: 0\r\nConnection: close\r\n\r\n".as_bytes_vec()
}

} // verus!
