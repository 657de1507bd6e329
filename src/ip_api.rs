//! The HTTP side of an identity provider: which response statuses are retried
//! and after what wait, the response-size cap, and how an identity is read from
//! a JSON body. The caller sends the requests, sleeps and reads the bodies.

use vstd::prelude::*;
use crate::providers::VpnIdentity;
use crate::text::{decimal, push_decimal};

verus! {

/// Default cap on a response body, in bytes.
pub const DEFAULT_MAX_RESPONSE_BYTES: u64 = 5 * 1024 * 1024;

/// Largest `Retry-After` value, in seconds, that is honoured as given.
pub const MAX_RETRY_AFTER_SECS: u64 = 60;

/// Why a body did not yield an identity.
#[derive(Debug, Clone, PartialEq, Eq)]
pub enum BodyFault {
    /// The body is not a JSON document.
    NotJson,
    /// The document has none of the recognised identity fields.
    NoIdentityField,
}

/// How one provider call failed, once its retries are spent.
#[derive(Debug, Clone, PartialEq, Eq)]
pub enum ProviderError {
    /// The request did not complete (connection or I/O failure).
    Transport(String),
    /// The server answered with a 5xx status.
    ServerError(u16),
    /// The server answered 429 on the last attempt.
    RateLimited,
    /// Any other status that is not a success.
    ClientError(u16),
    /// The declared or the actual body size exceeds this cap.
    ResponseTooLarge(u64),
    /// The body could not be read as an identity.
    MalformedBody(BodyFault),
}

/// What the caller does after one attempt.
#[derive(Debug, Clone, PartialEq, Eq)]
pub enum RetryStep {
    /// The status is a success: go on to the body.
    Proceed,
    /// Wait this many milliseconds, then send the request again.
    Wait(u64),
    /// Give up with this error.
    Fail(ProviderError),
}

/// Linear backoff before attempt `attempt + 1`: 500 ms per attempt made, saturating.
pub open spec fn backoff_ms(attempt: nat) -> nat {
    if 500 * (attempt + 1) <= u64::MAX {
        500 * (attempt + 1)
    } else {
        u64::MAX as nat
    }
}

pub open spec fn is_digit(c: char) -> bool {
    '0' <= c && c <= '9'
}

/// Value of a run of decimal digits.
pub open spec fn digits_value(s: Seq<char>) -> nat
    decreases s.len(),
{
    if s.len() == 0 {
        0
    } else {
        digits_value(s.drop_last()) * 10 + ((s.last() as u32) - ('0' as u32)) as nat
    }
}

/// What `u64`'s `FromStr` accepts: an optional `+`, then one or more decimal
/// digits whose value fits in 64 bits.
pub open spec fn unsigned_decimal(s: Seq<char>) -> Option<u64> {
    let digits = if s.len() > 0 && s[0] == '+' { s.drop_first() } else { s };
    if digits.len() > 0 && (forall|i: int| 0 <= i < digits.len() ==> is_digit(#[trigger] digits[i]))
        && digits_value(digits) <= u64::MAX {
        Some(digits_value(digits) as u64)
    } else {
        None
    }
}

/// Relies on `str::parse::<u64>`: an optional `+` and decimal digits whose value
/// fits in 64 bits parse to that value; anything else is an error.
#[verifier::external_body]
fn parse_u64(s: &str) -> (r: Option<u64>)
    ensures
        r == unsigned_decimal(s@),
{
    s.parse::<u64>().ok()
}

pub open spec fn opt_text(o: Option<&str>) -> Option<Seq<char>> {
    match o {
        Some(s) => Some(s@),
        None => None,
    }
}

/// The wait a 429 response asks for, in seconds, when its `Retry-After` is a number.
pub open spec fn retry_after_secs(header: Option<Seq<char>>) -> Option<u64> {
    match header {
        Some(h) => unsigned_decimal(h),
        None => None,
    }
}

/// The wait before the next attempt after a 429.
pub open spec fn rate_limit_wait_ms(attempt: nat, retry_after: Option<u64>) -> nat {
    match retry_after {
        Some(secs) => if secs <= MAX_RETRY_AFTER_SECS { (secs * 1000) as nat } else { (MAX_RETRY_AFTER_SECS * 1000) as nat },
        None => backoff_ms(attempt),
    }
}

/// The step after a response with `status` on attempt `attempt` (from 0) of `attempts`.
pub open spec fn status_step(attempt: nat, attempts: nat, status: u16, retry_after: Option<u64>) -> RetryStep {
    if 200 <= status <= 299 {
        RetryStep::Proceed
    } else if status == 429 {
        if attempt + 1 < attempts {
            RetryStep::Wait(rate_limit_wait_ms(attempt, retry_after) as u64)
        } else {
            RetryStep::Fail(ProviderError::RateLimited)
        }
    } else if 500 <= status <= 599 {
        if attempt + 1 < attempts {
            RetryStep::Wait(backoff_ms(attempt) as u64)
        } else {
            RetryStep::Fail(ProviderError::ServerError(status))
        }
    } else {
        RetryStep::Fail(ProviderError::ClientError(status))
    }
}

/// The step after a request that did not complete, for `reason`.
pub open spec fn transport_step(attempt: nat, attempts: nat, reason: String) -> RetryStep {
    if attempt + 1 < attempts {
        RetryStep::Wait(backoff_ms(attempt) as u64)
    } else {
        RetryStep::Fail(ProviderError::Transport(reason))
    }
}

/// Attempt bookkeeping for one provider call.
pub struct RetryPolicy {
    attempt: usize,
    attempts: usize,
}

impl RetryPolicy {
    /// The attempt under way, counted from 0.
    pub closed spec fn attempt(&self) -> nat {
        self.attempt as nat
    }

    /// How many attempts the call may make.
    pub closed spec fn attempts(&self) -> nat {
        self.attempts as nat
    }

    pub open spec fn wf(&self) -> bool {
        self.attempt() < self.attempts()
    }

    /// A call that makes up to `retries` attempts (at least one).
    pub fn new(retries: usize) -> (r: Self)
        ensures
            r.wf(),
            r.attempt() == 0,
            r.attempts() == if retries == 0 { 1 } else { retries as nat },
    {
        RetryPolicy { attempt: 0, attempts: if retries == 0 { 1 } else { retries } }
    }

    fn wait_ms(&self) -> (r: u64)
        requires
            self.wf(),
        ensures
            r as nat == backoff_ms(self.attempt()),
    {
        let k: u64 = self.attempt as u64 + 1;
        match 500u64.checked_mul(k) {
            Some(v) => v,
            None => u64::MAX,
        }
    }

    /// Decides on a response with `status`; `retry_after` is its `Retry-After` header.
    pub fn on_status(&mut self, status: u16, retry_after: Option<&str>) -> (r: RetryStep)
        requires
            old(self).wf(),
        ensures
            final(self).wf(),
            final(self).attempts() == old(self).attempts(),
            r == status_step(old(self).attempt(), old(self).attempts(), status, retry_after_secs(opt_text(retry_after))),
            final(self).attempt() == if r is Wait { old(self).attempt() + 1 } else { old(self).attempt() },
    {
        if 200 <= status && status <= 299 {
            return RetryStep::Proceed;
        }
        let last = self.attempt + 1 >= self.attempts;
        if status == 429 {
            if last {
                return RetryStep::Fail(ProviderError::RateLimited);
            }
            let secs = match retry_after {
                Some(h) => parse_u64(h),
                None => None,
            };
            let ms = match secs {
                Some(s) => if s <= MAX_RETRY_AFTER_SECS { s * 1000 } else { MAX_RETRY_AFTER_SECS * 1000 },
                None => self.wait_ms(),
            };
            self.attempt = self.attempt + 1;
            RetryStep::Wait(ms)
        } else if 500 <= status && status <= 599 {
            if last {
                return RetryStep::Fail(ProviderError::ServerError(status));
            }
            let ms = self.wait_ms();
            self.attempt = self.attempt + 1;
            RetryStep::Wait(ms)
        } else {
            RetryStep::Fail(ProviderError::ClientError(status))
        }
    }

    /// Decides on a request that did not complete, for `reason`.
    pub fn on_transport_failure(&mut self, reason: String) -> (r: RetryStep)
        requires
            old(self).wf(),
        ensures
            final(self).wf(),
            final(self).attempts() == old(self).attempts(),
            r == transport_step(old(self).attempt(), old(self).attempts(), reason),
            final(self).attempt() == if r is Wait { old(self).attempt() + 1 } else { old(self).attempt() },
    {
        if self.attempt + 1 >= self.attempts {
            return RetryStep::Fail(ProviderError::Transport(reason));
        }
        let ms = self.wait_ms();
        self.attempt = self.attempt + 1;
        RetryStep::Wait(ms)
    }
}

/// Rejects a response whose declared `Content-Length` exceeds `max_bytes`.
pub fn check_declared_length(content_length: Option<u64>, max_bytes: u64) -> (r: Result<(), ProviderError>)
    ensures
        r == match content_length {
            Some(len) => if len > max_bytes { Err(ProviderError::ResponseTooLarge(max_bytes)) } else { Ok(()) },
            None => Ok(()),
        },
{
    match content_length {
        Some(len) => if len > max_bytes { Err(ProviderError::ResponseTooLarge(max_bytes)) } else { Ok(()) },
        None => Ok(()),
    }
}

/// The top-level members of a JSON document: each key with its text when the
/// value is a JSON string. `None` when the bytes are not a JSON document; no
/// members when the document is not an object.
pub uninterp spec fn json_members(body: Seq<u8>) -> Option<Seq<(Seq<char>, Option<Seq<char>>)>>;

pub open spec fn member_view(m: (String, Option<String>)) -> (Seq<char>, Option<Seq<char>>) {
    (m.0@, match m.1 { Some(t) => Some(t@), None => None })
}

pub open spec fn members_view(v: Seq<(String, Option<String>)>) -> Seq<(Seq<char>, Option<Seq<char>>)> {
    v.map_values(|m: (String, Option<String>)| member_view(m))
}

/// Relies on `serde_json::from_slice` into a `serde_json::Value`: the result
/// depends on the bytes alone. The map is only taken apart into its members.
#[verifier::external_body]
fn decode_members(body: &[u8]) -> (r: Option<Vec<(String, Option<String>)>>)
    ensures
        match r {
            Some(v) => json_members(body@) == Some(members_view(v@)),
            None => json_members(body@) is None,
        },
{
    match serde_json::from_slice::<serde_json::Value>(body) {
        Ok(serde_json::Value::Object(map)) => Some(map.into_iter().map(|(k, v)| match v {
            serde_json::Value::String(s) => (k, Some(s)),
            _ => (k, None),
        }).collect()),
        Ok(_) => Some(Vec::new()),
        Err(_) => None,
    }
}

/// The non-empty text under `key`, if its first member with that key holds one.
pub open spec fn member_text(ms: Seq<(Seq<char>, Option<Seq<char>>)>, key: Seq<char>) -> Option<Seq<char>>
    decreases ms.len(),
{
    if ms.len() == 0 {
        None
    } else if ms[0].0 == key {
        match ms[0].1 {
            Some(t) => if t.len() > 0 { Some(t) } else { None },
            None => None,
        }
    } else {
        member_text(ms.drop_first(), key)
    }
}

/// The text under the first of `keys` that holds one.
pub open spec fn pick_identity(ms: Seq<(Seq<char>, Option<Seq<char>>)>, keys: Seq<Seq<char>>) -> Option<Seq<char>>
    decreases keys.len(),
{
    if keys.len() == 0 {
        None
    } else {
        match member_text(ms, keys[0]) {
            Some(t) => Some(t),
            None => pick_identity(ms, keys.drop_first()),
        }
    }
}

pub open spec fn texts_view(v: Seq<String>) -> Seq<Seq<char>> {
    v.map_values(|s: String| s@)
}

fn find_member_text(ms: &Vec<(String, Option<String>)>, key: &String) -> (r: Option<String>)
    ensures
        match r {
            Some(t) => member_text(members_view(ms@), key@) == Some(t@),
            None => member_text(members_view(ms@), key@) is None,
        },
{
    let ghost all = members_view(ms@);
    let mut i: usize = 0;
    proof {
        assert(all.skip(0) =~= all);
    }
    while i < ms.len()
        invariant
            i <= ms.len(),
            all == members_view(ms@),
            member_text(all, key@) == member_text(all.skip(i as int), key@),
        decreases ms.len() - i,
    {
        proof {
            assert(all.skip(i as int).drop_first() =~= all.skip(i + 1));
            assert(all.skip(i as int)[0] == member_view(ms@[i as int]));
        }
        if ms[i].0 == *key {
            return match &ms[i].1 {
                Some(t) => if t.as_str().is_empty() { None } else { Some(t.clone()) },
                None => None,
            };
        }
        i = i + 1;
    }
    proof {
        assert(all.skip(i as int).len() == 0);
    }
    None
}

/// The identity among a document's members: the text of the first of `keys`
/// whose member is a non-empty JSON string.
pub fn identity_from_members(ms: &Vec<(String, Option<String>)>, keys: &Vec<String>) -> (r: Option<String>)
    ensures
        match r {
            Some(t) => pick_identity(members_view(ms@), texts_view(keys@)) == Some(t@),
            None => pick_identity(members_view(ms@), texts_view(keys@)) is None,
        },
{
    let ghost all = texts_view(keys@);
    let ghost mv = members_view(ms@);
    let mut i: usize = 0;
    proof {
        assert(all.skip(0) =~= all);
    }
    while i < keys.len()
        invariant
            i <= keys.len(),
            all == texts_view(keys@),
            mv == members_view(ms@),
            pick_identity(mv, all) == pick_identity(mv, all.skip(i as int)),
        decreases keys.len() - i,
    {
        proof {
            assert(all.skip(i as int).drop_first() =~= all.skip(i + 1));
            assert(all.skip(i as int)[0] == keys@[i as int]@);
        }
        match find_member_text(ms, &keys[i]) {
            Some(t) => {
                return Some(t);
            },
            None => {},
        }
        i = i + 1;
    }
    proof {
        assert(all.skip(i as int).len() == 0);
    }
    None
}

/// What a body of `body` bytes yields under a cap of `max_bytes`, trying `keys` in order.
pub open spec fn body_outcome(body: Seq<u8>, max_bytes: u64, keys: Seq<Seq<char>>) -> Result<Seq<char>, ProviderError> {
    if body.len() > max_bytes {
        Err(ProviderError::ResponseTooLarge(max_bytes))
    } else {
        match json_members(body) {
            None => Err(ProviderError::MalformedBody(BodyFault::NotJson)),
            Some(ms) => match pick_identity(ms, keys) {
                Some(t) => Ok(t),
                None => Err(ProviderError::MalformedBody(BodyFault::NoIdentityField)),
            },
        }
    }
}

/// Reads the identity from a response body: the first of `keys` whose member is
/// a non-empty JSON string wins. `body` holds at most `max_bytes + 1` bytes of the
/// response, so that an oversized one shows.
pub fn identity_from_body(body: &[u8], max_bytes: u64, keys: &Vec<String>) -> (r: Result<VpnIdentity, ProviderError>)
    ensures
        body@.len() > max_bytes ==> r == Err::<VpnIdentity, ProviderError>(ProviderError::ResponseTooLarge(max_bytes)),
        match (r, body_outcome(body@, max_bytes, texts_view(keys@))) {
            (Ok(id), Ok(t)) => id.isp@ == t,
            (Err(e), Err(f)) => e == f,
            _ => false,
        },
{
    if body.len() as u64 > max_bytes {
        return Err(ProviderError::ResponseTooLarge(max_bytes));
    }
    match decode_members(body) {
        None => Err(ProviderError::MalformedBody(BodyFault::NotJson)),
        Some(ms) => match identity_from_members(&ms, keys) {
            Some(t) => Ok(VpnIdentity { isp: t }),
            None => Err(ProviderError::MalformedBody(BodyFault::NoIdentityField)),
        },
    }
}

/// The text of a provider error, as shown to an operator.
pub open spec fn provider_error_text(e: ProviderError) -> Seq<char> {
    match e {
        ProviderError::Transport(m) => "http request failed: "@ + m@,
        ProviderError::ServerError(s) => "non-success status: "@ + decimal(s as nat),
        ProviderError::RateLimited => "non-success status: 429"@,
        ProviderError::ClientError(s) => "non-success status: "@ + decimal(s as nat),
        ProviderError::ResponseTooLarge(n) => "response too large (>"@ + decimal(n as nat) + " bytes)"@,
        ProviderError::MalformedBody(BodyFault::NotJson) => "failed to parse json"@,
        ProviderError::MalformedBody(BodyFault::NoIdentityField) => "no recognizable identity field"@,
    }
}

impl ProviderError {
    /// The text shown to an operator.
    pub fn message(&self) -> (r: String)
        ensures
            r@ == provider_error_text(*self),
    {
        match self {
            ProviderError::Transport(m) => "http request failed: ".to_owned().concat(m.as_str()),
            ProviderError::ServerError(s) => {
                let mut t = "non-success status: ".to_owned();
                push_decimal(&mut t, *s as u64);
                t
            },
            ProviderError::RateLimited => "non-success status: 429".to_owned(),
            ProviderError::ClientError(s) => {
                let mut t = "non-success status: ".to_owned();
                push_decimal(&mut t, *s as u64);
                t
            },
            ProviderError::ResponseTooLarge(n) => {
                let mut t = "response too large (>".to_owned();
                push_decimal(&mut t, *n);
                t.append(" bytes)");
                t
            },
            ProviderError::MalformedBody(BodyFault::NotJson) => "failed to parse json".to_owned(),
            ProviderError::MalformedBody(BodyFault::NoIdentityField) => "no recognizable identity field".to_owned(),
        }
    }
}

/// What the caller does next during one provider call.
#[derive(Debug, PartialEq, Eq)]
pub enum FetchStep {
    /// Wait `delay_ms` milliseconds, then send the request again.
    Send { delay_ms: u64 },
    /// Read at most `limit` bytes of the body and hand them to `FetchSession::on_body`.
    ReadBody { limit: u64 },
    /// The call is over.
    Done(Result<VpnIdentity, ProviderError>),
}

/// How much of a body is read under a cap of `max_bytes`: one byte more, so
/// that an oversized body shows.
pub open spec fn read_limit(max_bytes: u64) -> u64 {
    if max_bytes < u64::MAX { (max_bytes + 1) as u64 } else { max_bytes }
}

/// One provider call in progress: its retries, its size cap and the fields
/// that may carry the identity.
pub struct FetchSession {
    policy: RetryPolicy,
    max_bytes: u64,
    keys: Vec<String>,
}

impl FetchSession {
    pub closed spec fn policy(&self) -> RetryPolicy {
        self.policy
    }

    pub closed spec fn max_bytes(&self) -> u64 {
        self.max_bytes
    }

    pub closed spec fn keys(&self) -> Seq<Seq<char>> {
        texts_view(self.keys@)
    }

    pub open spec fn wf(&self) -> bool {
        self.policy().wf()
    }

    /// A call of up to `retries` attempts (at least one) with a body cap of
    /// `max_bytes`, reading the identity from `keys` in order.
    pub fn new(retries: usize, max_bytes: u64, keys: Vec<String>) -> (r: Self)
        ensures
            r.wf(),
            r.policy().attempt() == 0,
            r.policy().attempts() == if retries == 0 { 1 } else { retries as nat },
            r.max_bytes() == max_bytes,
            r.keys() == texts_view(keys@),
    {
        FetchSession { policy: RetryPolicy::new(retries), max_bytes, keys }
    }

    /// Decides on a response: its status, its `Retry-After` header and its
    /// declared `Content-Length`.
    pub fn on_response(&mut self, status: u16, retry_after: Option<&str>, content_length: Option<u64>) -> (r: FetchStep)
        requires
            old(self).wf(),
        ensures
            final(self).wf(),
            final(self).max_bytes() == old(self).max_bytes(),
            final(self).keys() == old(self).keys(),
            final(self).policy().attempts() == old(self).policy().attempts(),
            ({
                let st = status_step(old(self).policy().attempt(), old(self).policy().attempts(), status,
                    retry_after_secs(opt_text(retry_after)));
                &&& final(self).policy().attempt() == if st is Wait {
                    old(self).policy().attempt() + 1
                } else {
                    old(self).policy().attempt()
                }
                &&& r == match st {
                    RetryStep::Proceed => match content_length {
                        Some(len) => if len > old(self).max_bytes() {
                            FetchStep::Done(Err(ProviderError::ResponseTooLarge(old(self).max_bytes())))
                        } else {
                            FetchStep::ReadBody { limit: read_limit(old(self).max_bytes()) }
                        },
                        None => FetchStep::ReadBody { limit: read_limit(old(self).max_bytes()) },
                    },
                    RetryStep::Wait(ms) => FetchStep::Send { delay_ms: ms },
                    RetryStep::Fail(e) => FetchStep::Done(Err(e)),
                }
            }),
    {
        match self.policy.on_status(status, retry_after) {
            RetryStep::Proceed => match check_declared_length(content_length, self.max_bytes) {
                Err(e) => FetchStep::Done(Err(e)),
                Ok(()) => FetchStep::ReadBody {
                    limit: if self.max_bytes < u64::MAX { self.max_bytes + 1 } else { self.max_bytes },
                },
            },
            RetryStep::Wait(ms) => FetchStep::Send { delay_ms: ms },
            RetryStep::Fail(e) => FetchStep::Done(Err(e)),
        }
    }

    /// Decides on a request that did not complete, for `reason`.
    pub fn on_transport_failure(&mut self, reason: String) -> (r: FetchStep)
        requires
            old(self).wf(),
        ensures
            final(self).wf(),
            final(self).max_bytes() == old(self).max_bytes(),
            final(self).keys() == old(self).keys(),
            final(self).policy().attempts() == old(self).policy().attempts(),
            r == match transport_step(old(self).policy().attempt(), old(self).policy().attempts(), reason) {
                RetryStep::Wait(ms) => FetchStep::Send { delay_ms: ms },
                RetryStep::Fail(e) => FetchStep::Done(Err(e)),
                RetryStep::Proceed => FetchStep::Send { delay_ms: 0 },
            },
            final(self).policy().attempt() == if r is Send {
                old(self).policy().attempt() + 1
            } else {
                old(self).policy().attempt()
            },
    {
        match self.policy.on_transport_failure(reason) {
            RetryStep::Wait(ms) => FetchStep::Send { delay_ms: ms },
            RetryStep::Fail(e) => FetchStep::Done(Err(e)),
            RetryStep::Proceed => FetchStep::Send { delay_ms: 0 },
        }
    }

    /// Ends the call with the body read after `FetchStep::ReadBody`, or with the
    /// reason the read failed.
    pub fn on_body(&self, body: Result<Vec<u8>, String>) -> (r: Result<VpnIdentity, ProviderError>)
        ensures
            match body {
                Err(m) => r == Err::<VpnIdentity, ProviderError>(ProviderError::Transport(m)),
                Ok(b) => match (r, body_outcome(b@, self.max_bytes(), self.keys())) {
                    (Ok(id), Ok(t)) => id.isp@ == t,
                    (Err(e), Err(f)) => e == f,
                    _ => false,
                },
            },
    {
        match body {
            Err(m) => Err(ProviderError::Transport(m)),
            Ok(b) => identity_from_body(b.as_slice(), self.max_bytes, &self.keys),
        }
    }
}

} // verus!
