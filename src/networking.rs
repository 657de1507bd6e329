//! The reachability prober: which addresses are tried, in what order, how often,
//! with what backoff, and what verdict follows. The caller makes the TCP
//! connections and sleeps; `Prober` tells it what to do next.

use vstd::prelude::*;
use crate::text::{decimal, has_char, push_decimal, text_has_char};
use crate::ip_api::texts_view;

verus! {

/// Default timeout, in seconds, of one connection attempt.
pub const DEFAULT_TIMEOUT_SECS: u64 = 2;

/// Default number of attempts per candidate address.
pub const DEFAULT_RETRIES: usize = 1;

/// Ports tried when an endpoint names none: 443, 53 and 80, in that order.
pub fn default_ports() -> (r: Vec<u16>)
    ensures
        r@ == seq![443u16, 53u16, 80u16],
{
    let mut v: Vec<u16> = Vec::new();
    v.push(443);
    v.push(53);
    v.push(80);
    v
}

/// Errors of a reachability check.
#[derive(Debug, Clone, PartialEq, Eq)]
pub enum NetworkingError {
    /// A candidate's name could not be resolved (the resolver's message).
    DnsResolve(String),
    /// Another I/O failure.
    Io(String),
}

/// What one connection attempt to a candidate address found.
#[derive(Debug, Clone, PartialEq, Eq)]
pub enum ConnectOutcome {
    /// Some resolved address accepted the connection.
    Connected,
    /// The name resolved but no address accepted in time.
    Unreachable,
    /// The name did not resolve (the resolver's message).
    DnsFailure(String),
}

/// The addresses derived from one endpoint: itself when it carries a port,
/// else `host:port` for each port in order.
pub open spec fn endpoint_candidates(ep: Seq<char>, ports: Seq<u16>) -> Seq<Seq<char>> {
    if has_char(ep, ':') {
        seq![ep]
    } else {
        ports.map_values(|p: u16| ep + seq![':'] + decimal(p as nat))
    }
}

/// All candidate addresses, endpoint by endpoint.
pub open spec fn candidate_seq(endpoints: Seq<Seq<char>>, ports: Seq<u16>) -> Seq<Seq<char>>
    decreases endpoints.len(),
{
    if endpoints.len() == 0 {
        Seq::empty()
    } else {
        candidate_seq(endpoints.drop_last(), ports) + endpoint_candidates(endpoints.last(), ports)
    }
}

/// Attempts made per candidate: `retries`, and at least one.
pub open spec fn attempts_for(retries: nat) -> nat {
    if retries == 0 { 1 } else { retries }
}

/// The verdict of probing `cands` from attempt `a` on candidate `i` onwards, when
/// attempt `a` on address `c` finds `world(c, a)`.
pub open spec fn run_from(
    cands: Seq<Seq<char>>,
    attempts: nat,
    world: spec_fn(Seq<char>, nat) -> ConnectOutcome,
    i: nat,
    a: nat,
) -> Result<bool, NetworkingError>
    decreases cands.len() - i, attempts - a,
{
    if i >= cands.len() {
        Ok(false)
    } else if a >= attempts {
        run_from(cands, attempts, world, i + 1, 0)
    } else {
        match world(cands[i as int], a) {
            ConnectOutcome::Connected => Ok(true),
            ConnectOutcome::DnsFailure(m) => Err(NetworkingError::DnsResolve(m)),
            ConnectOutcome::Unreachable => run_from(cands, attempts, world, i, a + 1),
        }
    }
}

/// The verdict of a whole probe in `world`.
pub open spec fn probe_result(
    endpoints: Seq<Seq<char>>,
    ports: Seq<u16>,
    retries: nat,
    world: spec_fn(Seq<char>, nat) -> ConnectOutcome,
) -> Result<bool, NetworkingError> {
    run_from(candidate_seq(endpoints, ports), attempts_for(retries), world, 0, 0)
}

/// Backoff before attempt `a + 1` on the same candidate: 200 ms per attempt made.
pub open spec fn probe_backoff_ms(a: nat) -> nat {
    if 200 * (a + 1) <= u64::MAX { 200 * (a + 1) } else { u64::MAX as nat }
}

/// The candidate addresses of `endpoints`, in the order they are tried.
pub fn candidate_addresses(endpoints: &Vec<String>, ports: &Vec<u16>) -> (r: Vec<String>)
    ensures
        texts_view(r@) == candidate_seq(texts_view(endpoints@), ports@),
{
    let ghost eps = texts_view(endpoints@);
    let mut out: Vec<String> = Vec::new();
    let mut i: usize = 0;
    proof {
        reveal_strlit(":");
        assert(eps.take(0).len() == 0);
        assert(texts_view(out@) =~= candidate_seq(eps.take(0), ports@));
    }
    while i < endpoints.len()
        invariant
            i <= endpoints.len(),
            eps == texts_view(endpoints@),
            texts_view(out@) == candidate_seq(eps.take(i as int), ports@),
            ":"@ == seq![':'],
        decreases endpoints.len() - i,
    {
        let ep = &endpoints[i];
        let ghost before = texts_view(out@);
        proof {
            assert(eps.take(i + 1).drop_last() =~= eps.take(i as int));
            assert(eps.take(i + 1).last() == ep@);
        }
        if text_has_char(ep.as_str(), ':') {
            out.push(ep.clone());
            proof {
                assert(texts_view(out@) =~= before + seq![ep@]);
            }
        } else {
            let mut j: usize = 0;
            proof {
                assert(texts_view(out@) =~= before + ports@.take(0).map_values(
                    |p: u16| ep@ + seq![':'] + decimal(p as nat)));
            }
            while j < ports.len()
                invariant
                    j <= ports.len(),
                    ":"@ == seq![':'],
                    texts_view(out@) == before + ports@.take(j as int).map_values(
                        |p: u16| ep@ + seq![':'] + decimal(p as nat)),
                decreases ports.len() - j,
            {
                let mut addr = ep.clone();
                addr.append(":");
                push_decimal(&mut addr, ports[j] as u64);
                let ghost prev = texts_view(out@);
                out.push(addr);
                proof {
                    assert(ports@.take(j + 1).map_values(|p: u16| ep@ + seq![':'] + decimal(p as nat))
                        =~= ports@.take(j as int).map_values(|p: u16| ep@ + seq![':'] + decimal(p as nat)).push(
                        ep@ + seq![':'] + decimal(ports@[j as int] as nat)));
                    assert(texts_view(out@) =~= prev.push(addr@));
                }
                j = j + 1;
            }
            proof {
                assert(ports@.take(j as int) =~= ports@);
            }
        }
        i = i + 1;
    }
    proof {
        assert(eps.take(i as int) =~= eps);
    }
    out
}

/// What the caller does next while probing.
#[derive(Debug, PartialEq, Eq)]
pub enum ProbeStep {
    /// Wait `delay_ms` milliseconds, then try to connect to `address` and report
    /// the outcome with `Prober::record`.
    Connect { address: String, delay_ms: u64 },
    /// The probe is over with this verdict.
    Finished(Result<bool, NetworkingError>),
}

/// One reachability probe in progress.
pub struct Prober {
    candidates: Vec<String>,
    attempts: usize,
    index: usize,
    attempt: usize,
}

impl Prober {
    /// The candidate addresses, in order.
    pub closed spec fn candidates(&self) -> Seq<Seq<char>> {
        texts_view(self.candidates@)
    }

    /// Attempts per candidate.
    pub closed spec fn attempts(&self) -> nat {
        self.attempts as nat
    }

    /// The candidate of the pending attempt.
    pub closed spec fn index(&self) -> nat {
        self.index as nat
    }

    /// The pending attempt on that candidate, from 0.
    pub closed spec fn attempt(&self) -> nat {
        self.attempt as nat
    }

    /// An attempt is waiting for its outcome.
    pub open spec fn pending(&self) -> bool {
        self.index() < self.candidates().len() && self.attempt() < self.attempts()
    }

    /// The verdict still to come in `world`.
    pub open spec fn remaining(&self, world: spec_fn(Seq<char>, nat) -> ConnectOutcome) -> Result<bool, NetworkingError> {
        run_from(self.candidates(), self.attempts(), world, self.index(), self.attempt())
    }

    /// A probe of `endpoints`, trying `ports` where an endpoint names no port and
    /// making `retries` attempts (at least one) per candidate address.
    pub fn new(endpoints: &Vec<String>, ports: &Vec<u16>, retries: usize) -> (r: Self)
        ensures
            r.candidates() == candidate_seq(texts_view(endpoints@), ports@),
            r.attempts() == attempts_for(retries as nat),
            r.index() == 0,
            r.attempt() == 0,
            forall|w: spec_fn(Seq<char>, nat) -> ConnectOutcome|
                #[trigger] r.remaining(w) == probe_result(texts_view(endpoints@), ports@, retries as nat, w),
    {
        Prober {
            candidates: candidate_addresses(endpoints, ports),
            attempts: if retries == 0 { 1 } else { retries },
            index: 0,
            attempt: 0,
        }
    }

    /// The first step of the probe.
    pub fn start(&self) -> (r: ProbeStep)
        requires
            self.index() == 0,
            self.attempt() == 0,
            self.attempts() > 0,
        ensures
            match r {
                ProbeStep::Connect { address, delay_ms } => self.pending() && address@ == self.candidates()[0]
                    && delay_ms == 0,
                ProbeStep::Finished(v) => !self.pending() && self.candidates().len() == 0
                    && forall|w: spec_fn(Seq<char>, nat) -> ConnectOutcome| v == #[trigger] self.remaining(w),
            },
    {
        if self.candidates.len() == 0 {
            ProbeStep::Finished(Ok(false))
        } else {
            ProbeStep::Connect { address: self.candidates[0].clone(), delay_ms: 0 }
        }
    }

    /// Records the outcome of the pending attempt and says what comes next. In any
    /// world that gave this outcome, the verdict still to come is unchanged.
    pub fn record(&mut self, outcome: ConnectOutcome) -> (r: ProbeStep)
        requires
            old(self).pending(),
        ensures
            final(self).candidates() == old(self).candidates(),
            final(self).attempts() == old(self).attempts(),
            match r {
                ProbeStep::Connect { address, delay_ms } => {
                    &&& final(self).pending()
                    &&& address@ == final(self).candidates()[final(self).index() as int]
                    &&& if final(self).index() == old(self).index() {
                        final(self).attempt() == old(self).attempt() + 1
                            && delay_ms == probe_backoff_ms(old(self).attempt())
                    } else {
                        final(self).index() == old(self).index() + 1 && final(self).attempt() == 0
                            && delay_ms == 0
                    }
                    &&& forall|w: spec_fn(Seq<char>, nat) -> ConnectOutcome|
                        #[trigger] w(old(self).candidates()[old(self).index() as int], old(self).attempt()) == outcome
                            ==> final(self).remaining(w) == old(self).remaining(w)
                },
                ProbeStep::Finished(v) => forall|w: spec_fn(Seq<char>, nat) -> ConnectOutcome|
                    #[trigger] w(old(self).candidates()[old(self).index() as int], old(self).attempt()) == outcome
                        ==> v == old(self).remaining(w),
            },
    {
        match outcome {
            ConnectOutcome::Connected => {
                return ProbeStep::Finished(Ok(true));
            },
            ConnectOutcome::DnsFailure(m) => {
                return ProbeStep::Finished(Err(NetworkingError::DnsResolve(m)));
            },
            ConnectOutcome::Unreachable => {},
        }
        let ghost c = old(self).candidates();
        let ghost n = old(self).attempts();
        let ghost i0 = self.index as nat;
        let ghost a0 = self.attempt as nat;
        proof {
            assert forall|w: spec_fn(Seq<char>, nat) -> ConnectOutcome|
                #[trigger] w(c[i0 as int], a0) == outcome
                    implies run_from(c, n, w, i0, a0) == run_from(c, n, w, i0, a0 + 1) by {}
            assert(self.index < self.candidates.len());
        }
        if self.attempt + 1 < self.attempts {
            let k: u64 = self.attempt as u64 + 1;
            let delay: u64 = match 200u64.checked_mul(k) {
                Some(v) => v,
                None => u64::MAX,
            };
            self.attempt = self.attempt + 1;
            ProbeStep::Connect { address: self.candidates[self.index].clone(), delay_ms: delay }
        } else if self.index + 1 < self.candidates.len() {
            self.index = self.index + 1;
            self.attempt = 0;
            proof {
                assert forall|w: spec_fn(Seq<char>, nat) -> ConnectOutcome|
                    #[trigger] w(c[i0 as int], a0) == outcome
                        implies run_from(c, n, w, i0, a0) == run_from(c, n, w, i0 + 1, 0) by {
                    assert(run_from(c, n, w, i0, a0 + 1) == run_from(c, n, w, i0 + 1, 0));
                }
            }
            ProbeStep::Connect { address: self.candidates[self.index].clone(), delay_ms: 0 }
        } else {
            proof {
                assert forall|w: spec_fn(Seq<char>, nat) -> ConnectOutcome|
                    #[trigger] w(old(self).candidates()[old(self).index() as int], old(self).attempt()) == outcome
                        implies Ok::<bool, NetworkingError>(false) == old(self).remaining(w) by {
                    let c = old(self).candidates();
                    let n = old(self).attempts();
                    assert(run_from(c, n, w, self.index as nat, self.attempt as nat + 1)
                        == run_from(c, n, w, self.index as nat + 1, 0));
                }
            }
            ProbeStep::Finished(Ok(false))
        }
    }
}

proof fn lemma_run_reaches_live(
    cands: Seq<Seq<char>>,
    attempts: nat,
    world: spec_fn(Seq<char>, nat) -> ConnectOutcome,
    i: nat,
    a: nat,
    k: nat,
)
    requires
        k < cands.len(),
        attempts > 0,
        i <= k,
        i == k ==> a < attempts,
        forall|b: nat| b < attempts ==> #[trigger] world(cands[k as int], b) is Connected,
        forall|j: nat, b: nat| i <= j < k && b < attempts ==> !(#[trigger] world(cands[j as int], b) is DnsFailure),
    ensures
        run_from(cands, attempts, world, i, a) == Ok::<bool, NetworkingError>(true),
    decreases k - i, attempts - a,
{
    if a >= attempts {
        lemma_run_reaches_live(cands, attempts, world, i + 1, 0, k);
    } else {
        match world(cands[i as int], a) {
            ConnectOutcome::Connected => {},
            ConnectOutcome::DnsFailure(_) => {
                assert(i < k);
                assert(!(world(cands[i as int], a) is DnsFailure));
            },
            ConnectOutcome::Unreachable => {
                lemma_run_reaches_live(cands, attempts, world, i, a + 1, k);
            },
        }
    }
}

/// A listener that accepts every attempt on a candidate address makes the probe
/// report the network up, provided no candidate tried before it fails to resolve.
pub proof fn lemma_live_listener_means_online(
    endpoints: Seq<Seq<char>>,
    ports: Seq<u16>,
    retries: nat,
    world: spec_fn(Seq<char>, nat) -> ConnectOutcome,
    k: nat,
)
    requires
        endpoints.len() > 0,
        ports.len() > 0,
        retries >= 1,
        k < candidate_seq(endpoints, ports).len(),
        forall|b: nat| b < retries ==> #[trigger] world(candidate_seq(endpoints, ports)[k as int], b) is Connected,
        forall|j: nat, b: nat| j < k && b < retries
            ==> !(#[trigger] world(candidate_seq(endpoints, ports)[j as int], b) is DnsFailure),
    ensures
        probe_result(endpoints, ports, retries, world) == Ok::<bool, NetworkingError>(true),
{
    lemma_run_reaches_live(candidate_seq(endpoints, ports), retries, world, 0, 0, k);
}

proof fn lemma_run_all_unreachable(
    cands: Seq<Seq<char>>,
    attempts: nat,
    world: spec_fn(Seq<char>, nat) -> ConnectOutcome,
    i: nat,
    a: nat,
)
    requires
        forall|j: nat, b: nat| j < cands.len() && b < attempts ==> #[trigger] world(cands[j as int], b) is Unreachable,
    ensures
        run_from(cands, attempts, world, i, a) == Ok::<bool, NetworkingError>(false),
    decreases cands.len() - i, attempts - a,
{
    if i >= cands.len() {
    } else if a >= attempts {
        lemma_run_all_unreachable(cands, attempts, world, i + 1, 0);
    } else {
        assert(world(cands[i as int], a) is Unreachable);
        lemma_run_all_unreachable(cands, attempts, world, i, a + 1);
    }
}

/// When every name resolves and no candidate address accepts a connection, the
/// probe reports the network down, never an error.
pub proof fn lemma_no_listener_means_offline(
    endpoints: Seq<Seq<char>>,
    ports: Seq<u16>,
    retries: nat,
    world: spec_fn(Seq<char>, nat) -> ConnectOutcome,
)
    requires
        forall|j: nat, b: nat| j < candidate_seq(endpoints, ports).len() && b < attempts_for(retries)
            ==> #[trigger] world(candidate_seq(endpoints, ports)[j as int], b) is Unreachable,
    ensures
        probe_result(endpoints, ports, retries, world) == Ok::<bool, NetworkingError>(false),
{
    lemma_run_all_unreachable(candidate_seq(endpoints, ports), attempts_for(retries), world, 0, 0);
}

proof fn lemma_run_hits_dns_failure(
    cands: Seq<Seq<char>>,
    attempts: nat,
    world: spec_fn(Seq<char>, nat) -> ConnectOutcome,
    i: nat,
    a: nat,
    k: nat,
)
    requires
        k < cands.len(),
        attempts > 0,
        i <= k,
        i == k ==> a == 0,
        world(cands[k as int], 0) is DnsFailure,
        forall|j: nat, b: nat| i <= j < k && b < attempts ==> !(#[trigger] world(cands[j as int], b) is Connected),
    ensures
        run_from(cands, attempts, world, i, a) is Err,
    decreases k - i, attempts - a,
{
    if a >= attempts {
        lemma_run_hits_dns_failure(cands, attempts, world, i + 1, 0, k);
    } else {
        match world(cands[i as int], a) {
            ConnectOutcome::Connected => {
                assert(i < k);
                assert(!(world(cands[i as int], a) is Connected));
            },
            ConnectOutcome::DnsFailure(_) => {},
            ConnectOutcome::Unreachable => {
                lemma_run_hits_dns_failure(cands, attempts, world, i, a + 1, k);
            },
        }
    }
}

/// A candidate whose name does not resolve makes the probe fail with a DNS
/// resolution error, provided no candidate tried before it accepts a connection.
pub proof fn lemma_dns_failure_is_reported(
    endpoints: Seq<Seq<char>>,
    ports: Seq<u16>,
    retries: nat,
    world: spec_fn(Seq<char>, nat) -> ConnectOutcome,
    k: nat,
)
    requires
        k < candidate_seq(endpoints, ports).len(),
        world(candidate_seq(endpoints, ports)[k as int], 0) is DnsFailure,
        forall|j: nat, b: nat| j < k && b < attempts_for(retries)
            ==> !(#[trigger] world(candidate_seq(endpoints, ports)[j as int], b) is Connected),
    ensures
        probe_result(endpoints, ports, retries, world) matches Err(NetworkingError::DnsResolve(_)),
{
    let cands = candidate_seq(endpoints, ports);
    lemma_run_hits_dns_failure(cands, attempts_for(retries), world, 0, 0, k);
    lemma_run_errors_are_dns(cands, attempts_for(retries), world, 0, 0);
}

proof fn lemma_run_errors_are_dns(
    cands: Seq<Seq<char>>,
    attempts: nat,
    world: spec_fn(Seq<char>, nat) -> ConnectOutcome,
    i: nat,
    a: nat,
)
    ensures
        run_from(cands, attempts, world, i, a) is Err
            ==> run_from(cands, attempts, world, i, a) matches Err(NetworkingError::DnsResolve(_)),
    decreases cands.len() - i, attempts - a,
{
    if i >= cands.len() {
    } else if a >= attempts {
        lemma_run_errors_are_dns(cands, attempts, world, i + 1, 0);
    } else {
        lemma_run_errors_are_dns(cands, attempts, world, i, a + 1);
    }
}

/// The text of an error, as shown to an operator.
pub open spec fn networking_error_text(e: NetworkingError) -> Seq<char> {
    match e {
        NetworkingError::DnsResolve(m) => "DNS resolution failed: "@ + m@,
        NetworkingError::Io(m) => "I/O error: "@ + m@,
    }
}

impl NetworkingError {
    /// The text shown to an operator.
    pub fn message(&self) -> (r: String)
        ensures
            r@ == networking_error_text(*self),
    {
        match self {
            NetworkingError::DnsResolve(m) => "DNS resolution failed: ".to_owned().concat(m.as_str()),
            NetworkingError::Io(m) => "I/O error: ".to_owned().concat(m.as_str()),
        }
    }
}

} // verus!
