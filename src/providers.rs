//! Identity providers and the chain that asks them in order.
//!
//! A provider is one upstream JSON endpoint; what the library knows of it is its
//! name, its URL, the fields that may carry the identity, and its retry and size
//! limits. Sending the request is the caller's part: `query_first_success` takes
//! it as a function and decides everything around it.

use vstd::prelude::*;
use crate::config::EffectiveConfig;
use crate::ip_api::{provider_error_text, texts_view, ProviderError, DEFAULT_MAX_RESPONSE_BYTES};

verus! {

/// The resolved public-network identity (historically the ISP name).
#[derive(Debug, Clone, PartialEq, Eq)]
pub struct VpnIdentity {
    pub isp: String,
}

/// The closed set of provider shapes.
#[derive(Debug, Clone, Copy, PartialEq, Eq)]
pub enum ProviderKind {
    /// ip-api.com's JSON endpoint, read from its `isp` field.
    IpApi,
    /// ifconfig.co's JSON endpoint, read from `isp` or `asn_org`.
    IfconfigCo,
    /// Any JSON endpoint, read from a preferred key, then `isp`, `asn_org`, `org`.
    GenericJson,
}

/// One identity source.
#[derive(Debug)]
pub struct Provider {
    pub kind: ProviderKind,
    pub url: String,
    pub preferred_key: Option<String>,
    pub retries: usize,
    pub max_bytes: u64,
}

/// How a provider is named in failure reports.
pub open spec fn provider_name(p: Provider) -> Seq<char> {
    match p.kind {
        ProviderKind::IpApi => "ip-api"@,
        ProviderKind::IfconfigCo => "ifconfig.co"@,
        ProviderKind::GenericJson => p.url@,
    }
}

/// The fields tried for the identity, in order.
pub open spec fn provider_keys(p: Provider) -> Seq<Seq<char>> {
    match p.kind {
        ProviderKind::IpApi => seq!["isp"@],
        ProviderKind::IfconfigCo => seq!["isp"@, "asn_org"@],
        ProviderKind::GenericJson => match p.preferred_key {
            Some(k) => seq![k@, "isp"@, "asn_org"@, "org"@],
            None => seq!["isp"@, "asn_org"@, "org"@],
        },
    }
}

impl Provider {
    /// ip-api.com, one attempt, the default size cap.
    pub fn ip_api() -> (r: Provider)
        ensures
            r.kind == ProviderKind::IpApi,
            r.url@ == "http://ip-api.com/json"@,
            r.preferred_key is None,
            r.retries == 1,
            r.max_bytes == DEFAULT_MAX_RESPONSE_BYTES,
    {
        Provider {
            kind: ProviderKind::IpApi,
            url: "http://ip-api.com/json".to_owned(),
            preferred_key: None,
            retries: 1,
            max_bytes: DEFAULT_MAX_RESPONSE_BYTES,
        }
    }

    /// ifconfig.co, one attempt, the default size cap.
    pub fn ifconfig_co() -> (r: Provider)
        ensures
            r.kind == ProviderKind::IfconfigCo,
            r.url@ == "https://ifconfig.co/json"@,
            r.preferred_key is None,
            r.retries == 1,
            r.max_bytes == DEFAULT_MAX_RESPONSE_BYTES,
    {
        Provider {
            kind: ProviderKind::IfconfigCo,
            url: "https://ifconfig.co/json".to_owned(),
            preferred_key: None,
            retries: 1,
            max_bytes: DEFAULT_MAX_RESPONSE_BYTES,
        }
    }

    /// A JSON endpoint at `url`, one attempt, the default size cap.
    pub fn generic_json(url: &str) -> (r: Provider)
        ensures
            r.kind == ProviderKind::GenericJson,
            r.url@ == url@,
            r.preferred_key is None,
            r.retries == 1,
            r.max_bytes == DEFAULT_MAX_RESPONSE_BYTES,
    {
        Provider {
            kind: ProviderKind::GenericJson,
            url: url.to_owned(),
            preferred_key: None,
            retries: 1,
            max_bytes: DEFAULT_MAX_RESPONSE_BYTES,
        }
    }

    /// The same provider, reading `key` first.
    pub fn with_key(self, key: Option<String>) -> (r: Provider)
        ensures
            r.kind == self.kind,
            r.url == self.url,
            r.preferred_key == key,
            r.retries == self.retries,
            r.max_bytes == self.max_bytes,
    {
        Provider { preferred_key: key, ..self }
    }

    /// The name used in failure reports.
    pub fn name(&self) -> (r: String)
        ensures
            r@ == provider_name(*self),
    {
        match self.kind {
            ProviderKind::IpApi => "ip-api".to_owned(),
            ProviderKind::IfconfigCo => "ifconfig.co".to_owned(),
            ProviderKind::GenericJson => self.url.clone(),
        }
    }

    /// The fields tried for the identity, in order.
    pub fn field_keys(&self) -> (r: Vec<String>)
        ensures
            texts_view(r@) == provider_keys(*self),
    {
        let mut keys: Vec<String> = Vec::new();
        match self.kind {
            ProviderKind::IpApi => {
                keys.push("isp".to_owned());
            },
            ProviderKind::IfconfigCo => {
                keys.push("isp".to_owned());
                keys.push("asn_org".to_owned());
            },
            ProviderKind::GenericJson => {
                match &self.preferred_key {
                    Some(k) => keys.push(k.clone()),
                    None => {},
                }
                keys.push("isp".to_owned());
                keys.push("asn_org".to_owned());
                keys.push("org".to_owned());
            },
        }
        assert(texts_view(keys@) =~= provider_keys(*self));
        keys
    }
}

/// The order in which providers are asked: the configured URLs as given, then
/// the custom JSON server with its key, then ip-api and ifconfig.co where enabled.
pub open spec fn chain_plan(eff: EffectiveConfig) -> Seq<(ProviderKind, Seq<char>, Option<Seq<char>>)> {
    texts_view(eff.provider_urls@).map_values(|u: Seq<char>| (ProviderKind::GenericJson, u, None::<Seq<char>>))
        + match eff.custom_json_server {
            Some(u) => seq![(ProviderKind::GenericJson, u@, match eff.custom_json_key { Some(k) => Some(k@), None => None })],
            None => Seq::empty(),
        }
        + if eff.enable_ip_api { seq![(ProviderKind::IpApi, "http://ip-api.com/json"@, None::<Seq<char>>)] } else { Seq::empty() }
        + if eff.enable_ifconfig_co { seq![(ProviderKind::IfconfigCo, "https://ifconfig.co/json"@, None::<Seq<char>>)] } else { Seq::empty() }
}

pub open spec fn provider_shape(p: Provider) -> (ProviderKind, Seq<char>, Option<Seq<char>>) {
    (p.kind, p.url@, match p.preferred_key { Some(k) => Some(k@), None => None })
}

/// The provider chain that a configuration asks for, in evaluation order.
pub fn build_provider_chain(eff: &EffectiveConfig) -> (r: Vec<Provider>)
    ensures
        r@.map_values(|p: Provider| provider_shape(p)) == chain_plan(*eff),
        forall|i: int| 0 <= i < r@.len() ==> (#[trigger] r@[i]).retries == 1 && r@[i].max_bytes
            == DEFAULT_MAX_RESPONSE_BYTES,
{
    let ghost urls = texts_view(eff.provider_urls@);
    let mut chain: Vec<Provider> = Vec::new();
    let mut i: usize = 0;
    while i < eff.provider_urls.len()
        invariant
            i <= eff.provider_urls.len(),
            urls == texts_view(eff.provider_urls@),
            chain@.map_values(|p: Provider| provider_shape(p)) == urls.take(i as int).map_values(
                |u: Seq<char>| (ProviderKind::GenericJson, u, None::<Seq<char>>)),
            forall|j: int| 0 <= j < chain@.len() ==> (#[trigger] chain@[j]).retries == 1 && chain@[j].max_bytes
                == DEFAULT_MAX_RESPONSE_BYTES,
        decreases eff.provider_urls.len() - i,
    {
        let p = Provider::generic_json(eff.provider_urls[i].as_str());
        let ghost prev = chain@;
        let ghost pv = p;
        let ghost shape = provider_shape(p);
        chain.push(p);
        proof {
            assert(shape == (ProviderKind::GenericJson, urls[i as int], None::<Seq<char>>));
            assert(chain@ =~= prev.push(pv));
            assert(chain@.map_values(|p: Provider| provider_shape(p)) =~= prev.map_values(
                |p: Provider| provider_shape(p)).push(shape));
            assert(urls.take(i + 1) =~= urls.take(i as int).push(urls[i as int]));
            assert(chain@.map_values(|p: Provider| provider_shape(p)) =~= urls.take(i + 1).map_values(
                |u: Seq<char>| (ProviderKind::GenericJson, u, None::<Seq<char>>)));
        }
        i = i + 1;
    }
    proof {
        assert(urls.take(i as int) =~= urls);
    }
    let ghost base = chain@.map_values(|p: Provider| provider_shape(p));
    match &eff.custom_json_server {
        Some(u) => {
            let key = match &eff.custom_json_key {
                Some(k) => Some(k.clone()),
                None => None,
            };
            chain.push(Provider::generic_json(u.as_str()).with_key(key));
        },
        None => {},
    }
    let ghost with_custom = chain@.map_values(|p: Provider| provider_shape(p));
    proof {
        assert(with_custom =~= base + match eff.custom_json_server {
            Some(u) => seq![(ProviderKind::GenericJson, u@, match eff.custom_json_key { Some(k) => Some(k@), None => None })],
            None => Seq::empty(),
        });
    }
    if eff.enable_ip_api {
        chain.push(Provider::ip_api());
    }
    let ghost with_ip_api = chain@.map_values(|p: Provider| provider_shape(p));
    proof {
        assert(with_ip_api =~= with_custom + if eff.enable_ip_api {
            seq![(ProviderKind::IpApi, "http://ip-api.com/json"@, None::<Seq<char>>)]
        } else {
            Seq::empty()
        });
    }
    if eff.enable_ifconfig_co {
        chain.push(Provider::ifconfig_co());
    }
    proof {
        assert(chain@.map_values(|p: Provider| provider_shape(p)) =~= with_ip_api + if eff.enable_ifconfig_co {
            seq![(ProviderKind::IfconfigCo, "https://ifconfig.co/json"@, None::<Seq<char>>)]
        } else {
            Seq::empty()
        });
    }
    chain
}

/// One provider's failure in a chain.
#[derive(Debug, Clone, PartialEq, Eq)]
pub struct ProviderFailure {
    pub provider: String,
    pub error: ProviderError,
}

/// Every provider of the chain failed.
#[derive(Debug, Clone, PartialEq, Eq)]
pub enum ChainError {
    /// The chain was empty.
    NoProviders,
    /// Each provider's failure, in chain order.
    Exhausted(Vec<ProviderFailure>),
}

/// The answers a chain sees from the providers it asked, in order: none but the
/// last may be a success, and it stops before the end only after a success.
pub open spec fn chain_stops_at_success(n: nat, obs: Seq<Result<VpnIdentity, ProviderError>>) -> bool {
    &&& obs.len() <= n
    &&& forall|k: int| 0 <= k < obs.len() - 1 ==> (#[trigger] obs[k]) is Err
    &&& obs.len() < n ==> obs.len() > 0 && obs.last() is Ok
}

/// The index of the first success among `answers`.
pub open spec fn first_success(answers: Seq<Result<VpnIdentity, ProviderError>>) -> Option<nat>
    decreases answers.len(),
{
    if answers.len() == 0 {
        None
    } else if answers[0] is Ok {
        Some(0)
    } else {
        match first_success(answers.drop_first()) {
            Some(k) => Some(k + 1),
            None => None,
        }
    }
}

/// What a chain returns after seeing `obs` from the providers `providers`.
pub open spec fn chain_verdict(providers: Seq<Provider>, obs: Seq<Result<VpnIdentity, ProviderError>>, r: Result<VpnIdentity, ChainError>) -> bool {
    match r {
        Ok(id) => obs.len() > 0 && obs.last() == Ok::<VpnIdentity, ProviderError>(id),
        Err(ChainError::NoProviders) => providers.len() == 0,
        Err(ChainError::Exhausted(fs)) => {
            &&& providers.len() > 0
            &&& obs.len() == providers.len()
            &&& fs@.len() == obs.len()
            &&& forall|k: int| 0 <= k < fs@.len() ==> (#[trigger] fs@[k]).provider@ == provider_name(providers[k])
                && obs[k] == Err::<VpnIdentity, ProviderError>(fs@[k].error)
        },
    }
}

/// Asks `providers` in order through `query` and returns the first identity
/// found; no provider after it is asked. When all fail, the failures of all,
/// each with its provider's name.
pub fn query_first_success<F>(providers: &Vec<Provider>, query: F) -> (r: Result<VpnIdentity, ChainError>)
    where
        F: Fn(&Provider) -> Result<VpnIdentity, ProviderError>,
    requires
        forall|p: &Provider| #[trigger] query.requires((p,)),
    ensures
        exists|obs: Seq<Result<VpnIdentity, ProviderError>>| {
            &&& chain_stops_at_success(providers@.len(), obs)
            &&& forall|k: int| 0 <= k < obs.len() ==> query.ensures((&providers@[k],), #[trigger] obs[k])
            &&& chain_verdict(providers@, obs, r)
        },
{
    let ghost mut obs: Seq<Result<VpnIdentity, ProviderError>> = Seq::empty();
    let mut failures: Vec<ProviderFailure> = Vec::new();
    let mut i: usize = 0;
    while i < providers.len()
        invariant
            i <= providers.len(),
            obs.len() == i,
            failures@.len() == i,
            forall|p: &Provider| #[trigger] query.requires((p,)),
            forall|k: int| 0 <= k < obs.len() ==> query.ensures((&providers@[k],), #[trigger] obs[k]),
            forall|k: int| 0 <= k < obs.len() ==> (#[trigger] obs[k]) is Err,
            forall|k: int| 0 <= k < failures@.len() ==> (#[trigger] failures@[k]).provider@ == provider_name(
                providers@[k]) && obs[k] == Err::<VpnIdentity, ProviderError>(failures@[k].error),
        decreases providers.len() - i,
    {
        let answer = query(&providers[i]);
        proof {
            obs = obs.push(answer);
        }
        match answer {
            Ok(id) => {
                let r: Result<VpnIdentity, ChainError> = Ok(id);
                proof {
                    assert(chain_stops_at_success(providers@.len(), obs));
                    assert(chain_verdict(providers@, obs, r));
                }
                return r;
            },
            Err(e) => {
                failures.push(ProviderFailure { provider: providers[i].name(), error: e });
            },
        }
        i = i + 1;
    }
    let r: Result<VpnIdentity, ChainError> = if providers.len() == 0 {
        Err(ChainError::NoProviders)
    } else {
        Err(ChainError::Exhausted(failures))
    };
    proof {
        assert(chain_stops_at_success(providers@.len(), obs));
        assert(chain_verdict(providers@, obs, r));
    }
    r
}

/// Asked in order, a chain asks the providers up to and including the first one
/// that answers with an identity, none after it, and returns that identity;
/// when none does, it asks them all.
pub proof fn lemma_first_success_wins(
    answers: Seq<Result<VpnIdentity, ProviderError>>,
    obs: Seq<Result<VpnIdentity, ProviderError>>,
)
    requires
        chain_stops_at_success(answers.len(), obs),
        obs =~= answers.take(obs.len() as int),
    ensures
        match first_success(answers) {
            Some(k) => obs.len() == k + 1 && obs.last() == answers[k as int],
            None => obs.len() == answers.len(),
        },
    decreases answers.len(),
{
    if answers.len() == 0 {
    } else if answers[0] is Ok {
        if obs.len() == 0 {
            assert(obs.len() < answers.len());
        } else if obs.len() > 1 {
            assert(obs[0] == answers[0]);
            assert(obs[0] is Err);
        }
    } else {
        if obs.len() == 0 {
            assert(obs.len() < answers.len());
        } else if obs.len() == 1 && obs.len() < answers.len() {
            assert(obs.last() == answers[0]);
        } else {
            let rest = obs.drop_first();
            let tail = answers.drop_first();
            assert(rest =~= tail.take(rest.len() as int));
            assert forall|k: int| 0 <= k < rest.len() - 1 implies (#[trigger] rest[k]) is Err by {
                assert(rest[k] == obs[k + 1]);
            }
            if rest.len() < tail.len() {
                assert(rest.last() == obs.last());
            }
            lemma_first_success_wins(tail, rest);
            match first_success(tail) {
                Some(k) => {
                    assert(obs.last() == rest.last());
                    assert(answers[k + 1 as int] == tail[k as int]);
                },
                None => {},
            }
        }
    }
}

/// The text of a chain failure: the last provider's name and error.
pub open spec fn chain_error_text(e: ChainError) -> Seq<char> {
    match e {
        ChainError::NoProviders => "no providers configured"@,
        ChainError::Exhausted(fs) => if fs@.len() == 0 {
            "no providers configured"@
        } else {
            fs@.last().provider@ + ": "@ + provider_error_text(fs@.last().error)
        },
    }
}

impl ChainError {
    /// The text shown to an operator: the last failure, as `name: error`.
    pub fn message(&self) -> (r: String)
        ensures
            r@ == chain_error_text(*self),
    {
        match self {
            ChainError::NoProviders => "no providers configured".to_owned(),
            ChainError::Exhausted(fs) => {
                if fs.len() == 0 {
                    "no providers configured".to_owned()
                } else {
                    let last = &fs[fs.len() - 1];
                    let mut t = last.provider.clone();
                    t.append(": ");
                    t.append(last.error.message().as_str());
                    t
                }
            },
        }
    }
}

} // verus!
