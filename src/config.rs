//! Configuration values: the command-line overrides, the file settings, how the
//! two are merged over the defaults, and the checks a merged value must pass.

use vstd::prelude::*;
use crate::ip_api::texts_view;
use crate::networking::{default_ports, DEFAULT_RETRIES, DEFAULT_TIMEOUT_SECS};
use crate::text::{is_blank, same_text, text_is_blank};

verus! {

/// Seconds between checks when nothing else says.
pub const DEFAULT_INTERVAL_SECS: u64 = 60;

/// Exit code for a configuration that fails validation.
pub const EXIT_INVALID_CONFIG: i32 = 2;
/// Exit code for a name-resolution failure while probing, when fatal.
pub const EXIT_CONNECTIVITY_DNS: i32 = 3;
/// Exit code for an unreachable network, when fatal.
pub const EXIT_CONNECTIVITY_FAILURE: i32 = 4;
/// Exit code for an identity that could not be resolved, when fatal.
pub const EXIT_ISP_FAILURE: i32 = 5;

/// Values given on the command line; each one overrides the file.
#[derive(Debug, Clone)]
pub struct Args {
    pub interval: Option<u64>,
    pub isp_to_check: Option<String>,
    pub vpn_lost_action_type: Option<String>,
    pub vpn_lost_action_arg: Option<String>,
    pub dry_run: bool,
    pub connectivity_endpoints: Option<Vec<String>>,
    pub connectivity_ports: Option<Vec<u16>>,
    pub connectivity_timeout_secs: Option<u64>,
    pub connectivity_retries: Option<usize>,
    pub run_once: bool,
    pub verbose: u8,
    pub config: Option<String>,
    pub enable_metrics: bool,
    pub metrics_addr: String,
    pub exit_on_error: bool,
}

/// Settings read from the configuration file; absent ones fall back.
#[derive(Debug, Clone, PartialEq, Eq)]
pub struct Config {
    pub interval: Option<u64>,
    pub isp_to_check: Option<String>,
    pub vpn_lost_action_type: Option<String>,
    pub vpn_lost_action_arg: Option<String>,
    pub dry_run: Option<bool>,
    pub exit_on_error: Option<bool>,
    pub connectivity_endpoints: Option<Vec<String>>,
    pub connectivity_ports: Option<Vec<u16>>,
    pub connectivity_timeout_secs: Option<u64>,
    pub connectivity_retries: Option<usize>,
    pub enable_ip_api: Option<bool>,
    pub enable_ifconfig_co: Option<bool>,
    pub provider_urls: Option<Vec<String>>,
    pub custom_json_server: Option<String>,
    pub custom_json_key: Option<String>,
}

/// The configuration in force after merging.
#[derive(Debug, Clone)]
pub struct EffectiveConfig {
    pub interval: u64,
    pub isp_to_check: String,
    pub action_type: String,
    pub action_arg: String,
    pub dry_run: bool,
    pub connectivity_endpoints: Vec<String>,
    pub connectivity_ports: Vec<u16>,
    pub connectivity_timeout_secs: u64,
    pub connectivity_retries: usize,
    pub run_once: bool,
    pub exit_on_error: bool,
    pub enable_ip_api: bool,
    pub enable_ifconfig_co: bool,
    pub provider_urls: Vec<String>,
    pub custom_json_server: Option<String>,
    pub custom_json_key: Option<String>,
}

/// The first value present: the command line's, then the file's, then `fallback`.
pub open spec fn layered<T>(cli: Option<T>, file: Option<T>, fallback: T) -> T {
    match cli {
        Some(v) => v,
        None => match file {
            Some(v) => v,
            None => fallback,
        },
    }
}

pub open spec fn opt_view(o: Option<String>) -> Option<Seq<char>> {
    match o {
        Some(s) => Some(s@),
        None => None,
    }
}

pub open spec fn opt_texts_view(o: Option<Vec<String>>) -> Option<Seq<Seq<char>>> {
    match o {
        Some(v) => Some(texts_view(v@)),
        None => None,
    }
}

pub open spec fn opt_ports_view(o: Option<Vec<u16>>) -> Option<Seq<u16>> {
    match o {
        Some(v) => Some(v@),
        None => None,
    }
}

pub open spec fn default_isp() -> Seq<char> {
    "Hutchison 3G UK Ltd"@
}

pub open spec fn default_action_type() -> Seq<char> {
    "reboot"@
}

pub open spec fn default_action_arg() -> Seq<char> {
    "/sbin/shutdown -r now"@
}

pub open spec fn default_endpoints() -> Seq<Seq<char>> {
    seq!["8.8.8.8"@, "google.com"@]
}

fn copy_texts(v: &Vec<String>) -> (r: Vec<String>)
    ensures
        r@ == v@,
{
    let r = v.clone();
    assert(r@ =~= v@);
    r
}

fn copy_ports(v: &Vec<u16>) -> (r: Vec<u16>)
    ensures
        r@ == v@,
{
    let r = v.clone();
    assert(r@ =~= v@);
    r
}

fn copy_opt_text(o: &Option<String>) -> (r: Option<String>)
    ensures
        r == *o,
{
    match o {
        Some(s) => Some(s.clone()),
        None => None,
    }
}

fn layer_text(cli: &Option<String>, file: &Option<String>, fallback: &str) -> (r: String)
    ensures
        r@ == layered(opt_view(*cli), opt_view(*file), fallback@),
{
    match cli {
        Some(s) => s.clone(),
        None => match file {
            Some(s) => s.clone(),
            None => fallback.to_owned(),
        },
    }
}

fn layer_texts(cli: &Option<Vec<String>>, file: &Option<Vec<String>>, fallback: Vec<String>) -> (r: Vec<String>)
    ensures
        texts_view(r@) == layered(opt_texts_view(*cli), opt_texts_view(*file), texts_view(fallback@)),
{
    match cli {
        Some(v) => copy_texts(v),
        None => match file {
            Some(v) => copy_texts(v),
            None => fallback,
        },
    }
}

fn layer_ports(cli: &Option<Vec<u16>>, file: &Option<Vec<u16>>, fallback: Vec<u16>) -> (r: Vec<u16>)
    ensures
        r@ == layered(opt_ports_view(*cli), opt_ports_view(*file), fallback@),
{
    match cli {
        Some(v) => copy_ports(v),
        None => match file {
            Some(v) => copy_ports(v),
            None => fallback,
        },
    }
}

fn default_endpoint_list() -> (r: Vec<String>)
    ensures
        texts_view(r@) == default_endpoints(),
{
    let mut v: Vec<String> = Vec::new();
    v.push("8.8.8.8".to_owned());
    v.push("google.com".to_owned());
    assert(texts_view(v@) =~= default_endpoints());
    v
}

/// `r` is `cfg` merged under `args` over the defaults.
pub open spec fn merged_from(cfg: Config, args: Args, r: EffectiveConfig) -> bool {
    &&& r.interval == layered(args.interval, cfg.interval, DEFAULT_INTERVAL_SECS)
    &&& r.isp_to_check@ == layered(opt_view(args.isp_to_check), opt_view(cfg.isp_to_check), default_isp())
    &&& r.action_type@ == layered(opt_view(args.vpn_lost_action_type), opt_view(cfg.vpn_lost_action_type),
            default_action_type())
    &&& r.action_arg@ == layered(opt_view(args.vpn_lost_action_arg), opt_view(cfg.vpn_lost_action_arg),
            default_action_arg())
    &&& r.dry_run == (args.dry_run || cfg.dry_run == Some(true))
    &&& texts_view(r.connectivity_endpoints@) == layered(opt_texts_view(args.connectivity_endpoints),
            opt_texts_view(cfg.connectivity_endpoints), default_endpoints())
    &&& r.connectivity_ports@ == layered(opt_ports_view(args.connectivity_ports),
            opt_ports_view(cfg.connectivity_ports), seq![443u16, 53u16, 80u16])
    &&& r.connectivity_timeout_secs == layered(args.connectivity_timeout_secs,
            cfg.connectivity_timeout_secs, DEFAULT_TIMEOUT_SECS)
    &&& r.connectivity_retries == layered(args.connectivity_retries, cfg.connectivity_retries,
            DEFAULT_RETRIES)
    &&& r.run_once == args.run_once
    &&& r.exit_on_error == (args.exit_on_error || cfg.exit_on_error == Some(true))
    &&& r.enable_ip_api == (cfg.enable_ip_api != Some(false))
    &&& r.enable_ifconfig_co == (cfg.enable_ifconfig_co != Some(false))
    &&& texts_view(r.provider_urls@) == match cfg.provider_urls {
        Some(v) => texts_view(v@),
        None => Seq::empty(),
    }
    &&& r.custom_json_server == cfg.custom_json_server
    &&& r.custom_json_key == cfg.custom_json_key
}

impl Config {
    /// Merges the command line over this file configuration over the defaults.
    pub fn merge_with_args(&self, args: &Args) -> (r: EffectiveConfig)
        ensures
            merged_from(*self, *args, r),
    {
        let interval = match args.interval {
            Some(v) => v,
            None => match self.interval {
                Some(v) => v,
                None => DEFAULT_INTERVAL_SECS,
            },
        };
        let isp_to_check = layer_text(&args.isp_to_check, &self.isp_to_check, "Hutchison 3G UK Ltd");
        let action_type = layer_text(&args.vpn_lost_action_type, &self.vpn_lost_action_type, "reboot");
        let action_arg = layer_text(&args.vpn_lost_action_arg, &self.vpn_lost_action_arg, "/sbin/shutdown -r now");
        let dry_run = if args.dry_run {
            true
        } else {
            match self.dry_run {
                Some(b) => b,
                None => false,
            }
        };
        let connectivity_endpoints = layer_texts(&args.connectivity_endpoints, &self.connectivity_endpoints,
            default_endpoint_list());
        let connectivity_ports = layer_ports(&args.connectivity_ports, &self.connectivity_ports, default_ports());
        let connectivity_timeout_secs = match args.connectivity_timeout_secs {
            Some(v) => v,
            None => match self.connectivity_timeout_secs {
                Some(v) => v,
                None => DEFAULT_TIMEOUT_SECS,
            },
        };
        let connectivity_retries = match args.connectivity_retries {
            Some(v) => v,
            None => match self.connectivity_retries {
                Some(v) => v,
                None => DEFAULT_RETRIES,
            },
        };
        let exit_on_error = if args.exit_on_error {
            true
        } else {
            match self.exit_on_error {
                Some(b) => b,
                None => false,
            }
        };
        let enable_ip_api = match self.enable_ip_api {
            Some(b) => b,
            None => true,
        };
        let enable_ifconfig_co = match self.enable_ifconfig_co {
            Some(b) => b,
            None => true,
        };
        let provider_urls = match &self.provider_urls {
            Some(v) => copy_texts(v),
            None => {
                let none: Vec<String> = Vec::new();
                assert(texts_view(none@) =~= Seq::<Seq<char>>::empty());
                none
            },
        };
        EffectiveConfig {
            interval,
            isp_to_check,
            action_type,
            action_arg,
            dry_run,
            connectivity_endpoints,
            connectivity_ports,
            connectivity_timeout_secs,
            connectivity_retries,
            run_once: args.run_once,
            exit_on_error,
            enable_ip_api,
            enable_ifconfig_co,
            provider_urls,
            custom_json_server: copy_opt_text(&self.custom_json_server),
            custom_json_key: copy_opt_text(&self.custom_json_key),
        }
    }
}

/// One or more reasons why a configuration is rejected, in check order.
#[derive(Debug, PartialEq, Eq)]
pub struct ValidationErrors(pub Vec<String>);

/// The reasons joined with `"; "`.
pub open spec fn joined(parts: Seq<Seq<char>>) -> Seq<char>
    decreases parts.len(),
{
    if parts.len() == 0 {
        Seq::empty()
    } else if parts.len() == 1 {
        parts[0]
    } else {
        joined(parts.drop_last()) + "; "@ + parts.last()
    }
}

impl ValidationErrors {
    /// The reasons, joined with `"; "`.
    pub fn to_string(&self) -> (r: String)
        ensures
            r@ == joined(texts_view(self.0@)),
    {
        let ghost parts = texts_view(self.0@);
        let mut out = String::new();
        let mut i: usize = 0;
        while i < self.0.len()
            invariant
                i <= self.0.len(),
                parts == texts_view(self.0@),
                out@ == joined(parts.take(i as int)),
            decreases self.0.len() - i,
        {
            proof {
                assert(parts.take(i + 1).drop_last() =~= parts.take(i as int));
            }
            if i > 0 {
                out.append("; ");
            }
            out.append(self.0[i].as_str());
            proof {
                if i == 0 {
                    assert(out@ =~= parts.take(1)[0]);
                } else {
                    assert(out@ =~= joined(parts.take(i as int)) + "; "@ + parts.take(i + 1).last());
                }
            }
            i = i + 1;
        }
        proof {
            assert(parts.take(i as int) =~= parts);
        }
        out
    }
}

pub open spec fn is_known_action_type(t: Seq<char>) -> bool {
    t == "reboot"@ || t == "restart-unit"@ || t == "command"@
}

/// The reasons to reject a configuration, in check order.
pub open spec fn validation_messages(
    interval: u64,
    isp: Seq<char>,
    action_type: Seq<char>,
    action_arg: Seq<char>,
    endpoints: Seq<Seq<char>>,
    ports: Seq<u16>,
    timeout_secs: u64,
    retries: usize,
) -> Seq<Seq<char>> {
    let m1 = if interval == 0 { seq!["interval must be greater than zero"@] } else { Seq::empty() };
    let m2 = if is_blank(isp) { seq!["isp_to_check must be a non-empty string"@] } else { Seq::empty() };
    let m3 = if !is_known_action_type(action_type) {
        seq!["vpn_lost_action_type must be one of: reboot, restart-unit, command"@]
    } else {
        Seq::empty()
    };
    let m4 = if (action_type == "restart-unit"@ || action_type == "command"@) && is_blank(action_arg) {
        seq!["vpn_lost_action_arg must be provided for restart-unit and command action types"@]
    } else {
        Seq::empty()
    };
    let m5 = if endpoints.len() == 0 {
        seq!["connectivity_endpoints must include at least one endpoint"@]
    } else if exists|i: int| 0 <= i < endpoints.len() && is_blank(#[trigger] endpoints[i]) {
        seq!["connectivity_endpoints contains an empty string"@]
    } else {
        Seq::empty()
    };
    let m6 = if ports.len() == 0 { seq!["connectivity_ports must include at least one port"@] } else { Seq::empty() };
    let m7 = if timeout_secs == 0 {
        seq!["connectivity_timeout_secs must be greater than zero"@]
    } else {
        Seq::empty()
    };
    let m8 = if retries == 0 { seq!["connectivity_retries must be at least 1"@] } else { Seq::empty() };
    m1 + m2 + m3 + m4 + m5 + m6 + m7 + m8
}

fn push_if(errors: &mut Vec<String>, cond: bool, msg: &str)
    ensures
        texts_view(final(errors)@) == texts_view(old(errors)@) + if cond { seq![msg@] } else { Seq::empty() },
{
    let ghost before = texts_view(errors@);
    if cond {
        errors.push(msg.to_owned());
        assert(texts_view(errors@) =~= before + seq![msg@]);
    } else {
        assert(before + Seq::<Seq<char>>::empty() =~= before);
    }
}

fn any_blank(items: &[String]) -> (r: bool)
    ensures
        r == exists|i: int| 0 <= i < items@.len() && is_blank(#[trigger] items@[i]@),
{
    let mut i: usize = 0;
    while i < items.len()
        invariant
            i <= items@.len(),
            forall|j: int| 0 <= j < i ==> !is_blank(#[trigger] items@[j]@),
        decreases items@.len() - i,
    {
        if text_is_blank(items[i].as_str()) {
            return true;
        }
        i = i + 1;
    }
    false
}

/// Checks merged configuration values. `Ok` exactly when no check fails;
/// otherwise every failing check's reason, in order.
pub fn validate_values(
    interval: u64,
    isp: &str,
    action_type: &str,
    action_arg: &str,
    connectivity_endpoints: &[String],
    connectivity_ports: &[u16],
    connectivity_timeout_secs: u64,
    connectivity_retries: usize,
) -> (r: Result<(), ValidationErrors>)
    ensures
        ({
            let msgs = validation_messages(interval, isp@, action_type@, action_arg@,
                texts_view(connectivity_endpoints@), connectivity_ports@, connectivity_timeout_secs,
                connectivity_retries);
            match r {
                Ok(()) => msgs.len() == 0,
                Err(e) => msgs.len() > 0 && texts_view(e.0@) == msgs,
            }
        }),
{
    proof {
        reveal_strlit("reboot");
        reveal_strlit("restart-unit");
        reveal_strlit("command");
    }
    let mut errors: Vec<String> = Vec::new();
    push_if(&mut errors, interval == 0, "interval must be greater than zero");
    push_if(&mut errors, text_is_blank(isp), "isp_to_check must be a non-empty string");
    let is_reboot = same_text(action_type, "reboot");
    let is_restart = same_text(action_type, "restart-unit");
    let is_command = same_text(action_type, "command");
    push_if(&mut errors, !(is_reboot || is_restart || is_command),
        "vpn_lost_action_type must be one of: reboot, restart-unit, command");
    let needs_arg = is_restart || is_command;
    push_if(&mut errors, needs_arg && text_is_blank(action_arg),
        "vpn_lost_action_arg must be provided for restart-unit and command action types");
    if connectivity_endpoints.len() == 0 {
        push_if(&mut errors, true, "connectivity_endpoints must include at least one endpoint");
    } else {
        let blank = any_blank(connectivity_endpoints);
        proof {
            if blank {
                let j = choose|j: int| 0 <= j < connectivity_endpoints@.len() && is_blank(#[trigger] connectivity_endpoints@[j]@);
                assert(is_blank(texts_view(connectivity_endpoints@)[j]));
            } else {
                assert forall|j: int| 0 <= j < texts_view(connectivity_endpoints@).len()
                    implies !is_blank(#[trigger] texts_view(connectivity_endpoints@)[j]) by {
                    assert(texts_view(connectivity_endpoints@)[j] == connectivity_endpoints@[j]@);
                }
            }
        }
        push_if(&mut errors, blank, "connectivity_endpoints contains an empty string");
    }
    push_if(&mut errors, connectivity_ports.len() == 0, "connectivity_ports must include at least one port");
    push_if(&mut errors, connectivity_timeout_secs == 0, "connectivity_timeout_secs must be greater than zero");
    push_if(&mut errors, connectivity_retries == 0, "connectivity_retries must be at least 1");
    proof {
        let msgs = validation_messages(interval, isp@, action_type@, action_arg@,
            texts_view(connectivity_endpoints@), connectivity_ports@, connectivity_timeout_secs,
            connectivity_retries);
        assert(texts_view(errors@) =~= msgs);
    }
    if errors.len() == 0 {
        Ok(())
    } else {
        Err(ValidationErrors(errors))
    }
}

impl Config {
    /// The same checks as [`validate_values`].
    pub fn validate_values(
        interval: u64,
        isp: &str,
        action_type: &str,
        action_arg: &str,
        connectivity_endpoints: &[String],
        connectivity_ports: &[u16],
        connectivity_timeout_secs: u64,
        connectivity_retries: usize,
    ) -> (r: Result<(), ValidationErrors>)
        ensures
            ({
                let msgs = validation_messages(interval, isp@, action_type@, action_arg@,
                    texts_view(connectivity_endpoints@), connectivity_ports@, connectivity_timeout_secs,
                    connectivity_retries);
                match r {
                    Ok(()) => msgs.len() == 0,
                    Err(e) => msgs.len() > 0 && texts_view(e.0@) == msgs,
                }
            }),
    {
        validate_values(interval, isp, action_type, action_arg, connectivity_endpoints, connectivity_ports,
            connectivity_timeout_secs, connectivity_retries)
    }

    /// The built-in settings, every field present.
    pub fn default() -> (r: Config)
        ensures
            r.interval == Some(DEFAULT_INTERVAL_SECS),
            opt_view(r.isp_to_check) == Some(default_isp()),
            opt_view(r.vpn_lost_action_type) == Some(default_action_type()),
            opt_view(r.vpn_lost_action_arg) == Some(default_action_arg()),
            r.dry_run == Some(false),
            r.exit_on_error == Some(false),
            opt_texts_view(r.connectivity_endpoints) == Some(default_endpoints()),
            opt_ports_view(r.connectivity_ports) == Some(seq![443u16, 53u16, 80u16]),
            r.connectivity_timeout_secs == Some(DEFAULT_TIMEOUT_SECS),
            r.connectivity_retries == Some(DEFAULT_RETRIES),
            r.enable_ip_api == Some(true),
            r.enable_ifconfig_co == Some(true),
            opt_texts_view(r.provider_urls) == Some(Seq::<Seq<char>>::empty()),
            r.custom_json_server is None,
            r.custom_json_key is None,
    {
        let urls: Vec<String> = Vec::new();
        assert(texts_view(urls@) =~= Seq::<Seq<char>>::empty());
        Config {
            interval: Some(DEFAULT_INTERVAL_SECS),
            isp_to_check: Some("Hutchison 3G UK Ltd".to_owned()),
            vpn_lost_action_type: Some("reboot".to_owned()),
            vpn_lost_action_arg: Some("/sbin/shutdown -r now".to_owned()),
            dry_run: Some(false),
            exit_on_error: Some(false),
            connectivity_endpoints: Some(default_endpoint_list()),
            connectivity_ports: Some(default_ports()),
            connectivity_timeout_secs: Some(DEFAULT_TIMEOUT_SECS),
            connectivity_retries: Some(DEFAULT_RETRIES),
            enable_ip_api: Some(true),
            enable_ifconfig_co: Some(true),
            provider_urls: Some(urls),
            custom_json_server: None,
            custom_json_key: None,
        }
    }
}

/// The reasons to reject an effective configuration.
pub open spec fn effective_messages(e: EffectiveConfig) -> Seq<Seq<char>> {
    validation_messages(e.interval, e.isp_to_check@, e.action_type@, e.action_arg@,
        texts_view(e.connectivity_endpoints@), e.connectivity_ports@, e.connectivity_timeout_secs,
        e.connectivity_retries)
}

impl Config {
    /// Merges the command line over this file configuration and checks the
    /// result: the effective configuration when every check passes, else the
    /// reasons it is rejected.
    pub fn merge_and_validate(&self, args: &Args) -> (r: Result<EffectiveConfig, ValidationErrors>)
        ensures
            match r {
                Ok(e) => merged_from(*self, *args, e) && effective_messages(e).len() == 0,
                Err(v) => exists|e: EffectiveConfig| #[trigger] merged_from(*self, *args, e)
                    && effective_messages(e).len() > 0 && texts_view(v.0@) == effective_messages(e),
            },
    {
        let eff = self.merge_with_args(args);
        match validate_values(eff.interval, eff.isp_to_check.as_str(), eff.action_type.as_str(),
            eff.action_arg.as_str(), eff.connectivity_endpoints.as_slice(), eff.connectivity_ports.as_slice(),
            eff.connectivity_timeout_secs, eff.connectivity_retries) {
            Ok(()) => Ok(eff),
            Err(v) => Err(v),
        }
    }
}

} // verus!
