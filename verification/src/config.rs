//! The configuration of the agent: its fields, the defaults, the rules that
//! a configuration must meet before the agent starts, and how one is made
//! from the answers given at setup.

use crate::collectors::device_info::{trim, Platform};
use crate::text::{chars_of, slice_text_of, trimmed};
use vstd::prelude::*;
use vstd::string::StringExecFns;

verus! {

/// The configuration for one run of the agent.
#[derive(Debug)]
pub struct Config {
    /// The key that authenticates a push.
    pub api_key: String,
    pub device_id: String,
    pub device_name: String,
    /// Where snapshots are pushed to.
    pub endpoint: String,
    /// Seconds between two pushes.
    pub interval: u64,
    /// Whether the pull endpoint is served.
    pub prometheus_enabled: bool,
    /// The port of the pull endpoint.
    pub prometheus_port: u16,
    /// Whether snapshots are pushed.
    pub push_enabled: bool,
}

/// A configuration with its texts as sequences of characters.
pub struct ConfigView {
    pub api_key: Seq<char>,
    pub device_id: Seq<char>,
    pub device_name: Seq<char>,
    pub endpoint: Seq<char>,
    pub interval: u64,
    pub prometheus_enabled: bool,
    pub prometheus_port: u16,
    pub push_enabled: bool,
}

impl View for Config {
    type V = ConfigView;

    open spec fn view(&self) -> ConfigView {
        ConfigView {
            api_key: self.api_key@,
            device_id: self.device_id@,
            device_name: self.device_name@,
            endpoint: self.endpoint@,
            interval: self.interval,
            prometheus_enabled: self.prometheus_enabled,
            prometheus_port: self.prometheus_port,
            push_enabled: self.push_enabled,
        }
    }
}

/// The endpoint of the hosted service.
pub open spec fn production_endpoint() -> Seq<char> {
    "https://app.naarad.dev/api/devices/metrics/ingest"@
}

/// The endpoint of a service on the developer's own machine.
pub open spec fn development_endpoint() -> Seq<char> {
    "http://localhost:5001/api/devices/metrics/ingest"@
}

/// The interval between two pushes where none is configured, in seconds.
pub const DEFAULT_INTERVAL: u64 = 60;

/// The port of the pull endpoint where none is configured.
pub const DEFAULT_PORT: u16 = 9101;

/// The configuration before setup: no key and no device yet, the hosted
/// service, and both ways of delivery switched on.
pub open spec fn default_config() -> ConfigView {
    ConfigView {
        api_key: Seq::empty(),
        device_id: Seq::empty(),
        device_name: Seq::empty(),
        endpoint: production_endpoint(),
        interval: DEFAULT_INTERVAL,
        prometheus_enabled: true,
        prometheus_port: DEFAULT_PORT,
        push_enabled: true,
    }
}

impl Default for Config {
    fn default() -> (r: Self)
        ensures
            r@ == default_config(),
    {
        Config {
            api_key: String::new(),
            device_id: String::new(),
            device_name: String::new(),
            endpoint: "https://app.naarad.dev/api/devices/metrics/ingest".to_owned(),
            interval: DEFAULT_INTERVAL,
            prometheus_enabled: true,
            prometheus_port: DEFAULT_PORT,
            push_enabled: true,
        }
    }
}

impl Clone for Config {
    fn clone(&self) -> (r: Self)
        ensures
            r@ == self@,
    {
        Config {
            api_key: self.api_key.clone(),
            device_id: self.device_id.clone(),
            device_name: self.device_name.clone(),
            endpoint: self.endpoint.clone(),
            interval: self.interval,
            prometheus_enabled: self.prometheus_enabled,
            prometheus_port: self.prometheus_port,
            push_enabled: self.push_enabled,
        }
    }
}

/// Why a configuration cannot be run with.
#[derive(Clone, Copy, Debug, PartialEq, Eq, Structural)]
pub enum ConfigInvalid {
    /// The interval between two pushes is zero.
    ZeroInterval,
    /// Pushing is switched on and there is no key to authenticate with.
    MissingApiKey,
    /// Pushing is switched on and the endpoint does not parse as a URI.
    UnparseableEndpoint,
}

/// Whether the URI parser of the `http` crate accepts `text`.
pub uninterp spec fn uri_accepts(text: Seq<char>) -> bool;

/// Asks `hyper::Uri`'s `FromStr` whether `text` parses. The parser reads
/// nothing but the text, so the answer is the same for the same text.
#[verifier::external_body]
pub(crate) fn parses_as_uri(text: &str) -> (ok: bool)
    ensures
        ok == uri_accepts(text@),
{
    text.parse::<hyper::Uri>().is_ok()
}

/// The first rule that a configuration breaks, if any, given whether its
/// endpoint parses: the interval is positive, and a configuration that
/// pushes has a key and an endpoint that parses.
pub open spec fn config_issue(config: ConfigView, endpoint_parses: bool) -> Option<ConfigInvalid> {
    if config.interval == 0 {
        Some(ConfigInvalid::ZeroInterval)
    } else if config.push_enabled && config.api_key.len() == 0 {
        Some(ConfigInvalid::MissingApiKey)
    } else if config.push_enabled && !endpoint_parses {
        Some(ConfigInvalid::UnparseableEndpoint)
    } else {
        None
    }
}

impl ConfigView {
    /// Whether the agent can run with this configuration.
    pub open spec fn is_valid(self) -> bool {
        config_issue(self, uri_accepts(self.endpoint)) is None
    }
}

/// Holds `config` to the rules, given whether its endpoint parses.
pub fn check_config(config: &Config, endpoint_parses: bool) -> (r: Result<(), ConfigInvalid>)
    ensures
        r == (match config_issue(config@, endpoint_parses) {
            Some(issue) => Err::<(), ConfigInvalid>(issue),
            None => Ok(()),
        }),
{
    if config.interval == 0 {
        Err(ConfigInvalid::ZeroInterval)
    } else if config.push_enabled && config.api_key.as_str().is_empty() {
        Err(ConfigInvalid::MissingApiKey)
    } else if config.push_enabled && !endpoint_parses {
        Err(ConfigInvalid::UnparseableEndpoint)
    } else {
        Ok(())
    }
}

/// Holds `config` to the rules.
pub fn validate(config: &Config) -> (r: Result<(), ConfigInvalid>)
    ensures
        r == (match config_issue(config@, uri_accepts(config@.endpoint)) {
            Some(issue) => Err::<(), ConfigInvalid>(issue),
            None => Ok(()),
        }),
        r is Ok <==> config@.is_valid(),
{
    let endpoint_parses = parses_as_uri(config.endpoint.as_str());
    check_config(config, endpoint_parses)
}

/// The configuration after the overrides of the command line: another
/// interval, if one is given, and the development endpoint, if asked for.
pub open spec fn overridden(config: ConfigView, interval: Option<u64>, dev: bool) -> ConfigView {
    ConfigView {
        interval: match interval {
            Some(seconds) => seconds,
            None => config.interval,
        },
        endpoint: if dev {
            development_endpoint()
        } else {
            config.endpoint
        },
        ..config
    }
}

/// Applies the overrides of the command line to `config`.
pub fn apply_overrides(config: Config, interval: Option<u64>, dev: bool) -> (r: Config)
    ensures
        r@ == overridden(config@, interval, dev),
{
    let mut r = config;
    if let Some(seconds) = interval {
        r.interval = seconds;
    }
    if dev {
        r.endpoint = "http://localhost:5001/api/devices/metrics/ingest".to_owned();
    }
    r
}

impl Platform {
    /// The name of the operating system as generated device names show it.
    pub open spec fn os_name(self) -> Seq<char> {
        match self {
            Platform::Linux => "linux"@,
            Platform::MacOs => "macos"@,
            Platform::Windows => "windows"@,
        }
    }

    /// The name of the operating system as generated device names show it.
    pub fn os_name_text(self) -> (r: &'static str)
        ensures
            r@ == self.os_name(),
    {
        match self {
            Platform::Linux => "linux",
            Platform::MacOs => "macos",
            Platform::Windows => "windows",
        }
    }
}

/// What `str::to_lowercase` of the standard library makes of `text`.
pub uninterp spec fn lowercase(text: Seq<char>) -> Seq<char>;

/// `str::to_lowercase` of the standard library: the lowercase equivalent of
/// the text by the rules of Unicode, which depends on the text alone.
#[verifier::external_body]
fn to_lowercase(text: &str) -> (r: String)
    ensures
        r@ == lowercase(text@),
{
    text.to_lowercase()
}

/// `text` with a dash in place of every space and every underscore.
pub open spec fn dashed(text: Seq<char>) -> Seq<char> {
    text.map_values(
        |c: char|
            if c == ' ' || c == '_' {
                '-'
            } else {
                c
            },
    )
}

/// Puts a dash in place of every space and every underscore of `text`.
pub fn dash_separated(text: &str) -> (r: String)
    ensures
        r@ == dashed(text@),
{
    let chars = chars_of(text);
    let mut r = String::new();
    let mut i: usize = 0;
    while i < chars.len()
        invariant
            i <= chars.len(),
            chars@ == text@,
            r@ == dashed(text@).take(i as int),
        decreases chars.len() - i,
    {
        let c = chars[i];
        if c == ' ' || c == '_' {
            r.push('-');
        } else {
            r.push(c);
        }
        assert(dashed(text@).take(i + 1) =~= dashed(text@).take(i as int).push(
            dashed(text@)[i as int],
        ));
        i = i + 1;
    }
    assert(dashed(text@).take(chars.len() as int) =~= dashed(text@));
    r
}

/// The identifier of a device with the given name: the name in lowercase,
/// with dashes for its spaces and underscores.
pub open spec fn device_id_of(device_name: Seq<char>) -> Seq<char> {
    dashed(lowercase(device_name))
}

/// Derives the identifier of a device from its name.
pub fn derive_device_id(device_name: &str) -> (r: String)
    ensures
        r@ == device_id_of(device_name@),
{
    let lowered = to_lowercase(device_name);
    dash_separated(lowered.as_str())
}

/// The host name that stands in a generated device name where the host's
/// own name could not be read.
pub open spec fn fallback_hostname(platform: Platform) -> Seq<char> {
    match platform {
        Platform::Windows => "windows-pc"@,
        _ => "unknown-device"@,
    }
}

/// The host name as a generated device name shows it: the host's own name
/// or the fallback, on Windows in lowercase.
pub open spec fn setup_hostname(platform: Platform, hostname: Option<Seq<char>>) -> Seq<char> {
    let name = match hostname {
        Some(text) => text,
        None => fallback_hostname(platform),
    };
    match platform {
        Platform::Windows => lowercase(name),
        _ => name,
    }
}

/// The device name made of an operating system and a host name.
pub open spec fn joined_device_name(platform: Platform, hostname: Seq<char>) -> Seq<char> {
    platform.os_name() + "-"@ + hostname
}

/// Joins the name of the operating system and `hostname` to a device name.
pub fn join_device_name(platform: Platform, hostname: &str) -> (r: String)
    ensures
        r@ == joined_device_name(platform, hostname@),
{
    let mut r = String::new();
    r.append(platform.os_name_text());
    r.append("-");
    r.append(hostname);
    assert(r@ =~= joined_device_name(platform, hostname@));
    r
}

/// Generates a name for the device from its operating system and the name
/// of the host, where `hostname` is `None` if that name could not be read.
pub fn generate_device_name(platform: Platform, hostname: Option<&str>) -> (r: String)
    ensures
        r@ == joined_device_name(platform, setup_hostname(platform, slice_text_of(hostname))),
{
    let name = match hostname {
        Some(text) => text,
        None => match platform {
            Platform::Windows => "windows-pc",
            _ => "unknown-device",
        },
    };
    match platform {
        Platform::Windows => {
            let lowered = to_lowercase(name);
            join_device_name(platform, lowered.as_str())
        },
        _ => join_device_name(platform, name),
    }
}

/// The name that setup gives the device: what was entered, without the
/// white space around it, or the generated name where nothing was entered.
pub open spec fn chosen_device_name(entered: Seq<char>, generated: Seq<char>) -> Seq<char> {
    if trimmed(entered).len() == 0 {
        generated
    } else {
        trimmed(entered)
    }
}

/// The configuration that setup writes for a device: both ways of delivery
/// switched on, with the default interval and port, to the hosted service
/// or, in development, to the developer's own machine.
pub open spec fn device_config(
    api_key: Seq<char>,
    device_name: Seq<char>,
    device_id: Seq<char>,
    dev: bool,
) -> ConfigView {
    ConfigView {
        api_key,
        device_id,
        device_name,
        endpoint: if dev {
            development_endpoint()
        } else {
            production_endpoint()
        },
        interval: DEFAULT_INTERVAL,
        prometheus_enabled: true,
        prometheus_port: DEFAULT_PORT,
        push_enabled: true,
    }
}

impl Config {
    /// The configuration that setup writes for a device with the given
    /// key, name and identifier.
    pub fn for_device(api_key: String, device_name: String, device_id: String, dev: bool) -> (r:
        Config)
        ensures
            r@ == device_config(api_key@, device_name@, device_id@, dev),
    {
        Config {
            api_key,
            device_id,
            device_name,
            endpoint: if dev {
                "http://localhost:5001/api/devices/metrics/ingest".to_owned()
            } else {
                "https://app.naarad.dev/api/devices/metrics/ingest".to_owned()
            },
            interval: DEFAULT_INTERVAL,
            prometheus_enabled: true,
            prometheus_port: DEFAULT_PORT,
            push_enabled: true,
        }
    }
}

/// The configuration that setup writes, from the key, the line that was
/// entered as the device's name, the platform and the name of the host.
pub open spec fn setup_config(
    api_key: Seq<char>,
    entered: Seq<char>,
    platform: Platform,
    hostname: Option<Seq<char>>,
    dev: bool,
) -> ConfigView {
    let device_name = chosen_device_name(
        entered,
        joined_device_name(platform, setup_hostname(platform, hostname)),
    );
    device_config(api_key, device_name, device_id_of(device_name), dev)
}

/// What setup gives.
#[derive(Debug)]
pub struct Setup {
    /// The configuration to write.
    pub config: Config,
    /// Whether the device's name was generated, because none was entered.
    pub name_generated: bool,
}

/// Makes the configuration of a device from the answers given at setup:
/// `entered` is the line typed as the device's name, `hostname` the name of
/// the host or `None` if it could not be read. A line of nothing but white
/// space is no name: the name is then generated.
pub fn interactive_setup(
    api_key: String,
    entered: &str,
    platform: Platform,
    hostname: Option<&str>,
    dev: bool,
) -> (r: Setup)
    ensures
        r.config@ == setup_config(api_key@, entered@, platform, slice_text_of(hostname), dev),
        r.name_generated == (trimmed(entered@).len() == 0),
{
    let typed = trim(entered);
    let name_generated = typed.as_str().is_empty();
    let device_name = if name_generated {
        generate_device_name(platform, hostname)
    } else {
        typed
    };
    let device_id = derive_device_id(device_name.as_str());
    Setup { config: Config::for_device(api_key, device_name, device_id, dev), name_generated }
}

} // verus!
