//! Exporter configuration: the command-line/environment settings and their
//! split into one client configuration per Pi-hole host.
use std::time::Duration;

use vstd::prelude::*;
use vstd::string::*;

use crate::text::{
    chars_of, decimal, find_first, find_last, parse_u16, parse_u16_spec, push_char,
    push_decimal, push_text, slice_chars, string_of, text_eq, to_owned_string, trim, trim_chars,
    trimmed,
};

verus! {

/// `Duration` is `Copy`: its `clone` gives the same span (std's
/// `Clone::clone` for `std::time::Duration`).
pub assume_specification[ <std::time::Duration as Clone>::clone ](d: &Duration) -> (r: Duration)
    ensures
        r == *d,
;

/// The settings as the command line and the environment give them.
#[derive(Debug, Clone)]
pub struct Cli {
    pub pihole_protocol: Vec<String>,
    pub pihole_hostname: Vec<String>,
    pub pihole_port: Vec<u16>,
    pub pihole_password: Vec<String>,
    pub bind_addr: String,
    pub port: u16,
    pub timeout: Duration,
    pub skip_tls_verification: bool,
    pub debug: bool,
}

/// The exporter's settings, before they are split per host.
#[derive(Debug, Clone, PartialEq, Eq)]
pub struct EnvConfig {
    pub pihole_protocol: Vec<String>,
    pub pihole_hostname: Vec<String>,
    pub pihole_port: Vec<u16>,
    pub pihole_password: Vec<String>,
    pub bind_addr: String,
    pub port: u16,
    pub timeout: Duration,
    pub skip_tls_verification: bool,
    pub debug: bool,
}

/// How to reach one Pi-hole host.
#[derive(Debug, Clone, PartialEq, Eq)]
pub struct ClientConfig {
    pub pihole_protocol: String,
    pub pihole_hostname: String,
    pub pihole_port: u16,
    pub pihole_password: String,
}

/// Why a configuration was refused.
#[derive(Debug)]
pub enum ConfigError {
    InvalidProtocol(String),
    WrongPortCount,
    WrongProtocolCount,
    WrongPasswordCount,
    InvalidBaseUrl(String),
}

/// A client configuration as plain values.
pub struct ClientConfigView {
    pub protocol: Seq<char>,
    pub hostname: Seq<char>,
    pub port: u16,
    pub password: Seq<char>,
}

impl View for ClientConfig {
    type V = ClientConfigView;

    open spec fn view(&self) -> ClientConfigView {
        ClientConfigView {
            protocol: self.pihole_protocol@,
            hostname: self.pihole_hostname@,
            port: self.pihole_port,
            password: self.pihole_password@,
        }
    }
}

/// A configuration error as plain values.
pub enum ConfigErrorView {
    InvalidProtocol(Seq<char>),
    WrongPortCount,
    WrongProtocolCount,
    WrongPasswordCount,
    InvalidBaseUrl(Seq<char>),
}

impl View for ConfigError {
    type V = ConfigErrorView;

    open spec fn view(&self) -> ConfigErrorView {
        match self {
            ConfigError::InvalidProtocol(p) => ConfigErrorView::InvalidProtocol(p@),
            ConfigError::WrongPortCount => ConfigErrorView::WrongPortCount,
            ConfigError::WrongProtocolCount => ConfigErrorView::WrongProtocolCount,
            ConfigError::WrongPasswordCount => ConfigErrorView::WrongPasswordCount,
            ConfigError::InvalidBaseUrl(u) => ConfigErrorView::InvalidBaseUrl(u@),
        }
    }
}

/// The message that reports a configuration error.
pub open spec fn error_message_spec(e: ConfigErrorView) -> Seq<char> {
    match e {
        ConfigErrorView::InvalidProtocol(p) => "invalid protocol "@ + p
            + ": must be http or https"@,
        ConfigErrorView::WrongPortCount =>
            "wrong number of ports: must be empty, single value or one per host"@,
        ConfigErrorView::WrongProtocolCount =>
            "wrong number of PIHoleProtocol: must be empty, single value or one per host"@,
        ConfigErrorView::WrongPasswordCount =>
            "wrong number of PIHolePassword: must be empty, single value or one per host"@,
        ConfigErrorView::InvalidBaseUrl(u) => "invalid base URL "@ + u
            + ": hostname and port may be duplicated (use either host:port or separate PIHOLE_PORT)"@,
    }
}

impl ConfigError {
    /// The message that reports the error.
    pub fn message(&self) -> (r: String)
        ensures
            r@ == error_message_spec(self@),
    {
        match self {
            ConfigError::InvalidProtocol(p) => {
                let mut m = to_owned_string("invalid protocol ");
                push_text(&mut m, p.as_str());
                push_text(&mut m, ": must be http or https");
                m
            },
            ConfigError::WrongPortCount => to_owned_string(
                "wrong number of ports: must be empty, single value or one per host",
            ),
            ConfigError::WrongProtocolCount => to_owned_string(
                "wrong number of PIHoleProtocol: must be empty, single value or one per host",
            ),
            ConfigError::WrongPasswordCount => to_owned_string(
                "wrong number of PIHolePassword: must be empty, single value or one per host",
            ),
            ConfigError::InvalidBaseUrl(u) => {
                let mut m = to_owned_string("invalid base URL ");
                push_text(&mut m, u.as_str());
                push_text(
                    &mut m,
                    ": hostname and port may be duplicated (use either host:port or separate PIHOLE_PORT)",
                );
                m
            },
        }
    }
}

/// The per-host lists of an [`EnvConfig`], as plain values.
pub struct HostLists {
    pub protocols: Seq<Seq<char>>,
    pub hostnames: Seq<Seq<char>>,
    pub ports: Seq<u16>,
    pub passwords: Seq<Seq<char>>,
}

pub open spec fn strings_view(v: Seq<String>) -> Seq<Seq<char>> {
    v.map_values(|s: String| s@)
}

impl From<Cli> for EnvConfig {
    /// The settings that the command line and the environment gave.
    fn from(cli: Cli) -> (env: EnvConfig) {
        EnvConfig {
            pihole_protocol: cli.pihole_protocol,
            pihole_hostname: cli.pihole_hostname,
            pihole_port: cli.pihole_port,
            pihole_password: cli.pihole_password,
            bind_addr: cli.bind_addr,
            port: cli.port,
            timeout: cli.timeout,
            skip_tls_verification: cli.skip_tls_verification,
            debug: cli.debug,
        }
    }
}

impl vstd::std_specs::convert::FromSpecImpl<Cli> for EnvConfig {
    open spec fn obeys_from_spec() -> bool {
        true
    }

    open spec fn from_spec(cli: Cli) -> EnvConfig {
        EnvConfig {
            pihole_protocol: cli.pihole_protocol,
            pihole_hostname: cli.pihole_hostname,
            pihole_port: cli.pihole_port,
            pihole_password: cli.pihole_password,
            bind_addr: cli.bind_addr,
            port: cli.port,
            timeout: cli.timeout,
            skip_tls_verification: cli.skip_tls_verification,
            debug: cli.debug,
        }
    }
}

impl EnvConfig {
    pub open spec fn host_lists(&self) -> HostLists {
        HostLists {
            protocols: strings_view(self.pihole_protocol@),
            hostnames: strings_view(self.pihole_hostname@),
            ports: self.pihole_port@,
            passwords: strings_view(self.pihole_password@),
        }
    }
}

/// Whether `reqwest::Url::parse` accepts a string; a function of the string alone.
pub uninterp spec fn url_parse_accepts(input: Seq<char>) -> bool;

/// Calls `reqwest::Url::parse` (the `url` crate's parser) on `input` and reports
/// whether it accepted the string. Claimed: the answer is `url_parse_accepts` of
/// the characters handed over; nothing is claimed of which strings it accepts.
#[verifier::external_body]
fn url_parses(input: &str) -> (accepted: bool)
    ensures
        accepted == url_parse_accepts(input@),
{
    reqwest::Url::parse(input).is_ok()
}

/// `protocol://hostname:port`, the port in decimal.
pub open spec fn base_url_spec(c: ClientConfigView) -> Seq<char> {
    c.protocol + "://"@ + c.hostname + ":"@ + decimal(c.port as nat)
}

/// A protocol that the exporter can use.
pub open spec fn protocol_supported(p: Seq<char>) -> bool {
    p == "http"@ || p == "https"@
}

/// What `ClientConfig::validate` answers, given whether the URL parser accepts
/// the base URL.
pub open spec fn validate_spec(c: ClientConfigView, url_accepted: bool) -> Result<(), ConfigErrorView> {
    if !protocol_supported(c.protocol) {
        Err(ConfigErrorView::InvalidProtocol(c.protocol))
    } else if !url_accepted {
        Err(ConfigErrorView::InvalidBaseUrl(base_url_spec(c)))
    } else {
        Ok(())
    }
}

pub open spec fn unit_result_view(r: Result<(), ConfigError>) -> Result<(), ConfigErrorView> {
    match r {
        Ok(()) => Ok(()),
        Err(e) => Err(e@),
    }
}

impl ClientConfig {
    /// The base URL of the host's API.
    pub fn base_url(&self) -> (url: String)
        ensures
            url@ == base_url_spec(self@),
    {
        let mut url = to_owned_string(self.pihole_protocol.as_str());
        push_text(&mut url, "://");
        push_text(&mut url, self.pihole_hostname.as_str());
        push_text(&mut url, ":");
        push_decimal(&mut url, self.pihole_port as u64);
        assert(url@ =~= base_url_spec(self@));
        url
    }

    /// Accepts the configuration when its protocol is `http` or `https` and the
    /// URL parser accepts its base URL.
    pub fn validate(&self) -> (r: Result<(), ConfigError>)
        ensures
            unit_result_view(r) == validate_spec(self@, url_parse_accepts(base_url_spec(self@))),
    {
        if !protocol_supported_exec(self.pihole_protocol.as_str()) {
            return self.validate_with(false);
        }
        let url = self.base_url();
        let accepted = url_parses(url.as_str());
        self.validate_with(accepted)
    }

    /// The answer of `validate` once the URL parser has answered `url_accepted`
    /// for the base URL.
    pub fn validate_with(&self, url_accepted: bool) -> (r: Result<(), ConfigError>)
        ensures
            unit_result_view(r) == validate_spec(self@, url_accepted),
    {
        if !protocol_supported_exec(self.pihole_protocol.as_str()) {
            return Err(ConfigError::InvalidProtocol(self.pihole_protocol.clone()));
        }
        if !url_accepted {
            return Err(ConfigError::InvalidBaseUrl(self.base_url()));
        }
        Ok(())
    }
}

fn protocol_supported_exec(p: &str) -> (b: bool)
    ensures
        b == protocol_supported(p@),
{
    text_eq(p, "http") || text_eq(p, "https")
}

/// What `extract_string_config` finds for one host in a per-host list.
pub enum Extracted {
    Value(Seq<char>),
    Empty,
    Invalid,
}

/// A list with one value applies it to every host; a list with one value per
/// host gives each host its own; an empty list gives nothing; any other
/// length is refused. A value that is empty once trimmed counts as no value.
pub open spec fn extract_spec(data: Seq<Seq<char>>, idx: int, hosts: int) -> Extracted {
    if data.len() == 1 {
        let v = trim(data[0]);
        if v.len() > 0 {
            Extracted::Value(v)
        } else {
            Extracted::Empty
        }
    } else if data.len() == hosts {
        let v = trim(data[idx]);
        if v.len() > 0 {
            Extracted::Value(v)
        } else {
            Extracted::Empty
        }
    } else if data.len() == 0 {
        Extracted::Empty
    } else {
        Extracted::Invalid
    }
}

/// What `extract_string_config` found for one host.
#[derive(Debug)]
pub enum ExtractResult {
    Value(String),
    Empty,
    Invalid,
}

pub open spec fn extract_view(r: ExtractResult) -> Extracted {
    match r {
        ExtractResult::Value(s) => Extracted::Value(s@),
        ExtractResult::Empty => Extracted::Empty,
        ExtractResult::Invalid => Extracted::Invalid,
    }
}

/// The value that a per-host list gives host `idx`, trimmed: one value
/// applies to every host, one per host gives each its own, no value or a
/// blank one gives nothing, any other length is refused.
pub fn extract_string_config(data: &Vec<String>, idx: usize, hosts_count: usize) -> (r: ExtractResult)
    requires
        data@.len() != 1 && data@.len() == hosts_count ==> idx < hosts_count,
    ensures
        extract_view(r) == extract_spec(strings_view(data@), idx as int, hosts_count as int),
{
    let n = data.len();
    if n == 1 {
        let v = trimmed(data[0].as_str());
        if v.as_str().is_empty() {
            ExtractResult::Empty
        } else {
            ExtractResult::Value(v)
        }
    } else if n == hosts_count {
        let v = trimmed(data[idx].as_str());
        if v.as_str().is_empty() {
            ExtractResult::Empty
        } else {
            ExtractResult::Value(v)
        }
    } else if n == 0 {
        ExtractResult::Empty
    } else {
        ExtractResult::Invalid
    }
}

/// The port that the per-host port list gives host `idx`: none given is 0,
/// one value applies to every host, one per host gives each its own, and any
/// other length is refused (`None`).
pub open spec fn port_spec(ports: Seq<u16>, idx: int, hosts: int) -> Option<u16> {
    if ports.len() == 0 {
        Some(0u16)
    } else if ports.len() == 1 {
        Some(ports[0])
    } else if ports.len() == hosts {
        Some(ports[idx])
    } else {
        None
    }
}

/// Splits `host:port` or `[ipv6]:port` written in a hostname: the host and the
/// port that the hostname holds, or the configured port where it holds none.
pub open spec fn host_port_spec(hostname: Seq<char>, configured: u16) -> (Seq<char>, u16) {
    let h = trim(hostname);
    let rest = h.drop_first();
    if h.len() > 0 && h[0] == '[' && rest.index_of_first(']') is Some {
        let j = rest.index_of_first(']')->0;
        let host = seq!['['] + rest.subrange(0, j) + seq![']'];
        let after = rest.subrange(j + 1, rest.len() as int);
        if after.len() > 0 && after[0] == ':' && parse_u16_spec(after.drop_first()) is Some {
            (host, parse_u16_spec(after.drop_first())->0)
        } else {
            (host, configured)
        }
    } else if h.index_of_last(':') is Some {
        let k = h.index_of_last(':')->0;
        let host = h.subrange(0, k);
        let port = parse_u16_spec(h.subrange(k + 1, h.len() as int));
        if host.len() > 0 && !host.contains(':') && port is Some {
            (host, port->0)
        } else {
            (h, configured)
        }
    } else {
        (h, configured)
    }
}

/// Splits `host:port` or `[ipv6]:port` written in a (trimmed) hostname; the
/// configured port stands where the hostname names none.
pub fn parse_hostname_port(hostname: &str, configured_port: u16) -> (r: (String, u16))
    ensures
        (r.0@, r.1) == host_port_spec(hostname@, configured_port),
{
    let hv = chars_of(hostname);
    let h = trim_chars(hv.as_slice());
    let n = h.len();
    if n > 0 && h[0] == '[' {
        let rest = slice_chars(h.as_slice(), 1, n);
        assert(rest@ =~= h@.drop_first());
        match find_first(rest.as_slice(), ']') {
            Some(j) => {
                let mut host = String::new();
                push_char(&mut host, '[');
                let ipv6 = slice_chars(rest.as_slice(), 0, j);
                let ipv6s = string_of(ipv6.as_slice());
                push_text(&mut host, ipv6s.as_str());
                push_char(&mut host, ']');
                assert(host@ =~= seq!['['] + rest@.subrange(0, j as int) + seq![']']);
                let after = slice_chars(rest.as_slice(), j + 1, rest.len());
                if after.len() > 0 && after[0] == ':' {
                    let digits = slice_chars(after.as_slice(), 1, after.len());
                    assert(digits@ =~= after@.drop_first());
                    match parse_u16(digits.as_slice()) {
                        Some(port) => {
                            return (host, port);
                        },
                        None => {},
                    }
                }
                return (host, configured_port);
            },
            None => {},
        }
    }
    match find_last(h.as_slice(), ':') {
        Some(k) => {
            let host = slice_chars(h.as_slice(), 0, k);
            if host.len() > 0 {
                match find_first(host.as_slice(), ':') {
                    None => {
                        proof {
                            host@.index_of_first_ensures(':');
                        }
                        let digits = slice_chars(h.as_slice(), k + 1, n);
                        match parse_u16(digits.as_slice()) {
                            Some(port) => {
                                return (string_of(host.as_slice()), port);
                            },
                            None => {},
                        }
                    },
                    Some(_) => {
                        proof {
                            host@.index_of_first_ensures(':');
                        }
                    },
                }
            }
        },
        None => {},
    }
    (string_of(h.as_slice()), configured_port)
}

/// The configuration of host `i`, or the error that refuses it.
pub open spec fn client_spec(env: HostLists, i: int) -> Result<ClientConfigView, ConfigErrorView> {
    let n = env.hostnames.len() as int;
    match port_spec(env.ports, i, n) {
        None => Err(ConfigErrorView::WrongPortCount),
        Some(port) => match extract_spec(env.protocols, i, n) {
            Extracted::Invalid => Err(ConfigErrorView::WrongProtocolCount),
            proto => match extract_spec(env.passwords, i, n) {
                Extracted::Invalid => Err(ConfigErrorView::WrongPasswordCount),
                pass => {
                    let protocol = match proto {
                        Extracted::Value(v) => v,
                        _ => "http"@,
                    };
                    let password = match pass {
                        Extracted::Value(v) => v,
                        _ => Seq::<char>::empty(),
                    };
                    let hp = host_port_spec(trim(env.hostnames[i]), port);
                    let c = ClientConfigView {
                        protocol: protocol,
                        hostname: hp.0,
                        port: hp.1,
                        password: password,
                    };
                    match validate_spec(c, url_parse_accepts(base_url_spec(c))) {
                        Ok(()) => Ok(c),
                        Err(e) => Err(e),
                    }
                },
            },
        },
    }
}

/// The result of splitting the first `k` hosts: their configurations in
/// order, or the first error met.
pub open spec fn split_upto(env: HostLists, k: nat) -> Result<Seq<ClientConfigView>, ConfigErrorView>
    decreases k,
{
    if k == 0 {
        Ok(Seq::empty())
    } else {
        match split_upto(env, (k - 1) as nat) {
            Err(e) => Err(e),
            Ok(s) => match client_spec(env, k - 1) {
                Err(e) => Err(e),
                Ok(c) => Ok(s.push(c)),
            },
        }
    }
}

/// What `EnvConfig::split` returns.
pub open spec fn split_spec(env: HostLists) -> Result<Seq<ClientConfigView>, ConfigErrorView> {
    split_upto(env, env.hostnames.len())
}

pub open spec fn clients_view(v: Seq<ClientConfig>) -> Seq<ClientConfigView> {
    v.map_values(|c: ClientConfig| c@)
}

pub open spec fn split_result_view(r: Result<Vec<ClientConfig>, ConfigError>) -> Result<
    Seq<ClientConfigView>,
    ConfigErrorView,
> {
    match r {
        Ok(v) => Ok(clients_view(v@)),
        Err(e) => Err(e@),
    }
}

proof fn lemma_split_error_stays(env: HostLists, i: nat, k: nat, e: ConfigErrorView)
    requires
        i <= k,
        split_upto(env, i) == Err::<Seq<ClientConfigView>, ConfigErrorView>(e),
    ensures
        split_upto(env, k) == Err::<Seq<ClientConfigView>, ConfigErrorView>(e),
    decreases k - i,
{
    if i < k {
        lemma_split_error_stays(env, i, (k - 1) as nat, e);
    }
}

proof fn lemma_strings_view_index(v: Seq<String>, i: int)
    requires
        0 <= i < v.len(),
    ensures
        strings_view(v)[i] == v[i]@,
        strings_view(v).len() == v.len(),
{
}

impl EnvConfig {
    /// The settings of `cli` together with one client configuration per host.
    pub fn from_cli(cli: Cli) -> (r: Result<(EnvConfig, Vec<ClientConfig>), ConfigError>)
        ensures
            match r {
                Ok((env, clients)) => {
                    &&& env.host_lists() == (HostLists {
                        protocols: strings_view(cli.pihole_protocol@),
                        hostnames: strings_view(cli.pihole_hostname@),
                        ports: cli.pihole_port@,
                        passwords: strings_view(cli.pihole_password@),
                    })
                    &&& env.bind_addr@ == cli.bind_addr@
                    &&& env.port == cli.port
                    &&& env.timeout == cli.timeout
                    &&& env.skip_tls_verification == cli.skip_tls_verification
                    &&& env.debug == cli.debug
                    &&& split_spec(env.host_lists()) == Ok::<
                        Seq<ClientConfigView>,
                        ConfigErrorView,
                    >(clients_view(clients@))
                },
                Err(e) => split_spec(
                    HostLists {
                        protocols: strings_view(cli.pihole_protocol@),
                        hostnames: strings_view(cli.pihole_hostname@),
                        ports: cli.pihole_port@,
                        passwords: strings_view(cli.pihole_password@),
                    },
                ) == Err::<Seq<ClientConfigView>, ConfigErrorView>(e@),
            },
    {
        let env = EnvConfig::from(cli);
        match env.split() {
            Ok(clients) => Ok((env, clients)),
            Err(e) => Err(e),
        }
    }

    /// One client configuration per host, in the order of the hostnames, or
    /// the first error met.
    pub fn split(&self) -> (r: Result<Vec<ClientConfig>, ConfigError>)
        ensures
            split_result_view(r) == split_spec(self.host_lists()),
    {
        let ghost env = self.host_lists();
        let hosts_count = self.pihole_hostname.len();
        let mut result: Vec<ClientConfig> = Vec::new();
        let mut i: usize = 0;
        assert(clients_view(result@) =~= Seq::<ClientConfigView>::empty());
        while i < hosts_count
            invariant
                i <= hosts_count == self.pihole_hostname@.len(),
                env == self.host_lists(),
                split_upto(env, i as nat) == Ok::<Seq<ClientConfigView>, ConfigErrorView>(
                    clients_view(result@),
                ),
            decreases hosts_count - i,
        {
            proof {
                lemma_strings_view_index(self.pihole_hostname@, i as int);
            }
            let ghost spec_result = client_spec(env, i as int);
            let np = self.pihole_port.len();
            let port: u16 = if np == 0 {
                0
            } else if np == 1 {
                self.pihole_port[0]
            } else if np == hosts_count {
                self.pihole_port[i]
            } else {
                proof {
                    lemma_split_error_stays(env, (i + 1) as nat, hosts_count as nat, ConfigErrorView::WrongPortCount);
                }
                return Err(ConfigError::WrongPortCount);
            };
            let protocol = match extract_string_config(&self.pihole_protocol, i, hosts_count) {
                ExtractResult::Value(v) => v,
                ExtractResult::Empty => String::from_str("http"),
                ExtractResult::Invalid => {
                    proof {
                        lemma_split_error_stays(env, (i + 1) as nat, hosts_count as nat, ConfigErrorView::WrongProtocolCount);
                    }
                    return Err(ConfigError::WrongProtocolCount);
                },
            };
            let password = match extract_string_config(&self.pihole_password, i, hosts_count) {
                ExtractResult::Value(v) => v,
                ExtractResult::Empty => String::new(),
                ExtractResult::Invalid => {
                    proof {
                        lemma_split_error_stays(env, (i + 1) as nat, hosts_count as nat, ConfigErrorView::WrongPasswordCount);
                    }
                    return Err(ConfigError::WrongPasswordCount);
                },
            };
            let host_trimmed = trimmed(self.pihole_hostname[i].as_str());
            let (host, port) = parse_hostname_port(host_trimmed.as_str(), port);
            let config = ClientConfig {
                pihole_protocol: protocol,
                pihole_hostname: host,
                pihole_port: port,
                pihole_password: password,
            };
            match config.validate() {
                Ok(()) => {},
                Err(e) => {
                    proof {
                        lemma_split_error_stays(env, (i + 1) as nat, hosts_count as nat, e@);
                    }
                    return Err(e);
                },
            }
            let ghost before = result@;
            result.push(config);
            assert(clients_view(result@) =~= clients_view(before).push(config@));
            i = i + 1;
        }
        Ok(result)
    }
}

proof fn lemma_split_ok_elements(env: HostLists, k: nat)
    requires
        split_upto(env, k) is Ok,
    ensures
        split_upto(env, k)->Ok_0.len() == k,
        forall|i: int|
            0 <= i < k ==> #[trigger] client_spec(env, i) == Ok::<ClientConfigView, ConfigErrorView>(
                split_upto(env, k)->Ok_0[i],
            ),
    decreases k,
{
    if k > 0 {
        lemma_split_ok_elements(env, (k - 1) as nat);
        let s = split_upto(env, (k - 1) as nat)->Ok_0;
        let c = client_spec(env, k - 1)->Ok_0;
        assert forall|i: int| 0 <= i < k implies #[trigger] client_spec(env, i) == Ok::<
            ClientConfigView,
            ConfigErrorView,
        >(split_upto(env, k)->Ok_0[i]) by {
            if i < k - 1 {
                assert(split_upto(env, k)->Ok_0[i] == s[i]);
            }
        }
    }
}

/// A successful split gives one configuration per host, in the order of the
/// hostnames, each with protocol `http` or `https`.
pub proof fn law_split_one_client_per_host(env: HostLists)
    requires
        split_spec(env) is Ok,
    ensures
        split_spec(env)->Ok_0.len() == env.hostnames.len(),
        forall|i: int|
            0 <= i < env.hostnames.len() ==> protocol_supported(
                #[trigger] split_spec(env)->Ok_0[i].protocol,
            ),
{
    lemma_split_ok_elements(env, env.hostnames.len());
    assert forall|i: int| 0 <= i < env.hostnames.len() implies protocol_supported(
        #[trigger] split_spec(env)->Ok_0[i].protocol,
    ) by {
        assert(client_spec(env, i) is Ok);
    }
}

/// A setting given once applies to every host: with a single protocol, a
/// single password and a single port, every host gets that protocol (`http`
/// when it is blank), that password, and that port unless its hostname
/// names its own.
pub proof fn law_single_value_applies_to_all_hosts(env: HostLists, i: int)
    requires
        split_spec(env) is Ok,
        0 <= i < env.hostnames.len(),
        env.protocols.len() == 1,
        env.passwords.len() == 1,
        env.ports.len() == 1,
    ensures
        split_spec(env)->Ok_0[i].protocol == (if trim(env.protocols[0]).len() > 0 {
            trim(env.protocols[0])
        } else {
            "http"@
        }),
        split_spec(env)->Ok_0[i].password == trim(env.passwords[0]),
        split_spec(env)->Ok_0[i].port == host_port_spec(trim(env.hostnames[i]), env.ports[0]).1,
        split_spec(env)->Ok_0[i].hostname == host_port_spec(trim(env.hostnames[i]), env.ports[0]).0,
{
    lemma_split_ok_elements(env, env.hostnames.len());
    assert(client_spec(env, i) is Ok);
    if trim(env.passwords[0]).len() == 0 {
        assert(trim(env.passwords[0]) =~= Seq::<char>::empty());
    }
}

/// With one value per host, each host gets its own.
pub proof fn law_one_value_per_host(env: HostLists, i: int)
    requires
        split_spec(env) is Ok,
        0 <= i < env.hostnames.len(),
        env.hostnames.len() > 1,
        env.protocols.len() == env.hostnames.len(),
        env.ports.len() == env.hostnames.len(),
        trim(env.protocols[i]).len() > 0,
    ensures
        split_spec(env)->Ok_0[i].protocol == trim(env.protocols[i]),
        split_spec(env)->Ok_0[i].port == host_port_spec(trim(env.hostnames[i]), env.ports[i]).1,
{
    lemma_split_ok_elements(env, env.hostnames.len());
    assert(client_spec(env, i) is Ok);
}

/// A port list that is neither empty, nor a single value, nor one value per
/// host is refused, when there is at least one host.
pub proof fn law_wrong_port_count_refused(env: HostLists)
    requires
        env.hostnames.len() > 0,
        env.ports.len() != 0,
        env.ports.len() != 1,
        env.ports.len() != env.hostnames.len(),
    ensures
        split_spec(env) == Err::<Seq<ClientConfigView>, ConfigErrorView>(
            ConfigErrorView::WrongPortCount,
        ),
{
    assert(split_upto(env, 0) == Ok::<Seq<ClientConfigView>, ConfigErrorView>(Seq::empty()));
    assert(split_upto(env, 1) == Err::<Seq<ClientConfigView>, ConfigErrorView>(
        ConfigErrorView::WrongPortCount,
    ));
    lemma_split_error_stays(env, 1, env.hostnames.len(), ConfigErrorView::WrongPortCount);
}

/// With an acceptable port list, a protocol list of the wrong length is
/// refused, and so is then a password list of the wrong length.
pub proof fn law_wrong_list_counts_refused(env: HostLists)
    requires
        env.hostnames.len() > 0,
        env.ports.len() == 0 || env.ports.len() == 1 || env.ports.len() == env.hostnames.len(),
    ensures
        (env.protocols.len() != 0 && env.protocols.len() != 1 && env.protocols.len()
            != env.hostnames.len()) ==> split_spec(env) == Err::<
            Seq<ClientConfigView>,
            ConfigErrorView,
        >(ConfigErrorView::WrongProtocolCount),
        (env.protocols.len() == 0 || env.protocols.len() == 1 || env.protocols.len()
            == env.hostnames.len()) && (env.passwords.len() != 0 && env.passwords.len() != 1
            && env.passwords.len() != env.hostnames.len()) ==> split_spec(env) == Err::<
            Seq<ClientConfigView>,
            ConfigErrorView,
        >(ConfigErrorView::WrongPasswordCount),
{
    let e = client_spec(env, 0);
    assert(split_upto(env, 0) == Ok::<Seq<ClientConfigView>, ConfigErrorView>(Seq::empty()));
    if e is Err {
        assert(split_upto(env, 1) == Err::<Seq<ClientConfigView>, ConfigErrorView>(e->Err_0));
        lemma_split_error_stays(env, 1, env.hostnames.len(), e->Err_0);
    }
}

/// A hostname `a:q` with a single colon names host `a` and port `q`,
/// whatever port is configured; a hostname without colon (and not in
/// brackets) keeps the configured port.
pub proof fn law_host_and_port(hostname: Seq<char>, configured: u16, a: Seq<char>, digits: Seq<char>, q: u16)
    requires
        trim(hostname) == a + seq![':'] + digits,
        a.len() > 0,
        a[0] != '[',
        !a.contains(':'),
        !digits.contains(':'),
        parse_u16_spec(digits) == Some(q),
    ensures
        host_port_spec(hostname, configured) == (a, q),
{
    let h = trim(hostname);
    let k = a.len() as int;
    assert(h[0] == a[0]);
    assert(h[k] == ':');
    h.index_of_last_ensures(':');
    let j = h.index_of_last(':')->0;
    assert(j == k) by {
        if j > k {
            assert(h[j] == digits[j - k - 1]);
        } else if j < k {
            assert(h[j] == a[j]);
            assert(h[k] == ':');
        }
    }
    assert(h.subrange(0, k) =~= a);
    assert(h.subrange(k + 1, h.len() as int) =~= digits);
}

/// A hostname without a colon, and not in brackets, keeps the configured
/// port and names itself (trimmed).
pub proof fn law_plain_host_keeps_port(hostname: Seq<char>, configured: u16)
    requires
        !trim(hostname).contains(':'),
        trim(hostname).len() == 0 || trim(hostname)[0] != '[',
    ensures
        host_port_spec(hostname, configured) == (trim(hostname), configured),
{
    trim(hostname).index_of_last_ensures(':');
}

/// With one password per host, each host gets its own password, trimmed
/// (and no password when its entry is blank).
pub proof fn law_one_password_per_host(env: HostLists, i: int)
    requires
        split_spec(env) is Ok,
        0 <= i < env.hostnames.len(),
        env.hostnames.len() > 1,
        env.passwords.len() == env.hostnames.len(),
    ensures
        split_spec(env)->Ok_0[i].password == trim(env.passwords[i]),
{
    lemma_split_ok_elements(env, env.hostnames.len());
    assert(client_spec(env, i) is Ok);
    if trim(env.passwords[i]).len() == 0 {
        assert(trim(env.passwords[i]) =~= Seq::<char>::empty());
    }
}

} // verus!
