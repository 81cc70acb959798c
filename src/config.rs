use vstd::prelude::*;
use vstd::string::StrSliceExecFns;
use crate::error::ServiceError;

verus! {

pub const DEFAULT_GRPC_PORT: u16 = 12071;
pub const DEFAULT_HTTP_PORT: u16 = 12070;
pub const DEFAULT_SIP_PORT: u16 = 5060;

/// The unspecified address that a listener binds to.
#[derive(Clone, Copy, Debug, PartialEq, Eq, Structural)]
pub enum ListenHost {
    /// `0.0.0.0`
    AnyV4,
    /// `[::]`
    AnyV6,
}

/// A listen address: an unspecified host and a port.
#[derive(Clone, Copy, Debug, PartialEq, Eq, Structural)]
pub struct ListenAddr {
    pub host: ListenHost,
    pub port: u16,
}

/// The raw settings as the environment holds them; `None` where a variable is unset.
#[derive(Clone, Debug)]
pub struct EnvVars {
    pub grpc_port: Option<String>,
    pub http_port: Option<String>,
    pub sip_port: Option<String>,
    pub env: Option<String>,
    pub rust_log: Option<String>,
    pub service_version: Option<String>,
    pub registrar_service_url: Option<String>,
    pub b2bua_service_url: Option<String>,
    pub cert_path: Option<String>,
    pub key_path: Option<String>,
    pub ca_path: Option<String>,
}

/// The service's configuration: built once at start-up, read-only afterwards.
#[derive(Clone, Debug)]
pub struct AppConfig {
    pub grpc_listen_addr: ListenAddr,
    pub http_listen_addr: ListenAddr,
    pub sip_listen_addr: ListenAddr,
    pub env: String,
    pub rust_log: String,
    pub service_version: String,
    pub cert_path: String,
    pub key_path: String,
    pub ca_path: String,
    pub registrar_service_url: String,
    pub b2bua_service_url: String,
}

pub open spec fn is_digit(c: char) -> bool {
    '0' <= c && c <= '9'
}

pub open spec fn digit_value(c: char) -> nat {
    ((c as u32) - ('0' as u32)) as nat
}

/// The number that a string of decimal digits denotes.
pub open spec fn decimal_value(s: Seq<char>) -> nat
    decreases s.len(),
{
    if s.len() == 0 {
        0
    } else {
        decimal_value(s.drop_last()) * 10 + digit_value(s.last())
    }
}

pub open spec fn all_digits(s: Seq<char>) -> bool {
    forall|i: int| 0 <= i < s.len() ==> #[trigger] is_digit(s[i])
}

/// A port number written in decimal: one digit or more, leading zeros allowed,
/// no sign, and no more than 65535.
pub open spec fn parse_port_spec(s: Seq<char>) -> Option<u16> {
    if s.len() > 0 && all_digits(s) && decimal_value(s) <= 65535 {
        Some(decimal_value(s) as u16)
    } else {
        None
    }
}

/// The port a setting asks for: its default when unset, else what it parses to.
pub open spec fn port_setting(v: Option<String>, default: u16) -> Option<u16> {
    match v {
        Some(s) => parse_port_spec(s@),
        None => Some(default),
    }
}

/// The text of a setting: its default when unset.
pub open spec fn text_setting(v: Option<String>, default: Seq<char>) -> Seq<char> {
    match v {
        Some(s) => s@,
        None => default,
    }
}

/// Whether a configuration can be built from these settings: every port parses
/// and the three TLS paths are all given.
pub open spec fn config_loads(v: EnvVars) -> bool {
    port_setting(v.grpc_port, DEFAULT_GRPC_PORT) is Some
        && port_setting(v.http_port, DEFAULT_HTTP_PORT) is Some
        && port_setting(v.sip_port, DEFAULT_SIP_PORT) is Some
        && v.cert_path is Some
        && v.key_path is Some
        && v.ca_path is Some
}

/// Without a TLS certificate, key or CA path no configuration loads; with all
/// three and every other setting unset, it loads, and each port is its default.
pub proof fn lemma_tls_paths_decide_loading(v: EnvVars)
    ensures
        (v.cert_path is None || v.key_path is None || v.ca_path is None) ==> !config_loads(v),
        (v.cert_path is Some && v.key_path is Some && v.ca_path is Some && v.grpc_port is None
            && v.http_port is None && v.sip_port is None) ==> {
            &&& config_loads(v)
            &&& port_setting(v.grpc_port, DEFAULT_GRPC_PORT) == Some(12071u16)
            &&& port_setting(v.http_port, DEFAULT_HTTP_PORT) == Some(12070u16)
            &&& port_setting(v.sip_port, DEFAULT_SIP_PORT) == Some(5060u16)
        },
{
}

proof fn lemma_decimal_push(s: Seq<char>, i: int)
    requires
        0 <= i < s.len(),
    ensures
        decimal_value(s.subrange(0, i + 1)) == decimal_value(s.subrange(0, i)) * 10 + digit_value(s[i]),
{
    assert(s.subrange(0, i + 1).drop_last() =~= s.subrange(0, i));
}

proof fn lemma_decimal_monotone(s: Seq<char>, i: int, j: int)
    requires
        0 <= i <= j <= s.len(),
        all_digits(s),
    ensures
        decimal_value(s.subrange(0, i)) <= decimal_value(s.subrange(0, j)),
    decreases j - i,
{
    if i < j {
        lemma_decimal_monotone(s, i, j - 1);
        lemma_decimal_push(s, j - 1);
    }
}

/// Parses a port number written in decimal.
pub fn parse_port(s: &str) -> (r: Option<u16>)
    ensures
        r == parse_port_spec(s@),
{
    let n = s.unicode_len();
    if n == 0 {
        return None;
    }
    let mut acc: u32 = 0;
    let mut i: usize = 0;
    while i < n
        invariant
            n == s@.len(),
            0 <= i <= n,
            all_digits(s@.subrange(0, i as int)),
            acc as nat == decimal_value(s@.subrange(0, i as int)),
            acc <= 65535,
        decreases n - i,
    {
        let c = s.get_char(i);
        if !('0' <= c && c <= '9') {
            proof {
                assert(!all_digits(s@)) by {
                    assert(!is_digit(s@[i as int]));
                }
            }
            return None;
        }
        proof {
            lemma_decimal_push(s@, i as int);
            assert(all_digits(s@.subrange(0, i as int + 1))) by {
                assert forall|k: int| 0 <= k < i + 1 implies #[trigger] is_digit(s@.subrange(0, i as int + 1)[k]) by {
                    if k < i {
                        assert(s@.subrange(0, i as int + 1)[k] == s@.subrange(0, i as int)[k]);
                    }
                }
            }
        }
        acc = acc * 10 + ((c as u32) - ('0' as u32));
        i = i + 1;
        if acc > 65535 {
            proof {
                if all_digits(s@) {
                    lemma_decimal_monotone(s@, i as int, n as int);
                    assert(s@.subrange(0, n as int) =~= s@);
                }
            }
            return None;
        }
    }
    proof {
        assert(s@.subrange(0, n as int) =~= s@);
    }
    Some(acc as u16)
}

fn port_or_default(v: &Option<String>, default: u16) -> (r: Option<u16>)
    ensures
        r == port_setting(*v, default),
{
    match v {
        Some(s) => parse_port(s.as_str()),
        None => Some(default),
    }
}

fn text_or_default(v: Option<String>, default: &str) -> (r: String)
    ensures
        r@ == text_setting(v, default@),
{
    match v {
        Some(s) => s,
        None => default.to_owned(),
    }
}

impl AppConfig {
    /// Builds the configuration from the environment's settings. Unset optional
    /// settings take their defaults; a port that does not parse, or a missing
    /// TLS certificate, key or CA path, is a configuration error.
    pub fn load_from_env(vars: EnvVars) -> (r: Result<AppConfig, ServiceError>)
        ensures
            r is Ok <==> config_loads(vars),
            r is Err ==> r->Err_0 is ConfigError,
            r matches Ok(c) ==> {
                &&& Some(c.grpc_listen_addr.port) == port_setting(vars.grpc_port, DEFAULT_GRPC_PORT)
                &&& Some(c.http_listen_addr.port) == port_setting(vars.http_port, DEFAULT_HTTP_PORT)
                &&& Some(c.sip_listen_addr.port) == port_setting(vars.sip_port, DEFAULT_SIP_PORT)
                &&& c.grpc_listen_addr.host == ListenHost::AnyV6
                &&& c.http_listen_addr.host == ListenHost::AnyV6
                &&& c.sip_listen_addr.host == ListenHost::AnyV4
                &&& c.env@ == text_setting(vars.env, "production"@)
                &&& c.rust_log@ == text_setting(vars.rust_log, "info"@)
                &&& c.service_version@ == text_setting(vars.service_version, "0.1.0"@)
                &&& c.registrar_service_url@ == text_setting(
                    vars.registrar_service_url,
                    "registrar-service:12061"@,
                )
                &&& c.b2bua_service_url@ == text_setting(vars.b2bua_service_url, "b2bua-service:12081"@)
                &&& c.cert_path@ == vars.cert_path->Some_0@
                &&& c.key_path@ == vars.key_path->Some_0@
                &&& c.ca_path@ == vars.ca_path->Some_0@
            },
    {
        let grpc_port = match port_or_default(&vars.grpc_port, DEFAULT_GRPC_PORT) {
            Some(p) => p,
            None => return Err(ServiceError::ConfigError("invalid gRPC port".to_owned())),
        };
        let http_port = match port_or_default(&vars.http_port, DEFAULT_HTTP_PORT) {
            Some(p) => p,
            None => return Err(ServiceError::ConfigError("invalid HTTP port".to_owned())),
        };
        let sip_port = match port_or_default(&vars.sip_port, DEFAULT_SIP_PORT) {
            Some(p) => p,
            None => return Err(ServiceError::ConfigError("invalid SIP port".to_owned())),
        };
        let cert_path = match vars.cert_path {
            Some(p) => p,
            None => return Err(
                ServiceError::ConfigError("required: PROXY_SERVICE_CERT_PATH is missing".to_owned()),
            ),
        };
        let key_path = match vars.key_path {
            Some(p) => p,
            None => return Err(
                ServiceError::ConfigError("required: PROXY_SERVICE_KEY_PATH is missing".to_owned()),
            ),
        };
        let ca_path = match vars.ca_path {
            Some(p) => p,
            None => return Err(
                ServiceError::ConfigError("required: GRPC_TLS_CA_PATH is missing".to_owned()),
            ),
        };
        Ok(AppConfig {
            grpc_listen_addr: ListenAddr { host: ListenHost::AnyV6, port: grpc_port },
            http_listen_addr: ListenAddr { host: ListenHost::AnyV6, port: http_port },
            sip_listen_addr: ListenAddr { host: ListenHost::AnyV4, port: sip_port },
            env: text_or_default(vars.env, "production"),
            rust_log: text_or_default(vars.rust_log, "info"),
            service_version: text_or_default(vars.service_version, "0.1.0"),
            registrar_service_url: text_or_default(vars.registrar_service_url, "registrar-service:12061"),
            b2bua_service_url: text_or_default(vars.b2bua_service_url, "b2bua-service:12081"),
            cert_path,
            key_path,
            ca_path,
        })
    }
}

} // verus!
