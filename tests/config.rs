use proxy_service::config::{parse_port, AppConfig, EnvVars, ListenHost};
use proxy_service::error::ServiceError;

fn tls_only() -> EnvVars {
    EnvVars {
        grpc_port: None,
        http_port: None,
        sip_port: None,
        env: None,
        rust_log: None,
        service_version: None,
        registrar_service_url: None,
        b2bua_service_url: None,
        cert_path: Some("/certs/cert.pem".to_string()),
        key_path: Some("/certs/key.pem".to_string()),
        ca_path: Some("/certs/ca.pem".to_string()),
    }
}

#[test]
fn defaults_apply_when_optional_settings_are_unset() {
    let c = AppConfig::load_from_env(tls_only()).unwrap();
    assert_eq!(c.grpc_listen_addr.port, 12071);
    assert_eq!(c.http_listen_addr.port, 12070);
    assert_eq!(c.sip_listen_addr.port, 5060);
    assert_eq!(c.grpc_listen_addr.host, ListenHost::AnyV6);
    assert_eq!(c.http_listen_addr.host, ListenHost::AnyV6);
    assert_eq!(c.sip_listen_addr.host, ListenHost::AnyV4);
    assert_eq!(c.env, "production");
    assert_eq!(c.rust_log, "info");
    assert_eq!(c.service_version, "0.1.0");
    assert_eq!(c.registrar_service_url, "registrar-service:12061");
    assert_eq!(c.b2bua_service_url, "b2bua-service:12081");
    assert_eq!(c.cert_path, "/certs/cert.pem");
    assert_eq!(c.key_path, "/certs/key.pem");
    assert_eq!(c.ca_path, "/certs/ca.pem");
}

#[test]
fn given_settings_override_defaults() {
    let mut v = tls_only();
    v.grpc_port = Some("9000".to_string());
    v.sip_port = Some("05061".to_string());
    v.env = Some("development".to_string());
    let c = AppConfig::load_from_env(v).unwrap();
    assert_eq!(c.grpc_listen_addr.port, 9000);
    assert_eq!(c.http_listen_addr.port, 12070);
    assert_eq!(c.sip_listen_addr.port, 5061);
    assert_eq!(c.env, "development");
}

#[test]
fn missing_cert_path_is_a_config_error() {
    let mut v = tls_only();
    v.cert_path = None;
    assert!(matches!(AppConfig::load_from_env(v), Err(ServiceError::ConfigError(_))));
}

#[test]
fn missing_key_path_is_a_config_error() {
    let mut v = tls_only();
    v.key_path = None;
    assert!(matches!(AppConfig::load_from_env(v), Err(ServiceError::ConfigError(_))));
}

#[test]
fn missing_ca_path_is_a_config_error() {
    let mut v = tls_only();
    v.ca_path = None;
    assert!(matches!(AppConfig::load_from_env(v), Err(ServiceError::ConfigError(_))));
}

#[test]
fn unparsable_port_is_a_config_error() {
    let mut v = tls_only();
    v.http_port = Some("http".to_string());
    assert!(matches!(AppConfig::load_from_env(v), Err(ServiceError::ConfigError(_))));
    let mut w = tls_only();
    w.sip_port = Some("65536".to_string());
    assert!(matches!(AppConfig::load_from_env(w), Err(ServiceError::ConfigError(_))));
}

#[test]
fn port_parsing_edges() {
    assert_eq!(parse_port("0"), Some(0));
    assert_eq!(parse_port("65535"), Some(65535));
    assert_eq!(parse_port("00080"), Some(80));
    assert_eq!(parse_port("65536"), None);
    assert_eq!(parse_port("99999999999"), None);
    assert_eq!(parse_port(""), None);
    assert_eq!(parse_port("+80"), None);
    assert_eq!(parse_port("80 "), None);
    assert_eq!(parse_port("8a"), None);
}
