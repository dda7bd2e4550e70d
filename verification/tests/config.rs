//! Server configuration: URL resolution, credential resolution and
//! construction from environment-variable values.

use splunk::client::AuthenticationMethod;
use splunk::client::RequestAuth;
use splunk::errors::SplunkError;
use splunk::ServerConfig;
use splunk::ServerConfigType;

#[test]
fn resolve_elides_default_https_port() {
    let config = ServerConfig::new("host".to_string()).with_port(443);
    assert_eq!(config.get_url("/x").unwrap(), "https://host/x");
}

#[test]
fn resolve_keeps_other_ports() {
    let config = ServerConfig::new("host".to_string()).with_port(8089);
    assert_eq!(config.get_url("/x").unwrap(), "https://host:8089/x");
}

#[test]
fn resolve_elides_default_http_port() {
    let config = ServerConfig::new("host".to_string()).use_tls(false).with_port(80);
    assert_eq!(config.get_url("/x").unwrap(), "http://host/x");
    let config = ServerConfig::new("host".to_string()).use_tls(false).with_port(8088);
    assert_eq!(config.get_url("/x").unwrap(), "http://host:8088/x");
}

#[test]
fn resolve_rejects_bad_hostnames() {
    let config = ServerConfig::new("".to_string());
    assert!(matches!(config.get_url("/x"), Err(SplunkError::Generic(_))));
    let config = ServerConfig::new("not a host".to_string());
    assert!(matches!(config.get_url("/x"), Err(SplunkError::Generic(_))));
}

#[test]
fn resolve_accepts_unusual_but_valid_hostnames() {
    let config = ServerConfig::new("host_name".to_string()).with_port(443);
    assert_eq!(config.get_url("/x").unwrap(), "https://host_name/x");
    let config = ServerConfig::new("[::1]".to_string()).with_port(8089);
    assert_eq!(config.get_url("/x").unwrap(), "https://[::1]:8089/x");
}

#[test]
fn token_credential_reaches_the_header() {
    let config = ServerConfig::new("host".to_string()).with_token("abc".to_string());
    match config.auth_header().unwrap() {
        RequestAuth::Header { name, value } => {
            assert_eq!(name, "Authorization");
            assert_eq!(value, "Splunk abc");
            assert!(value.contains("abc"));
        }
        other => panic!("expected a header, got {:?}", other),
    }
}

#[test]
fn basic_credential_uses_basic_auth() {
    let config =
        ServerConfig::new("host".to_string()).with_username_password("u".to_string(), "p".to_string());
    match config.auth_header().unwrap() {
        RequestAuth::Basic { username, password } => {
            assert_eq!(username, "u");
            assert_eq!(password, "p");
        }
        other => panic!("expected basic auth, got {:?}", other),
    }
}

#[test]
fn unset_credential_is_never_sent() {
    let config = ServerConfig::new("host".to_string());
    assert!(matches!(
        config.auth_header(),
        Err(SplunkError::NotAuthenticated)
    ));
}

#[test]
fn cookie_credential_is_unsupported() {
    let mut config = ServerConfig::new("host".to_string());
    config.auth_method = AuthenticationMethod::Cookie { cookie: Vec::new() };
    assert!(matches!(
        config.auth_header(),
        Err(SplunkError::InvalidAuthmethod(_))
    ));
}

#[test]
fn token_getter_follows_the_method() {
    let config = ServerConfig::new("host".to_string());
    assert_eq!(config.token(), None);
    let config = config.with_token("tok".to_string());
    assert_eq!(config.token(), Some("tok".to_string()));
    let config = ServerConfig::new("host".to_string())
        .with_username_password("user".to_string(), "pass".to_string());
    assert_eq!(config.token(), Some("pass".to_string()));
}

#[test]
fn builders_replace_one_field() {
    let config = ServerConfig::new("a".to_string())
        .with_hostname("b".to_string())
        .with_port(99)
        .with_verify_tls(false)
        .use_tls(false);
    assert_eq!(config.hostname, "b");
    assert_eq!(config.port, 99);
    assert!(!config.verify_tls);
    assert!(!config.use_tls);
}

#[test]
fn from_values_hec_defaults_port() {
    let config = ServerConfig::try_from_values(
        ServerConfigType::Hec,
        Some("host".to_string()),
        None,
        Some("tok".to_string()),
        None,
        None,
    )
    .unwrap();
    assert_eq!(config.hostname, "host");
    assert_eq!(config.port, 8088);
    assert_eq!(config.token(), Some("tok".to_string()));
}

#[test]
fn from_values_api_defaults_port() {
    let config = ServerConfig::try_from_values(
        ServerConfigType::Api,
        Some("host".to_string()),
        None,
        None,
        Some("user".to_string()),
        Some("pass".to_string()),
    )
    .unwrap();
    assert_eq!(config.port, 8089);
    assert!(matches!(
        config.auth_method,
        AuthenticationMethod::Basic { .. }
    ));
}

#[test]
fn from_values_parses_the_port() {
    let config = ServerConfig::try_from_values(
        ServerConfigType::Hec,
        Some("host".to_string()),
        Some("9999".to_string()),
        Some("tok".to_string()),
        None,
        None,
    )
    .unwrap();
    assert_eq!(config.port, 9999);
}

#[test]
fn from_values_names_the_missing_variable() {
    let err = ServerConfig::try_from_values(ServerConfigType::Hec, None, None, None, None, None)
        .unwrap_err();
    match err {
        SplunkError::Generic(m) => {
            assert_eq!(m, "Please ensure env var SPLUNK_HEC_HOSTNAME is set")
        }
        other => panic!("unexpected error {:?}", other),
    }
    let err = ServerConfig::try_from_values(
        ServerConfigType::Hec,
        Some("host".to_string()),
        None,
        None,
        None,
        None,
    )
    .unwrap_err();
    match err {
        SplunkError::Generic(m) => assert_eq!(m, "Please ensure env var SPLUNK_HEC_TOKEN is set"),
        other => panic!("unexpected error {:?}", other),
    }
    let err = ServerConfig::try_from_values(
        ServerConfigType::Api,
        Some("host".to_string()),
        None,
        None,
        None,
        None,
    )
    .unwrap_err();
    match err {
        SplunkError::Generic(m) => {
            assert_eq!(m, "Please ensure env var SPLUNK_USERNAME is set")
        }
        other => panic!("unexpected error {:?}", other),
    }
    let err = ServerConfig::try_from_values(
        ServerConfigType::Api,
        Some("host".to_string()),
        None,
        None,
        Some("user".to_string()),
        None,
    )
    .unwrap_err();
    match err {
        SplunkError::Generic(m) => {
            assert_eq!(m, "Please ensure env var SPLUNK_PASSWORD is set")
        }
        other => panic!("unexpected error {:?}", other),
    }
}

#[test]
fn from_values_rejects_bad_ports() {
    for bad in ["", "port", "65536", "-1", "+80"] {
        let err = ServerConfig::try_from_values(
            ServerConfigType::Hec,
            Some("host".to_string()),
            Some(bad.to_string()),
            Some("tok".to_string()),
            None,
            None,
        )
        .unwrap_err();
        match err {
            SplunkError::Generic(m) => {
                assert_eq!(m, "Please ensure env var SPLUNK_HEC_PORT is a valid port number")
            }
            other => panic!("unexpected error {:?}", other),
        }
    }
}
