use vaultrs::error::ClientError;
use vaultrs::settings::{SettingsEnvironment, VaultClientSettingsBuilder};

fn empty_env() -> SettingsEnvironment {
    SettingsEnvironment { address: None, ca_cert: None, ca_path_entries: None, token: None, skip_verify: false }
}

fn with_address(a: &str) -> VaultClientSettingsBuilder {
    let mut b = VaultClientSettingsBuilder::new();
    b.address = Some(a.to_string());
    b
}

#[test]
fn build_accepts_http_and_https() {
    assert!(with_address("http://127.0.0.1:8200").build(empty_env()).is_ok());
    assert!(with_address("https://vault.example.com").build(empty_env()).is_ok());
    assert!(with_address("https://vault.example.com:8200/sub/path").build(empty_env()).is_ok());
}

#[test]
fn build_accepts_upper_case_scheme() {
    // the URL parser lowers the scheme before it is checked
    assert!(with_address("HTTPS://vault.example.com").build(empty_env()).is_ok());
}

#[test]
fn build_rejects_other_schemes() {
    let r = with_address("ftp://vault.example.com").build(empty_env());
    assert_eq!(r.err(), Some(ClientError::InvalidScheme { scheme: "ftp".to_string() }));
    let r = with_address("file:///etc/hosts").build(empty_env());
    assert_eq!(r.err(), Some(ClientError::InvalidScheme { scheme: "file".to_string() }));
}

#[test]
fn build_rejects_malformed_address() {
    let r = with_address("not a url").build(empty_env());
    assert_eq!(r.err(), Some(ClientError::InvalidAddress { address: "not a url".to_string() }));
    let r = with_address("").build(empty_env());
    assert_eq!(r.err(), Some(ClientError::InvalidAddress { address: "".to_string() }));
}

#[test]
fn build_rejects_bad_address_from_environment() {
    let mut env = empty_env();
    env.address = Some("localhost:8200x".to_string());
    let r = VaultClientSettingsBuilder::new().build(env);
    assert_eq!(r.err(), Some(ClientError::InvalidScheme { scheme: "localhost".to_string() }));
}

#[test]
fn defaults_without_environment() {
    let s = VaultClientSettingsBuilder::new().build(empty_env()).unwrap();
    assert_eq!(s.address, "http://127.0.0.1:8200");
    assert_eq!(s.token, "");
    assert!(s.verify);
    assert_eq!(s.version, 1);
    assert!(!s.wrapping);
    assert!(s.ca_certs.is_empty());
}

#[test]
fn environment_wins_over_default() {
    let env = SettingsEnvironment {
        address: Some("https://env.example.com:8200".to_string()),
        ca_cert: Some("/certs/ca.pem".to_string()),
        ca_path_entries: Some(vec!["/dir/a.pem".to_string(), "/dir/b.pem".to_string()]),
        token: Some("env-token".to_string()),
        skip_verify: true,
    };
    let s = VaultClientSettingsBuilder::new().build(env).unwrap();
    assert_eq!(s.address, "https://env.example.com:8200");
    assert_eq!(s.token, "env-token");
    assert!(!s.verify);
    assert_eq!(s.ca_certs, vec!["/certs/ca.pem", "/dir/a.pem", "/dir/b.pem"]);
}

#[test]
fn explicit_wins_over_environment() {
    let env = SettingsEnvironment {
        address: Some("https://env.example.com:8200".to_string()),
        ca_cert: Some("/certs/ca.pem".to_string()),
        ca_path_entries: None,
        token: Some("env-token".to_string()),
        skip_verify: true,
    };
    let mut b = with_address("http://explicit:8200");
    b.token = Some("mine".to_string());
    b.verify = Some(true);
    b.ca_certs = Some(vec!["/my/ca.pem".to_string()]);
    b.version = Some(2);
    b.wrapping = Some(true);
    let s = b.build(env).unwrap();
    assert_eq!(s.address, "http://explicit:8200");
    assert_eq!(s.token, "mine");
    assert!(s.verify);
    assert_eq!(s.ca_certs, vec!["/my/ca.pem"]);
    assert_eq!(s.version, 2);
    assert!(s.wrapping);
}

#[test]
fn ca_directory_alone() {
    let mut env = empty_env();
    env.ca_path_entries = Some(vec!["/dir/x.pem".to_string()]);
    let s = VaultClientSettingsBuilder::new().build(env).unwrap();
    assert_eq!(s.ca_certs, vec!["/dir/x.pem"]);
}

#[test]
fn validate_reports_each_case() {
    assert_eq!(VaultClientSettingsBuilder::validate("http://a"), Ok(()));
    assert_eq!(
        VaultClientSettingsBuilder::validate("ws://a"),
        Err(ClientError::InvalidScheme { scheme: "ws".to_string() })
    );
    assert_eq!(
        VaultClientSettingsBuilder::validate("::"),
        Err(ClientError::InvalidAddress { address: "::".to_string() })
    );
}

#[test]
fn setters_fill_the_builder() {
    let b = VaultClientSettingsBuilder::new()
        .address("https://a.example.com".to_string())
        .token("t".to_string())
        .verify(false)
        .version(3)
        .wrapping(true)
        .ca_certs(vec!["/c.pem".to_string()]);
    let s = b.build(empty_env()).unwrap();
    assert_eq!(s.address, "https://a.example.com");
    assert_eq!(s.token, "t");
    assert!(!s.verify);
    assert_eq!(s.version, 3);
    assert!(s.wrapping);
    assert_eq!(s.ca_certs, vec!["/c.pem"]);
}
