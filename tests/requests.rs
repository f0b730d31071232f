use vaultrs::api::{exec_with_empty, exec_with_result};
use vaultrs::client::{server_status, ServerStatus, VaultClient};
use vaultrs::error::ClientError;
use vaultrs::kv2;
use vaultrs::request::{decimal_text, join_path, Method, RequestBody, VersioningOptions};
use vaultrs::responses::{AuthInfo, ListSecretsResponse, ReadHealthResponse, ReadSecretResponse};
use vaultrs::settings::{SettingsEnvironment, VaultClientSettingsBuilder};

fn client(token: &str) -> VaultClient {
    let mut b = VaultClientSettingsBuilder::new();
    b.address = Some("http://127.0.0.1:8200".to_string());
    b.token = Some(token.to_string());
    let env = SettingsEnvironment { address: None, ca_cert: None, ca_path_entries: None, token: None, skip_verify: false };
    VaultClient::new(b.build(env).unwrap())
}

fn auth(token: &str) -> AuthInfo {
    AuthInfo {
        client_token: token.to_string(),
        accessor: "acc".to_string(),
        policies: vec!["default".to_string()],
        token_policies: vec!["default".to_string()],
        metadata: None,
        lease_duration: 3600,
        renewable: true,
        entity_id: "".to_string(),
        token_type: "service".to_string(),
        orphan: false,
    }
}

#[test]
fn read_issues_get_with_credential_and_returns_inner_data() {
    let c = client("X");
    let r = c.request(kv2::read("secret", "foo"));
    assert_eq!(r.method, Method::Get);
    assert_eq!(r.path, "/v1/secret/data/foo");
    assert_eq!(r.token, Some("X".to_string()));
    assert!(r.query.is_empty());
    assert!(matches!(r.body, RequestBody::Empty));

    let body = r#"{"data":{"data":{"k":"v"}}}"#;
    let envelope: serde_json::Value = serde_json::from_str(body).unwrap();
    let payload = ReadSecretResponse { data: envelope["data"]["data"].clone(), metadata: None };
    let res = exec_with_result(200, Some(body.to_string()), Ok(Some(payload))).unwrap();
    let expected: serde_json::Value = serde_json::from_str(r#"{"k":"v"}"#).unwrap();
    assert_eq!(kv2::read_data(res), expected);
}

#[test]
fn list_issues_list_and_returns_keys() {
    let c = client("X");
    let r = c.request(kv2::list("secret", ""));
    assert_eq!(r.method, Method::List);
    assert_eq!(r.path, "/v1/secret/metadata/");
    let res = ListSecretsResponse { keys: vec!["a".to_string(), "b/".to_string()] };
    let res = exec_with_result(200, None, Ok(Some(res))).unwrap();
    assert_eq!(kv2::list_keys(res), vec!["a", "b/"]);
}

#[test]
fn set_then_read_address_the_same_secret() {
    let data: serde_json::Value = serde_json::from_str(r#"{"user":"u","n":3}"#).unwrap();
    let w = kv2::set("kv", "app/db", data.clone());
    let r = kv2::read("kv", "app/db");
    assert_eq!(w.method, Method::Post);
    assert_eq!(w.path, r.path);
    assert_eq!(w.path, "kv/data/app/db");
    match w.body {
        RequestBody::Data(d) => assert_eq!(d, data),
        _ => panic!("set must carry the payload"),
    }
}

#[test]
fn version_operations_share_versions() {
    let d = kv2::delete_versions("kv", "s", vec![1, 3]);
    let u = kv2::undelete_versions("kv", "s", vec![1, 3]);
    let x = kv2::destroy_versions("kv", "s", vec![1, 3]);
    assert_eq!(d.path, "kv/delete/s");
    assert_eq!(u.path, "kv/undelete/s");
    assert_eq!(x.path, "kv/destroy/s");
    for e in [d, u, x] {
        assert_eq!(e.method, Method::Post);
        match e.body {
            RequestBody::Versions(v) => assert_eq!(v, vec![1, 3]),
            _ => panic!("versions expected"),
        }
    }
}

#[test]
fn other_secret_endpoints() {
    let e = kv2::delete_latest("kv", "s");
    assert_eq!((e.method, e.path.as_str()), (Method::Delete, "kv/data/s"));
    let e = kv2::delete_metadata("kv", "s");
    assert_eq!((e.method, e.path.as_str()), (Method::Delete, "kv/metadata/s"));
    let e = kv2::read_metadata("kv", "s");
    assert_eq!((e.method, e.path.as_str()), (Method::Get, "kv/metadata/s"));
    let e = kv2::read_version("kv", "s", 7);
    assert_eq!((e.method, e.path.as_str()), (Method::Get, "kv/data/s"));
    assert_eq!(e.query, vec![("version".to_string(), 7)]);
}

#[test]
fn metadata_and_config_options() {
    let e = kv2::set_metadata("kv", "s", None);
    assert_eq!((e.method, e.path.as_str()), (Method::Post, "kv/metadata/s"));
    match e.body {
        RequestBody::Options(o) => {
            assert_eq!(o.max_versions, None);
            assert_eq!(o.cas_required, None);
            assert_eq!(o.delete_version_after, None);
        }
        _ => panic!("options expected"),
    }
    let mut o = VersioningOptions::new();
    o.max_versions = Some(5);
    let e = kv2::config::set("kv", Some(o));
    assert_eq!((e.method, e.path.as_str()), (Method::Post, "kv/config"));
    match e.body {
        RequestBody::Options(o) => assert_eq!(o.max_versions, Some(5)),
        _ => panic!("options expected"),
    }
    let e = kv2::config::read("kv");
    assert_eq!((e.method, e.path.as_str()), (Method::Get, "kv/config"));
}

#[test]
fn empty_credential_is_not_sent() {
    let c = client("");
    let r = c.lookup();
    assert_eq!(r.token, None);
    assert_eq!(r.path, "/v1/auth/token/lookup-self");
    let r = c.revoke();
    assert_eq!(r.token, None);
    assert_eq!((r.method, r.path.as_str()), (Method::Post, "/v1/auth/token/revoke-self"));
    let r = c.renew(Some("1h".to_string()));
    assert_eq!(r.path, "/v1/auth/token/renew-self");
    assert!(matches!(r.body, RequestBody::Increment(Some(ref s)) if s == "1h"));
}

#[test]
fn rejected_credential_calls_fail_with_request_error() {
    let r: Result<AuthInfo, ClientError> = exec_with_result(403, Some("permission denied".to_string()), Ok(None));
    assert_eq!(
        r.err(),
        Some(ClientError::ServerResponseError { code: 403, content: Some("permission denied".to_string()) })
    );
    assert_eq!(exec_with_empty(403, None), Err(ClientError::ServerResponseError { code: 403, content: None }));
}

#[test]
fn status_never_sends_credential() {
    let c = client("secret-token");
    let r = c.status();
    assert_eq!(r.token, None);
    assert_eq!((r.method, r.path.as_str()), (Method::Get, "/v1/sys/health"));
    let health: Result<ReadHealthResponse, ClientError> = Err(ClientError::ServerResponseError { code: 503, content: None });
    assert_eq!(server_status(&health), ServerStatus::SEALED);
}

#[test]
fn server_status_codes() {
    let ok: Result<(), ClientError> = Ok(());
    assert_eq!(server_status(&ok), ServerStatus::OK);
    let code = |c: u16| -> Result<(), ClientError> { Err(ClientError::ServerResponseError { code: c, content: None }) };
    assert_eq!(server_status(&code(429)), ServerStatus::STANDBY);
    assert_eq!(server_status(&code(472)), ServerStatus::RECOVERY);
    assert_eq!(server_status(&code(473)), ServerStatus::PERFSTANDBY);
    assert_eq!(server_status(&code(501)), ServerStatus::UNINITIALIZED);
    assert_eq!(server_status(&code(503)), ServerStatus::SEALED);
    assert_eq!(server_status(&code(500)), ServerStatus::UNKNOWN);
    let other: Result<(), ClientError> = Err(ClientError::RequestError { message: "refused".to_string() });
    assert_eq!(server_status(&other), ServerStatus::UNKNOWN);
}

#[test]
fn execution_outcomes() {
    assert_eq!(exec_with_empty(204, None), Ok(()));
    assert_eq!(exec_with_empty(200, Some("x".to_string())), Ok(()));
    assert_eq!(exec_with_empty(208, None), Ok(()));
    assert!(exec_with_empty(209, None).is_err());
    assert!(exec_with_empty(199, None).is_err());
    let r: Result<u64, ClientError> = exec_with_result(200, None, Err("bad json".to_string()));
    assert_eq!(r, Err(ClientError::JsonParseError { message: "bad json".to_string() }));
    let r: Result<u64, ClientError> = exec_with_result(200, None, Ok(None));
    assert_eq!(r, Err(ClientError::ResponseEmptyError));
    let r: Result<u64, ClientError> = exec_with_result(201, None, Ok(Some(9)));
    assert_eq!(r, Ok(9));
}

#[test]
fn login_replaces_credential() {
    let mut c = client("old");
    assert_eq!(c.login(Ok(auth("new"))), Ok(()));
    assert_eq!(c.middle.token, "new");
    assert_eq!(c.settings.token, "new");
    assert_eq!(c.lookup().token, Some("new".to_string()));
}

#[test]
fn failed_login_keeps_credential() {
    let mut c = client("old");
    let e = ClientError::ServerResponseError { code: 400, content: None };
    assert_eq!(c.login(Err(e.clone())), Err(e));
    assert_eq!(c.middle.token, "old");
}

#[test]
fn version_segment() {
    assert_eq!(client("").middle.version, "v1");
    assert_eq!(decimal_text(0), "0");
    assert_eq!(decimal_text(9), "9");
    assert_eq!(decimal_text(10), "10");
    assert_eq!(decimal_text(255), "255");
    assert_eq!(join_path("a", ""), "a/");
}

#[test]
fn wrapped_request_asks_for_wrapping() {
    let c = client("X");
    let r = c.request_wrapped(kv2::read("secret", "foo"), "5m".to_string());
    assert_eq!(r.wrap_ttl, Some("5m".to_string()));
    assert_eq!(r.token, Some("X".to_string()));
    assert_eq!(r.path, "/v1/secret/data/foo");
    assert_eq!(c.request(kv2::read("secret", "foo")).wrap_ttl, None);
}

#[test]
fn version_segment_follows_settings() {
    let mut b = VaultClientSettingsBuilder::new().version(2);
    b.address = Some("http://h:1".to_string());
    let env = SettingsEnvironment { address: None, ca_cert: None, ca_path_entries: None, token: None, skip_verify: false };
    let c = VaultClient::new(b.build(env).unwrap());
    assert_eq!(c.middle.version, "v2");
    assert_eq!(c.lookup().path, "/v2/auth/token/lookup-self");
}
