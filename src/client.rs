//! The client: settings, per-request context, and the calls on its own
//! credential and on the server's health.

use vstd::prelude::*;
use vstd::string::*;
use crate::api::{empty_outcome, is_success, result_outcome};
use crate::error::ClientError;
use crate::request::{decimal, decimal_text, Endpoint, EndpointMiddleware, HttpRequest, Method, RequestBody};
use crate::responses::AuthInfo;
use crate::settings::VaultClientSettings;

verus! {

/// The health of the server as its status code tells it.
#[allow(non_camel_case_types)]
#[derive(PartialEq, Eq, Structural, Clone, Copy, Debug)]
pub enum ServerStatus {
    OK,
    PERFSTANDBY,
    RECOVERY,
    SEALED,
    STANDBY,
    UNINITIALIZED,
    UNKNOWN,
}

/// The status that a health check's outcome stands for.
pub open spec fn status_spec<T>(outcome: Result<T, ClientError>) -> ServerStatus {
    match outcome {
        Ok(_) => ServerStatus::OK,
        Err(ClientError::ServerResponseError { code, .. }) => {
            if code == 429 {
                ServerStatus::STANDBY
            } else if code == 472 {
                ServerStatus::RECOVERY
            } else if code == 473 {
                ServerStatus::PERFSTANDBY
            } else if code == 501 {
                ServerStatus::UNINITIALIZED
            } else if code == 503 {
                ServerStatus::SEALED
            } else {
                ServerStatus::UNKNOWN
            }
        },
        Err(_) => ServerStatus::UNKNOWN,
    }
}

/// Reads the server's health from the outcome of a health check. The
/// server answers a standby, sealed or uninitialised state with a status
/// code of its own, so every outcome names a status.
pub fn server_status<T>(outcome: &Result<T, ClientError>) -> (r: ServerStatus)
    ensures
        r == status_spec(*outcome),
{
    match outcome {
        Ok(_) => ServerStatus::OK,
        Err(ClientError::ServerResponseError { code, .. }) => {
            if *code == 429 {
                ServerStatus::STANDBY
            } else if *code == 472 {
                ServerStatus::RECOVERY
            } else if *code == 473 {
                ServerStatus::PERFSTANDBY
            } else if *code == 501 {
                ServerStatus::UNINITIALIZED
            } else if *code == 503 {
                ServerStatus::SEALED
            } else {
                ServerStatus::UNKNOWN
            }
        },
        Err(_) => ServerStatus::UNKNOWN,
    }
}

/// A client of the server: its settings, and the context that each of its
/// requests carries.
pub struct VaultClient {
    pub middle: EndpointMiddleware,
    pub settings: VaultClientSettings,
}

fn plain_endpoint(method: Method, path: &str, body: RequestBody) -> (r: Endpoint)
    ensures
        r.method == method,
        r.path@ == path@,
        r.query@.len() == 0,
        r.body == body,
{
    Endpoint { method, path: String::from_str(path), query: Vec::new(), body }
}

impl VaultClient {
    /// `r` is the request of a call on `path` with `method` and no query,
    /// carrying this client's context.
    pub open spec fn sends(&self, r: HttpRequest, method: Method, path: Seq<char>) -> bool {
        &&& r.method == method
        &&& r.path@ == self.middle.path_spec(path)
        &&& r.query@.len() == 0
        &&& r.token == self.middle.token_spec()
        &&& r.wrap_ttl == self.middle.wrap
    }

    /// Creates a client: its requests carry the settings' credential and
    /// the version segment "v" followed by the settings' version number.
    pub fn new(settings: VaultClientSettings) -> (r: VaultClient)
        ensures
            r.settings == settings,
            r.middle.token == settings.token,
            r.middle.version@ == "v"@ + decimal(settings.version as nat),
            r.middle.wrap is None,
    {
        let mut version = String::from_str("v");
        let number = decimal_text(settings.version);
        version.append(number.as_str());
        let middle = EndpointMiddleware { token: settings.token.clone(), version, wrap: None };
        VaultClient { middle, settings }
    }

    /// Takes the outcome of a login: on success the returned credential
    /// replaces the held one; a failure is handed back unchanged.
    pub fn login(&mut self, outcome: Result<AuthInfo, ClientError>) -> (r: Result<(), ClientError>)
        ensures
            match outcome {
                Ok(info) => {
                    &&& r is Ok
                    &&& final(self).middle.token == info.client_token
                    &&& final(self).settings.token == info.client_token
                    &&& final(self).middle.version == old(self).middle.version
                    &&& final(self).middle.wrap == old(self).middle.wrap
                    &&& final(self).settings.address == old(self).settings.address
                    &&& final(self).settings.ca_certs == old(self).settings.ca_certs
                    &&& final(self).settings.verify == old(self).settings.verify
                    &&& final(self).settings.version == old(self).settings.version
                    &&& final(self).settings.wrapping == old(self).settings.wrapping
                },
                Err(e) => r == Err::<(), ClientError>(e) && *final(self) == *old(self),
            },
    {
        match outcome {
            Ok(info) => {
                self.middle.token = info.client_token.clone();
                self.settings.token = info.client_token;
                Ok(())
            },
            Err(e) => Err(e),
        }
    }

    /// Looks up the credential held by this client.
    pub fn lookup(&self) -> (r: HttpRequest)
        ensures
            self.sends(r, Method::Get, "auth/token/lookup-self"@),
            r.body is Empty,
    {
        self.middle.request(plain_endpoint(Method::Get, "auth/token/lookup-self", RequestBody::Empty))
    }

    /// Renews the credential held by this client, asking for the given
    /// increment of its time to live where one is given.
    pub fn renew(&self, increment: Option<String>) -> (r: HttpRequest)
        ensures
            self.sends(r, Method::Post, "auth/token/renew-self"@),
            r.body == RequestBody::Increment(increment),
    {
        self.middle.request(
            plain_endpoint(Method::Post, "auth/token/renew-self", RequestBody::Increment(increment)),
        )
    }

    /// Revokes the credential held by this client.
    pub fn revoke(&self) -> (r: HttpRequest)
        ensures
            self.sends(r, Method::Post, "auth/token/revoke-self"@),
            r.body is Empty,
    {
        self.middle.request(plain_endpoint(Method::Post, "auth/token/revoke-self", RequestBody::Empty))
    }

    /// Checks the server's health; the request never carries a credential,
    /// so it works whatever the client holds. [`server_status`] reads the
    /// outcome.
    pub fn status(&self) -> (r: HttpRequest)
        ensures
            r.method == Method::Get,
            r.path@ == self.middle.path_spec("sys/health"@),
            r.query@.len() == 0,
            r.token is None,
            r.wrap_ttl is None,
            r.body is Empty,
    {
        self.middle.unauthenticated_request(plain_endpoint(Method::Get, "sys/health", RequestBody::Empty))
    }

    /// Attaches this client's context to an endpoint and asks the server to
    /// wrap its answer in a single-use token that lives for `ttl`.
    pub fn request_wrapped(&self, endpoint: Endpoint, ttl: String) -> (r: HttpRequest)
        ensures
            r.method == endpoint.method,
            r.path@ == self.middle.path_spec(endpoint.path@),
            r.query == endpoint.query,
            r.token == self.middle.token_spec(),
            r.wrap_ttl == Some(ttl),
            r.body == endpoint.body,
    {
        let middle = EndpointMiddleware {
            token: self.middle.token.clone(),
            version: self.middle.version.clone(),
            wrap: Some(ttl),
        };
        middle.request(endpoint)
    }

    /// Attaches this client's context to any endpoint.
    pub fn request(&self, endpoint: Endpoint) -> (r: HttpRequest)
        ensures
            r.method == endpoint.method,
            r.path@ == self.middle.path_spec(endpoint.path@),
            r.query == endpoint.query,
            r.token == self.middle.token_spec(),
            r.wrap_ttl == self.middle.wrap,
            r.body == endpoint.body,
    {
        self.middle.request(endpoint)
    }
}

/// A call on the held credential sends no credential where the client
/// holds an empty one, and fails with a request error whenever the server
/// rejects it, whether it expects a payload or not.
pub proof fn lemma_credential_call_rejected<T>(
    client: VaultClient,
    r: HttpRequest,
    method: Method,
    path: Seq<char>,
    code: u16,
    content: Option<String>,
    decoded: Result<Option<T>, String>,
)
    requires
        client.sends(r, method, path),
        !is_success(code),
    ensures
        client.settings.token@.len() == 0 && client.middle.token == client.settings.token ==> r.token is None,
        empty_outcome(code, content) matches Err(e) && e.is_request_error(),
        result_outcome(code, content, decoded) matches Err(e) && e.is_request_error(),
{
}

} // verus!
