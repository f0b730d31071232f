use vstd::prelude::*;
use vstd::string::*;
use crate::error::ClientError;

verus! {

/// The address used when neither the caller nor the environment names one.
pub open spec fn default_address_text() -> Seq<char> {
    "http://127.0.0.1:8200"@
}

/// The scheme of the URL written in `s`, or `None` where `s` is not a URL.
pub uninterp spec fn url_scheme(s: Seq<char>) -> Option<Seq<char>>;

/// Relies on `url::Url::parse`, of whose result only the scheme is kept
/// (`Url::scheme`): parsing depends on the text alone, never panics, and a
/// parsed URL always has a scheme.
#[verifier::external_body]
fn parse_scheme(address: &str) -> (r: Option<String>)
    ensures
        r is Some <==> url_scheme(address@) is Some,
        r is Some ==> url_scheme(address@) == Some(r->Some_0@),
{
    url::Url::parse(address).ok().map(|u| u.scheme().to_string())
}

/// The schemes under which a server can be reached.
pub open spec fn is_http_scheme(s: Seq<char>) -> bool {
    s == "http"@ || s == "https"@
}

/// An address is accepted when it is a URL with an HTTP(S) scheme.
pub open spec fn is_valid_address(address: Seq<char>) -> bool {
    url_scheme(address) is Some && is_http_scheme(url_scheme(address)->Some_0)
}

/// The text of an optional string.
pub open spec fn text_of(o: Option<String>) -> Option<Seq<char>> {
    match o {
        Some(s) => Some(s@),
        None => None,
    }
}

/// Picks the first value given, in order of precedence: the caller's, then
/// the environment's, then the built-in default.
pub open spec fn pick<T>(explicit: Option<T>, from_env: Option<T>, fallback: T) -> T {
    match explicit {
        Some(v) => v,
        None => match from_env {
            Some(v) => v,
            None => fallback,
        },
    }
}

/// What the process environment held when the settings were built.
///
/// Each field is the value of one variable: the server address, a CA
/// certificate file, the entries of a CA certificate directory (`None` where
/// the variable is unset or the directory cannot be read), the credential,
/// and whether the variable that turns off TLS verification is present.
pub struct SettingsEnvironment {
    pub address: Option<String>,
    pub ca_cert: Option<String>,
    pub ca_path_entries: Option<Vec<String>>,
    pub token: Option<String>,
    pub skip_verify: bool,
}

/// Contains settings for configuring a client.
pub struct VaultClientSettings {
    pub address: String,
    pub ca_certs: Vec<String>,
    pub token: String,
    pub verify: bool,
    pub version: u8,
    pub wrapping: bool,
}

/// Collects the settings that the caller gives; the others are taken from
/// the environment or from their defaults by [`VaultClientSettingsBuilder::build`].
pub struct VaultClientSettingsBuilder {
    pub address: Option<String>,
    pub ca_certs: Option<Vec<String>>,
    pub token: Option<String>,
    pub verify: Option<bool>,
    pub version: Option<u8>,
    pub wrapping: Option<bool>,
}

impl SettingsEnvironment {
    /// The CA certificates that the environment names: the file first, then
    /// each entry of the directory.
    pub open spec fn ca_certs_spec(&self) -> Seq<String> {
        let file: Seq<String> = match self.ca_cert {
            Some(c) => seq![c],
            None => Seq::empty(),
        };
        match self.ca_path_entries {
            Some(entries) => file + entries@,
            None => file,
        }
    }
}

impl VaultClientSettingsBuilder {
    /// A builder in which the caller has given nothing yet.
    pub fn new() -> (r: Self)
        ensures
            r.address is None,
            r.ca_certs is None,
            r.token is None,
            r.verify is None,
            r.version is None,
            r.wrapping is None,
    {
        VaultClientSettingsBuilder {
            address: None,
            ca_certs: None,
            token: None,
            verify: None,
            version: None,
            wrapping: None,
        }
    }

    /// Gives the server address.
    pub fn address(self, address: String) -> (r: Self)
        ensures
            r == (VaultClientSettingsBuilder { address: Some(address), ..self }),
    {
        VaultClientSettingsBuilder { address: Some(address), ..self }
    }

    /// Gives the CA certificates to trust.
    pub fn ca_certs(self, ca_certs: Vec<String>) -> (r: Self)
        ensures
            r == (VaultClientSettingsBuilder { ca_certs: Some(ca_certs), ..self }),
    {
        VaultClientSettingsBuilder { ca_certs: Some(ca_certs), ..self }
    }

    /// Gives the credential.
    pub fn token(self, token: String) -> (r: Self)
        ensures
            r == (VaultClientSettingsBuilder { token: Some(token), ..self }),
    {
        VaultClientSettingsBuilder { token: Some(token), ..self }
    }

    /// Says whether the server's certificate is verified.
    pub fn verify(self, verify: bool) -> (r: Self)
        ensures
            r == (VaultClientSettingsBuilder { verify: Some(verify), ..self }),
    {
        VaultClientSettingsBuilder { verify: Some(verify), ..self }
    }

    /// Gives the API version number.
    pub fn version(self, version: u8) -> (r: Self)
        ensures
            r == (VaultClientSettingsBuilder { version: Some(version), ..self }),
    {
        VaultClientSettingsBuilder { version: Some(version), ..self }
    }

    /// Says whether responses are to be wrapped.
    pub fn wrapping(self, wrapping: bool) -> (r: Self)
        ensures
            r == (VaultClientSettingsBuilder { wrapping: Some(wrapping), ..self }),
    {
        VaultClientSettingsBuilder { wrapping: Some(wrapping), ..self }
    }

    /// The address that `build` settles on.
    pub open spec fn address_spec(&self, env: &SettingsEnvironment) -> Seq<char> {
        pick(
            text_of(self.address),
            text_of(env.address),
            default_address_text(),
        )
    }

    /// The credential that `build` settles on; empty means unauthenticated.
    pub open spec fn token_spec(&self, env: &SettingsEnvironment) -> Seq<char> {
        pick(text_of(self.token), text_of(env.token), Seq::empty())
    }

    /// Whether `build` settles on verifying the server's certificate.
    pub open spec fn verify_spec(&self, env: &SettingsEnvironment) -> bool {
        pick(self.verify, if env.skip_verify { Some(false) } else { None }, true)
    }

    /// The CA certificates that `build` settles on.
    pub open spec fn ca_certs_spec(&self, env: &SettingsEnvironment) -> Seq<String> {
        match self.ca_certs {
            Some(c) => c@,
            None => env.ca_certs_spec(),
        }
    }

    fn default_address(env: &SettingsEnvironment) -> (r: String)
        ensures
            r@ == pick(None, text_of(env.address), default_address_text()),
    {
        match &env.address {
            Some(a) => a.clone(),
            None => String::from_str("http://127.0.0.1:8200"),
        }
    }

    fn default_token(env: &SettingsEnvironment) -> (r: String)
        ensures
            r@ == pick(None, text_of(env.token), Seq::empty()),
    {
        match &env.token {
            Some(t) => t.clone(),
            None => String::new(),
        }
    }

    fn default_verify(env: &SettingsEnvironment) -> (r: bool)
        ensures
            r == !env.skip_verify,
    {
        !env.skip_verify
    }

    fn default_ca_certs(env: SettingsEnvironment) -> (r: Vec<String>)
        ensures
            r@ == env.ca_certs_spec(),
    {
        let mut paths: Vec<String> = Vec::new();
        if let Some(c) = env.ca_cert {
            paths.push(c);
        }
        if let Some(mut entries) = env.ca_path_entries {
            paths.append(&mut entries);
        }
        paths
    }

    /// Checks that the address is a URL whose scheme is "http" or "https".
    pub fn validate(address: &str) -> (r: Result<(), ClientError>)
        ensures
            r is Ok <==> is_valid_address(address@),
            url_scheme(address@) is None ==> (r matches Err(ClientError::InvalidAddress { address: a })
                && a@ == address@),
            url_scheme(address@) is Some && !is_http_scheme(url_scheme(address@)->Some_0) ==> (
            r matches Err(ClientError::InvalidScheme { scheme: t }) && t@ == url_scheme(
                address@,
            )->Some_0),
    {
        match parse_scheme(address) {
            None => Err(ClientError::InvalidAddress { address: address.to_owned() }),
            Some(scheme) => {
                if scheme == String::from_str("http") || scheme == String::from_str("https") {
                    Ok(())
                } else {
                    Err(ClientError::InvalidScheme { scheme })
                }
            },
        }
    }

    /// Builds the settings: each value the caller gave wins, then the
    /// environment's, then the default; the address must pass [`Self::validate`].
    pub fn build(self, env: SettingsEnvironment) -> (r: Result<VaultClientSettings, ClientError>)
        ensures
            r is Ok <==> is_valid_address(self.address_spec(&env)),
            r matches Err(e) ==> e.is_configuration_error(),
            r matches Ok(s) ==> {
                &&& s.address@ == self.address_spec(&env)
                &&& s.ca_certs@ == self.ca_certs_spec(&env)
                &&& s.token@ == self.token_spec(&env)
                &&& s.verify == self.verify_spec(&env)
                &&& s.version == pick(self.version, None, 1u8)
                &&& s.wrapping == pick(self.wrapping, None, false)
            },
    {
        let address = match self.address {
            Some(a) => a,
            None => Self::default_address(&env),
        };
        if let Err(e) = Self::validate(address.as_str()) {
            return Err(e);
        }
        let token = match self.token {
            Some(t) => t,
            None => Self::default_token(&env),
        };
        let verify = match self.verify {
            Some(v) => v,
            None => Self::default_verify(&env),
        };
        let ca_certs = match self.ca_certs {
            Some(c) => c,
            None => Self::default_ca_certs(env),
        };
        let version = match self.version {
            Some(v) => v,
            None => 1,
        };
        let wrapping = match self.wrapping {
            Some(w) => w,
            None => false,
        };
        Ok(VaultClientSettings { address, ca_certs, token, verify, version, wrapping })
    }
}

/// For every setting, a value the caller gives wins over the environment's,
/// and a value the environment gives wins over the default.
pub proof fn lemma_setting_precedence(b: VaultClientSettingsBuilder, env: SettingsEnvironment)
    ensures
        b.address is Some ==> b.address_spec(&env) == b.address->Some_0@,
        b.address is None && env.address is Some ==> b.address_spec(&env) == env.address->Some_0@,
        b.address is None && env.address is None ==> b.address_spec(&env) == default_address_text(),
        b.token is Some ==> b.token_spec(&env) == b.token->Some_0@,
        b.token is None && env.token is Some ==> b.token_spec(&env) == env.token->Some_0@,
        b.token is None && env.token is None ==> b.token_spec(&env).len() == 0,
        b.verify is Some ==> b.verify_spec(&env) == b.verify->Some_0,
        b.verify is None ==> b.verify_spec(&env) == !env.skip_verify,
        b.ca_certs is Some ==> b.ca_certs_spec(&env) == b.ca_certs->Some_0@,
        b.ca_certs is None ==> b.ca_certs_spec(&env) == env.ca_certs_spec(),
{
}

} // verus!
