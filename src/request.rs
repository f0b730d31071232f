use vstd::prelude::*;
use vstd::string::*;

verus! {

#[verifier::external_type_specification]
#[verifier::external_body]
pub struct ExValue(serde_json::Value);

/// The HTTP method of a request; `List` is the server's own LIST verb.
#[derive(PartialEq, Eq, Structural, Clone, Copy, Debug)]
pub enum Method {
    Get,
    Post,
    Put,
    Delete,
    List,
}

/// Optional settings of a key-value secret, or of a whole key-value mount.
pub struct VersioningOptions {
    pub max_versions: Option<u64>,
    pub cas_required: Option<bool>,
    pub delete_version_after: Option<String>,
}

impl VersioningOptions {
    /// Options that leave every setting as the server has it.
    pub fn new() -> (r: Self)
        ensures
            r.max_versions is None,
            r.cas_required is None,
            r.delete_version_after is None,
    {
        VersioningOptions { max_versions: None, cas_required: None, delete_version_after: None }
    }
}

/// The JSON body of a request, by shape.
pub enum RequestBody {
    /// No body.
    Empty,
    /// `{"versions": [...]}`.
    Versions(Vec<u64>),
    /// `{"data": ...}`, the caller's payload.
    Data(serde_json::Value),
    /// `{"increment": ...}`, omitted where `None`.
    Increment(Option<String>),
    /// The options given, each omitted where `None`.
    Options(VersioningOptions),
}

/// One API call, before the client's context is attached: a method, a path
/// relative to the API root, numeric query parameters, and a body.
pub struct Endpoint {
    pub method: Method,
    pub path: String,
    pub query: Vec<(String, u64)>,
    pub body: RequestBody,
}

/// A request ready for the transport. `path` is absolute on the server;
/// `token` and `wrap_ttl` are the values of the headers named
/// [`TOKEN_HEADER`] and [`WRAP_TTL_HEADER`], sent only where present.
pub struct HttpRequest {
    pub method: Method,
    pub path: String,
    pub query: Vec<(String, u64)>,
    pub token: Option<String>,
    pub wrap_ttl: Option<String>,
    pub body: RequestBody,
}

/// The header that carries the credential.
pub const TOKEN_HEADER: &'static str = "X-Vault-Token";

/// The header that asks the server to wrap its answer.
pub const WRAP_TTL_HEADER: &'static str = "X-Vault-Wrap-TTL";

/// `a + "/" + b`.
pub open spec fn slash_join(a: Seq<char>, b: Seq<char>) -> Seq<char> {
    a + "/"@ + b
}

/// Returns `a + "/" + b`.
pub fn join_path(a: &str, b: &str) -> (r: String)
    ensures
        r@ == slash_join(a@, b@),
{
    let mut s = String::from_str(a);
    s.append("/");
    s.append(b);
    s
}

/// The decimal digit `d`, for `d < 10`.
pub open spec fn digit_char(d: nat) -> char {
    if d == 0 { '0' }
    else if d == 1 { '1' }
    else if d == 2 { '2' }
    else if d == 3 { '3' }
    else if d == 4 { '4' }
    else if d == 5 { '5' }
    else if d == 6 { '6' }
    else if d == 7 { '7' }
    else if d == 8 { '8' }
    else { '9' }
}

/// The decimal text of `n`, without leading zeros.
pub open spec fn decimal(n: nat) -> Seq<char>
    decreases n,
{
    if n < 10 {
        seq![digit_char(n)]
    } else {
        decimal(n / 10).push(digit_char(n % 10))
    }
}

fn digit_text(d: u8) -> (r: &'static str)
    requires
        d < 10,
    ensures
        r@ == seq![digit_char(d as nat)],
{
    proof {
        reveal_strlit("0");
        reveal_strlit("1");
        reveal_strlit("2");
        reveal_strlit("3");
        reveal_strlit("4");
        reveal_strlit("5");
        reveal_strlit("6");
        reveal_strlit("7");
        reveal_strlit("8");
        reveal_strlit("9");
    }
    match d {
        0 => "0",
        1 => "1",
        2 => "2",
        3 => "3",
        4 => "4",
        5 => "5",
        6 => "6",
        7 => "7",
        8 => "8",
        _ => "9",
    }
}

/// Writes `n` in decimal.
pub fn decimal_text(n: u8) -> (r: String)
    ensures
        r@ == decimal(n as nat),
    decreases n,
{
    if n < 10 {
        let r = String::from_str(digit_text(n));
        assert(r@ =~= decimal(n as nat));
        r
    } else {
        let mut s = decimal_text(n / 10);
        s.append(digit_text(n % 10));
        assert(s@ =~= decimal(n as nat));
        s
    }
}

/// Per-request context of a client: its credential, the API version path
/// segment (such as "v1"), and the wrap TTL to ask for, if any.
pub struct EndpointMiddleware {
    pub token: String,
    pub version: String,
    pub wrap: Option<String>,
}

impl EndpointMiddleware {
    /// The absolute path of an endpoint path under this API version.
    pub open spec fn path_spec(&self, path: Seq<char>) -> Seq<char> {
        "/"@ + slash_join(self.version@, path)
    }

    /// The credential header's value: none for an empty credential.
    pub open spec fn token_spec(&self) -> Option<String> {
        if self.token@.len() == 0 {
            None
        } else {
            Some(self.token)
        }
    }

    fn absolute_path(&self, path: &str) -> (r: String)
        ensures
            r@ == self.path_spec(path@),
    {
        let mut s = String::from_str("/");
        let rest = join_path(self.version.as_str(), path);
        s.append(rest.as_str());
        s
    }

    /// Attaches this context to an endpoint: the version segment goes in
    /// front of its path, the credential into its header where non-empty,
    /// and the wrap TTL where one is asked for.
    pub fn request(&self, endpoint: Endpoint) -> (r: HttpRequest)
        ensures
            r.method == endpoint.method,
            r.path@ == self.path_spec(endpoint.path@),
            r.query == endpoint.query,
            r.token == self.token_spec(),
            r.wrap_ttl == self.wrap,
            r.body == endpoint.body,
    {
        let token = if self.token.as_str().is_empty() {
            None
        } else {
            Some(self.token.clone())
        };
        let wrap_ttl = match &self.wrap {
            Some(w) => Some(w.clone()),
            None => None,
        };
        HttpRequest {
            method: endpoint.method,
            path: self.absolute_path(endpoint.path.as_str()),
            query: endpoint.query,
            token,
            wrap_ttl,
            body: endpoint.body,
        }
    }

    /// Like [`Self::request`], but never sends the credential nor asks for
    /// wrapping: for calls that must work without authentication.
    pub fn unauthenticated_request(&self, endpoint: Endpoint) -> (r: HttpRequest)
        ensures
            r.method == endpoint.method,
            r.path@ == self.path_spec(endpoint.path@),
            r.query == endpoint.query,
            r.token is None,
            r.wrap_ttl is None,
            r.body == endpoint.body,
    {
        HttpRequest {
            method: endpoint.method,
            path: self.absolute_path(endpoint.path.as_str()),
            query: endpoint.query,
            token: None,
            wrap_ttl: None,
            body: endpoint.body,
        }
    }
}

} // verus!
