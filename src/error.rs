use vstd::prelude::*;

verus! {

/// Every failure that a call into the library can report.
#[derive(Debug, Clone, PartialEq)]
pub enum ClientError {
    /// The HTTP transport (or its TLS setup) could not be built.
    RestClientBuildError { message: String },
    /// The request did not reach the server or got no answer.
    RequestError { message: String },
    /// The server answered with a status outside the success range.
    ServerResponseError { code: u16, content: Option<String> },
    /// The server answered with success but without the expected payload.
    ResponseEmptyError,
    /// A request or response body could not be (de)serialised.
    JsonParseError { message: String },
    /// The configured server address is not a URL.
    InvalidAddress { address: String },
    /// The configured server address is a URL whose scheme is not HTTP(S).
    InvalidScheme { scheme: String },
}

impl ClientError {
    /// A failure of the request itself: transport or server status.
    pub open spec fn is_request_error(self) -> bool {
        self is RequestError || self is ServerResponseError
    }

    /// A failure of the settings, found when they are built.
    pub open spec fn is_configuration_error(self) -> bool {
        self is InvalidAddress || self is InvalidScheme
    }
}

} // verus!
