use vstd::prelude::*;
use crate::error::ClientError;

verus! {

/// The statuses that the transport counts as success.
pub open spec fn is_success(code: u16) -> bool {
    200 <= code <= 208
}

/// The outcome of a call that expects no payload, given the response status
/// and the response body as text (where it is UTF-8).
pub open spec fn empty_outcome(code: u16, content: Option<String>) -> Result<(), ClientError> {
    if is_success(code) {
        Ok(())
    } else {
        Err(ClientError::ServerResponseError { code, content })
    }
}

/// The outcome of a call that expects a payload, given the response status,
/// the body as text, and the payload field as decoded from the body (or why
/// decoding failed).
pub open spec fn result_outcome<T>(
    code: u16,
    content: Option<String>,
    decoded: Result<Option<T>, String>,
) -> Result<T, ClientError> {
    if !is_success(code) {
        Err(ClientError::ServerResponseError { code, content })
    } else {
        match decoded {
            Err(message) => Err(ClientError::JsonParseError { message }),
            Ok(None) => Err(ClientError::ResponseEmptyError),
            Ok(Some(v)) => Ok(v),
        }
    }
}

/// Decides a call that expects no payload: any body is discarded.
pub fn exec_with_empty(code: u16, content: Option<String>) -> (r: Result<(), ClientError>)
    ensures
        r == empty_outcome(code, content),
{
    if 200 <= code && code <= 208 {
        Ok(())
    } else {
        Err(ClientError::ServerResponseError { code, content })
    }
}

/// Decides a call that expects a payload.
pub fn exec_with_result<T>(
    code: u16,
    content: Option<String>,
    decoded: Result<Option<T>, String>,
) -> (r: Result<T, ClientError>)
    ensures
        r == result_outcome(code, content, decoded),
{
    if 200 <= code && code <= 208 {
        match decoded {
            Err(message) => Err(ClientError::JsonParseError { message }),
            Ok(None) => Err(ClientError::ResponseEmptyError),
            Ok(Some(v)) => Ok(v),
        }
    } else {
        Err(ClientError::ServerResponseError { code, content })
    }
}

/// A rejected call fails with a request error, whatever it expected.
pub proof fn lemma_rejected_call_fails<T>(
    code: u16,
    content: Option<String>,
    decoded: Result<Option<T>, String>,
)
    requires
        !is_success(code),
    ensures
        empty_outcome(code, content) matches Err(e) && e.is_request_error(),
        result_outcome(code, content, decoded) matches Err(e) && e.is_request_error(),
{
}

} // verus!
