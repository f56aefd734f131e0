//! Error types returned by the client, and the rules that classify an HTTP
//! response as a success or as a typed error.

use vstd::prelude::*;

verus! {

/// An error returned by the client.
#[derive(Debug, Clone, PartialEq)]
pub enum Error {
    /// An error in the underlying transport: a network, timeout or
    /// connection failure, or a failure to decode a success body.
    Transport(TransportError),
    /// An error returned by the API.
    Api(ApiError),
}

/// A transport-level failure, described by a human-readable message.
#[derive(Debug, Clone, PartialEq)]
pub struct TransportError {
    /// A description of the failure.
    pub message: String,
}

/// An error returned by the Frontegg API.
#[derive(Debug, Clone, PartialEq)]
pub struct ApiError {
    /// The HTTP status code.
    pub status_code: u16,
    /// A detailed message about the error conditions.
    pub messages: Vec<String>,
}

impl Error {
    /// Wraps a transport failure message as an [`Error`].
    pub fn transport(message: String) -> (e: Error)
        ensures
            e == Error::Transport(TransportError { message }),
    {
        Error::Transport(TransportError { message })
    }
}

/// The shape of the error body the API returns beside a non-success
/// status: an optional message and an optional list of errors.
#[derive(Debug, Clone, PartialEq)]
pub struct ErrorResponse {
    /// A single message, when the body carries one.
    pub message: Option<String>,
    /// A list of error strings, when the body carries one; empty
    /// otherwise.
    pub errors: Vec<String>,
}

/// Whether a status code reports success.
pub open spec fn success_status(status: u16) -> bool {
    200 <= status && status <= 299
}

/// Classifies a status code as a success or not.
pub fn is_success_status(status: u16) -> (b: bool)
    ensures
        b == success_status(status),
{
    200 <= status && status <= 299
}

/// The message list reported for a decoded error body: the `errors`
/// entries first, then the `message`, when present.
pub open spec fn merged_messages(body: ErrorResponse) -> Seq<String> {
    if body.message is Some {
        body.errors@ + seq![body.message->0]
    } else {
        body.errors@
    }
}

/// The synthetic message reported when the error body cannot be decoded.
pub open spec fn undecodable_body_note() -> Seq<char> {
    "unable to decode error details"@
}

/// Builds the typed API error for a non-success response: the status
/// code, together with the merged messages of the decoded error body, or
/// a single synthetic message when the body could not be decoded.
pub fn aggregate_error(status: u16, body: Option<ErrorResponse>) -> (e: ApiError)
    ensures
        e.status_code == status,
        body matches Some(b) ==> e.messages@ == merged_messages(b),
        body is None ==> e.messages@.len() == 1 && e.messages@[0]@ == undecodable_body_note(),
{
    match body {
        Some(b) => {
            let mut messages = b.errors;
            match b.message {
                Some(m) => {
                    messages.push(m);
                }
                None => {}
            }
            ApiError { status_code: status, messages }
        }
        None => {
            let messages: Vec<String> = vec!["unable to decode error details".to_owned()];
            ApiError { status_code: status, messages }
        }
    }
}

/// Classifies a finished HTTP exchange: a success status means the call
/// succeeded, and any other status yields the typed API error built by
/// [`aggregate_error`] from the decoded error body, when there is one.
pub fn classify_response(status: u16, body: Option<ErrorResponse>) -> (r: Result<(), Error>)
    ensures
        r is Ok <==> success_status(status),
        !success_status(status) ==> (r matches Err(Error::Api(a)) && a.status_code == status && (
        body matches Some(b) ==> a.messages@ == merged_messages(b)) && (body is None
            ==> a.messages@.len() == 1 && a.messages@[0]@ == undecodable_body_note())),
{
    if is_success_status(status) {
        Ok(())
    } else {
        Err(Error::Api(aggregate_error(status, body)))
    }
}

impl core::convert::From<ApiError> for Error {
    fn from(e: ApiError) -> (r: Error) {
        Error::Api(e)
    }
}

impl vstd::std_specs::convert::FromSpecImpl<ApiError> for Error {
    open spec fn obeys_from_spec() -> bool {
        true
    }

    open spec fn from_spec(e: ApiError) -> Error {
        Error::Api(e)
    }
}

} // verus!
