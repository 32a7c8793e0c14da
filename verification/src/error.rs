use vstd::prelude::*;

verus! {

/// General error for API operations: a message, and optionally the text of an
/// underlying cause.
#[derive(Debug)]
pub struct Error {
    pub message: String,
    pub source_message: Option<String>,
}

impl Error {
    /// Create a new error from a message.
    pub fn new(msg: String) -> (e: Error)
        ensures
            e.message == msg,
            e.source_message is None,
    {
        Error { message: msg, source_message: None }
    }

    /// Create an error from the text of an underlying error, with a message.
    pub fn from_error(msg: String, source: String) -> (e: Error)
        ensures
            e.message == msg,
            e.source_message == Some(source),
    {
        Error { message: msg, source_message: Some(source) }
    }

    /// The human-readable message carried by this error.
    pub fn message(&self) -> (m: String)
        ensures
            m == self.message,
    {
        self.message.clone()
    }
}

/// Failure of token discovery: either no script yielded a token, or the
/// landing page itself could not be fetched.
#[derive(Debug)]
pub enum DiscoveryError {
    NotFound,
    Transport(String),
}

impl DiscoveryError {
    /// An exact copy of this error.
    pub fn duplicate(&self) -> (e: DiscoveryError)
        ensures
            e == *self,
    {
        match self {
            DiscoveryError::NotFound => DiscoveryError::NotFound,
            DiscoveryError::Transport(cause) => DiscoveryError::Transport(cause.clone()),
        }
    }
}

/// Typed failure of one `fetch` call, as surfaced to the caller.
#[derive(Debug)]
pub enum ApiError {
    /// HTTP 401: the token was rejected.
    AuthFailure(u16, String),
    /// Any other non-2xx HTTP status, with the raw body for diagnostics.
    OtherHttpFailure(u16, String),
    /// Network or connection-level failure; never retried.
    TransportFailure(String),
    /// The response body did not match the expected schema; never retried.
    DecodeFailure(String),
    /// A refresh during the call failed to discover a new token.
    Discovery(DiscoveryError),
}

} // verus!
