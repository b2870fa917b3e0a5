//! Errors of the HTTP/GraphQL transport, and how the client sees them.

use vstd::prelude::*;

use crate::client_error::ClientError;
use crate::error::PriceError;
use crate::feed_id::FeedId;

verus! {

/// Errors raised by the HTTP/GraphQL transport.
#[derive(Debug)]
pub enum HttpError {
    /// The HTTP request itself failed (DNS, connect, timeout, status).
    Network(String),
    /// The response body could not be decoded as JSON.
    Decode(String),
    /// The GraphQL server returned an `errors` array.
    GraphQl(String),
    /// The server returned a null price for the requested feed.
    NotFound(FeedId),
    /// The response violated a domain invariant.
    Domain(PriceError),
}

/// Whether retrying after `e` might succeed: network failures only.
pub open spec fn http_error_retryable(e: HttpError) -> bool {
    e is Network
}

/// How the client sees a transport error: a missing feed and a domain
/// violation keep their meaning, a network failure becomes a retryable
/// transport failure, and a decode or GraphQL failure a permanent one.
pub open spec fn http_to_client_error(e: HttpError) -> ClientError {
    match e {
        HttpError::NotFound(feed) => ClientError::NotFound(feed),
        HttpError::Domain(d) => ClientError::Domain(d),
        HttpError::Network(message) => ClientError::Transport { message, retryable: true },
        HttpError::Decode(message) => ClientError::Transport { message, retryable: false },
        HttpError::GraphQl(message) => ClientError::Transport { message, retryable: false },
    }
}

impl HttpError {
    /// Whether retrying might succeed (network failures only).
    pub fn is_retryable(&self) -> (r: bool)
        ensures
            r == http_error_retryable(*self),
    {
        match self {
            HttpError::Network(_) => true,
            _ => false,
        }
    }
}

impl From<PriceError> for HttpError {
    fn from(e: PriceError) -> (r: Self) {
        HttpError::Domain(e)
    }
}

impl vstd::std_specs::convert::FromSpecImpl<PriceError> for HttpError {
    open spec fn obeys_from_spec() -> bool {
        true
    }

    open spec fn from_spec(e: PriceError) -> HttpError {
        HttpError::Domain(e)
    }
}

impl From<HttpError> for ClientError {
    fn from(err: HttpError) -> (r: Self) {
        match err {
            HttpError::NotFound(feed) => ClientError::NotFound(feed),
            HttpError::Domain(e) => ClientError::Domain(e),
            HttpError::Network(message) => ClientError::Transport { message, retryable: true },
            HttpError::Decode(message) => ClientError::Transport { message, retryable: false },
            HttpError::GraphQl(message) => ClientError::Transport { message, retryable: false },
        }
    }
}

impl vstd::std_specs::convert::FromSpecImpl<HttpError> for ClientError {
    open spec fn obeys_from_spec() -> bool {
        true
    }

    open spec fn from_spec(e: HttpError) -> ClientError {
        http_to_client_error(e)
    }
}

/// Converting a transport error for the client keeps its retryability.
pub proof fn lemma_conversion_keeps_retryability(e: HttpError)
    ensures
        crate::client_error::client_error_retryable(http_to_client_error(e)) == http_error_retryable(e),
{
}

} // verus!
