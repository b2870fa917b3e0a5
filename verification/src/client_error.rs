//! Typed errors for the client layer.

use vstd::prelude::*;

use crate::error::PriceError;
use crate::feed_id::FeedId;

verus! {

/// Errors surfaced by a price client or a price transport.
#[derive(Debug)]
pub enum ClientError {
    /// The requested feed was not served by the transport.
    NotFound(FeedId),
    /// A domain invariant was violated while interpreting the data.
    Domain(PriceError),
    /// The transport timed out before producing a response.
    Timeout {
        /// How long the caller waited, in milliseconds.
        elapsed_ms: u128,
    },
    /// The transport failed for an underlying (network/protocol) reason.
    Transport {
        /// A human-readable description of the failure.
        message: String,
        /// Whether retrying the request might succeed.
        retryable: bool,
    },
}

/// Whether retrying after `e` could plausibly succeed: timeouts always,
/// transport failures when they say so, the others never.
pub open spec fn client_error_retryable(e: ClientError) -> bool {
    match e {
        ClientError::Timeout { .. } => true,
        ClientError::Transport { retryable, .. } => retryable,
        ClientError::NotFound(_) => false,
        ClientError::Domain(_) => false,
    }
}

/// The stable code of each error kind.
pub open spec fn client_error_code(e: ClientError) -> Seq<char> {
    match e {
        ClientError::NotFound(_) => "not_found"@,
        ClientError::Domain(_) => "domain"@,
        ClientError::Timeout { .. } => "timeout"@,
        ClientError::Transport { .. } => "transport"@,
    }
}

impl ClientError {
    /// A retryable transport failure carrying `message`.
    pub fn transport(message: &str) -> (e: Self)
        ensures
            e matches ClientError::Transport { message: m, retryable } && m@ == message@ && retryable,
    {
        ClientError::Transport { message: message.to_owned(), retryable: true }
    }

    /// A permanent transport failure carrying `message`.
    pub fn permanent(message: &str) -> (e: Self)
        ensures
            e matches ClientError::Transport { message: m, retryable } && m@ == message@ && !retryable,
    {
        ClientError::Transport { message: message.to_owned(), retryable: false }
    }

    /// Whether retrying this error could plausibly succeed.
    pub fn is_retryable(&self) -> (r: bool)
        ensures
            r == client_error_retryable(*self),
    {
        match self {
            ClientError::Timeout { .. } => true,
            ClientError::Transport { retryable, .. } => *retryable,
            ClientError::NotFound(_) => false,
            ClientError::Domain(_) => false,
        }
    }

    /// A stable, machine-readable code for cross-language parity.
    pub fn code(&self) -> (code: &'static str)
        ensures
            code@ == client_error_code(*self),
    {
        match self {
            ClientError::NotFound(_) => "not_found",
            ClientError::Domain(_) => "domain",
            ClientError::Timeout { .. } => "timeout",
            ClientError::Transport { .. } => "transport",
        }
    }
}

impl From<PriceError> for ClientError {
    fn from(e: PriceError) -> (r: Self) {
        ClientError::Domain(e)
    }
}

impl vstd::std_specs::convert::FromSpecImpl<PriceError> for ClientError {
    open spec fn obeys_from_spec() -> bool {
        true
    }

    open spec fn from_spec(e: PriceError) -> ClientError {
        ClientError::Domain(e)
    }
}

} // verus!
