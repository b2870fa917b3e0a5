//! Error types for the domain layer.

use vstd::prelude::*;

verus! {

/// Errors produced while constructing or interpreting price data.
#[derive(Debug, Clone, PartialEq, Eq)]
pub enum PriceError {
    /// The feed symbol was empty.
    EmptyFeed,
    /// The feed symbol exceeded the maximum length (in bytes).
    FeedIdTooLong {
        /// The configured maximum.
        max: usize,
    },
    /// The feed symbol contained a disallowed character.
    InvalidFeedChar {
        /// The offending character.
        ch: char,
    },
    /// Confidence must be strictly positive.
    ZeroConfidence,
    /// The publish time was not a positive unix timestamp.
    NonPositiveTimestamp(i64),
    /// A read was attempted on a feed that is not currently trading.
    NotTrading {
        /// The code of the status that blocked the read.
        status: &'static str,
    },
    /// The price was older than the caller's freshness bound.
    Stale {
        /// The observed age in seconds.
        age: i64,
        /// The caller-supplied maximum age in seconds.
        max_age: i64,
    },
}

/// The stable code of each error kind.
pub open spec fn price_error_code(e: PriceError) -> Seq<char> {
    match e {
        PriceError::EmptyFeed => "empty_feed"@,
        PriceError::FeedIdTooLong { .. } => "feed_id_too_long"@,
        PriceError::InvalidFeedChar { .. } => "invalid_feed_char"@,
        PriceError::ZeroConfidence => "zero_confidence"@,
        PriceError::NonPositiveTimestamp(_) => "non_positive_timestamp"@,
        PriceError::NotTrading { .. } => "not_trading"@,
        PriceError::Stale { .. } => "stale"@,
    }
}

impl PriceError {
    /// A stable, machine-readable code for cross-language parity.
    pub fn code(&self) -> (code: &'static str)
        ensures
            code@ == price_error_code(*self),
    {
        match self {
            PriceError::EmptyFeed => "empty_feed",
            PriceError::FeedIdTooLong { .. } => "feed_id_too_long",
            PriceError::InvalidFeedChar { .. } => "invalid_feed_char",
            PriceError::ZeroConfidence => "zero_confidence",
            PriceError::NonPositiveTimestamp(_) => "non_positive_timestamp",
            PriceError::NotTrading { .. } => "not_trading",
            PriceError::Stale { .. } => "stale",
        }
    }
}

} // verus!
