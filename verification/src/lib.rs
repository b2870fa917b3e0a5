//! Verified core of a price-feed consumer SDK.
//!
//! The library holds the domain vocabulary (validated feed ids, fixed-point
//! prices, timestamped updates), the retry and caching decisions of the
//! client, and the interpretation of GraphQL price responses. Every function
//! carries a contract that Verus checks.

pub mod cache;
pub mod client;
pub mod client_error;
pub mod demo;
pub mod error;
pub mod feed_id;
pub mod http_error;
pub mod price;
pub mod retry;
pub mod time;
pub mod update;
pub mod wire;

pub use cache::PriceCache;
pub use client::PriceClient;
pub use client_error::ClientError;
pub use error::PriceError;
pub use feed_id::{FeedId, MAX_FEED_ID_LEN};
pub use http_error::HttpError;
pub use price::{Price, PriceStatus};
pub use retry::{RetryPolicy, RetryStep};
pub use time::Duration;
pub use update::PriceUpdate;
pub use wire::{price_from_response, price_request_body, WireData, WireError, WirePrice, WireResponse};
