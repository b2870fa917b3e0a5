//! The deterministic quotes served by the example application's in-memory
//! transport.

use vstd::prelude::*;

use crate::client_error::ClientError;
use crate::error::PriceError;
use crate::feed_id::FeedId;
use crate::price::{Price, PriceStatus};
use crate::update::PriceUpdate;

verus! {

/// The mantissa and exponent quoted for a feed symbol.
pub open spec fn demo_quote(symbol: Seq<char>) -> (i64, i32) {
    if symbol == "BTC/USD"@ {
        (6_500_000i64, -2i32)
    } else if symbol == "ETH/USD"@ {
        (350_000i64, -2i32)
    } else if symbol == "SOL/USD"@ {
        (15_000i64, -2i32)
    } else {
        (100i64, -2i32)
    }
}

/// The confidence quoted for a mantissa: a thousandth of it, at least one.
pub open spec fn demo_conf(mantissa: i64) -> u64 {
    if mantissa / 1000 >= 1 { (mantissa / 1000) as u64 } else { 1 }
}

fn same_text(a: &str, b: &str) -> (same: bool)
    ensures
        same == (a@ == b@),
{
    a.to_owned() == b.to_owned()
}

/// The in-memory quote for `feed` published at `now`: a trading price with
/// the feed's fixed mantissa and exponent.
pub fn demo_update(feed: &FeedId, now: i64) -> (r: Result<PriceUpdate, ClientError>)
    ensures
        now <= 0 ==> r == Err::<PriceUpdate, ClientError>(
            ClientError::Domain(PriceError::NonPositiveTimestamp(now)),
        ),
        now > 0 ==> r == Ok::<PriceUpdate, ClientError>(
            PriceUpdate {
                feed_id: *feed,
                price: Price {
                    mantissa: demo_quote(feed@).0,
                    conf: demo_conf(demo_quote(feed@).0),
                    expo: demo_quote(feed@).1,
                },
                status: PriceStatus::Trading,
                publish_time: now,
            },
        ),
{
    let symbol = feed.as_str();
    let (mantissa, expo): (i64, i32) = if same_text(symbol, "BTC/USD") {
        (6_500_000, -2)
    } else if same_text(symbol, "ETH/USD") {
        (350_000, -2)
    } else if same_text(symbol, "SOL/USD") {
        (15_000, -2)
    } else {
        (100, -2)
    };
    let thousandth = mantissa / 1000;
    let conf: u64 = if thousandth >= 1 { thousandth as u64 } else { 1 };
    match PriceUpdate::new(feed.clone(), Price::new(mantissa, conf, expo), PriceStatus::Trading, now) {
        Ok(u) => Ok(u),
        Err(e) => Err(ClientError::Domain(e)),
    }
}

} // verus!
