//! A timestamped price update for a specific feed, with staleness logic.

use vstd::prelude::*;

use crate::error::PriceError;
use crate::feed_id::FeedId;
use crate::price::{status_code_str, Price, PriceStatus};

verus! {

/// A single price observation for a feed at a point in time.
#[derive(Debug, PartialEq, Eq)]
pub struct PriceUpdate {
    /// The feed this update belongs to.
    pub feed_id: FeedId,
    /// The fixed-point price and confidence.
    pub price: Price,
    /// The feed status at publication time.
    pub status: PriceStatus,
    /// The source publish time (unix seconds).
    pub publish_time: i64,
}

/// The age of an update published at `publish_time`, seen at `now`:
/// `now - publish_time`, clamped below at zero.
pub open spec fn age_at(publish_time: i64, now: i64) -> int {
    if now - publish_time >= 0 { now - publish_time } else { 0 }
}

/// Whether `now - publish_time` is an `i64`, so the age can be computed.
pub open spec fn age_computable(publish_time: i64, now: i64) -> bool {
    i64::MIN <= now - publish_time <= i64::MAX
}

/// What `price_no_older_than` gives for an update.
pub open spec fn fresh_price_outcome(u: PriceUpdate, now: i64, max_age_secs: i64) -> Result<Price, PriceError> {
    if u.status != PriceStatus::Trading {
        Err(PriceError::NotTrading { status: status_code_str(u.status) })
    } else if age_at(u.publish_time, now) > max_age_secs {
        Err(PriceError::Stale { age: age_at(u.publish_time, now) as i64, max_age: max_age_secs })
    } else {
        Ok(u.price)
    }
}

impl Clone for PriceUpdate {
    fn clone(&self) -> (copy: Self)
        ensures
            copy == *self,
    {
        PriceUpdate {
            feed_id: self.feed_id.clone(),
            price: self.price,
            status: self.status,
            publish_time: self.publish_time,
        }
    }
}

impl PriceUpdate {
    /// Builds a validated update.
    ///
    /// Fails with [`PriceError::ZeroConfidence`] if `price.conf == 0`, else
    /// with [`PriceError::NonPositiveTimestamp`] if `publish_time <= 0`.
    pub fn new(feed_id: FeedId, price: Price, status: PriceStatus, publish_time: i64) -> (r: Result<
        Self,
        PriceError,
    >)
        ensures
            price.conf == 0 ==> r == Err::<PriceUpdate, PriceError>(PriceError::ZeroConfidence),
            price.conf != 0 && publish_time <= 0 ==> r == Err::<PriceUpdate, PriceError>(
                PriceError::NonPositiveTimestamp(publish_time),
            ),
            price.conf != 0 && publish_time > 0 ==> r == Ok::<PriceUpdate, PriceError>(
                PriceUpdate { feed_id, price, status, publish_time },
            ),
    {
        if price.conf == 0 {
            return Err(PriceError::ZeroConfidence);
        }
        if publish_time <= 0 {
            return Err(PriceError::NonPositiveTimestamp(publish_time));
        }
        Ok(PriceUpdate { feed_id, price, status, publish_time })
    }

    /// The age of this update relative to `now`, in seconds (never negative).
    pub fn age(&self, now: i64) -> (age: i64)
        requires
            age_computable(self.publish_time, now),
        ensures
            age == age_at(self.publish_time, now),
            age >= 0,
    {
        let d = now - self.publish_time;
        if d < 0 {
            0
        } else {
            d
        }
    }

    /// Whether the update is no older than `max_age_secs` at `now`.
    pub fn is_fresh(&self, now: i64, max_age_secs: i64) -> (fresh: bool)
        requires
            age_computable(self.publish_time, now),
        ensures
            fresh == (age_at(self.publish_time, now) <= max_age_secs),
    {
        self.age(now) <= max_age_secs
    }

    /// Returns the price only if the feed is trading **and** the update is no
    /// older than `max_age_secs`.
    ///
    /// Fails with [`PriceError::NotTrading`] if the status is not `Trading`,
    /// else with [`PriceError::Stale`] if the update is too old.
    pub fn price_no_older_than(&self, now: i64, max_age_secs: i64) -> (r: Result<Price, PriceError>)
        requires
            age_computable(self.publish_time, now),
        ensures
            r == fresh_price_outcome(*self, now, max_age_secs),
    {
        if !self.status.is_tradeable() {
            return Err(PriceError::NotTrading { status: self.status.code() });
        }
        let age = self.age(now);
        if age > max_age_secs {
            return Err(PriceError::Stale { age, max_age: max_age_secs });
        }
        Ok(self.price)
    }
}

/// A read through `price_no_older_than` succeeds exactly when the feed is
/// trading and the update is fresh, and then it gives back the update's
/// price.
pub proof fn lemma_read_succeeds_iff_trading_and_fresh(u: PriceUpdate, now: i64, max_age_secs: i64)
    requires
        age_computable(u.publish_time, now),
    ensures
        fresh_price_outcome(u, now, max_age_secs) is Ok <==> (u.status == PriceStatus::Trading
            && age_at(u.publish_time, now) <= max_age_secs),
        fresh_price_outcome(u, now, max_age_secs) is Ok ==> fresh_price_outcome(u, now, max_age_secs)
            == Ok::<Price, PriceError>(u.price),
{
}

} // verus!
