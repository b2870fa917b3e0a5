//! The price client: a transport together with the retry policy applied to
//! it, and the freshness check it applies to fetched updates.

use vstd::prelude::*;

use crate::client_error::ClientError;
use crate::error::PriceError;
use crate::price::{Price, PriceStatus};
use crate::retry::{is_default_policy, RetryPolicy};
use crate::time::Duration;
use crate::update::{age_computable, fresh_price_outcome, PriceUpdate};

verus! {

/// A high-level client generic over any transport: it adds timeouts and
/// backoff retries, and freshness checks on top of it.
#[derive(Debug, Clone)]
pub struct PriceClient<T> {
    transport: T,
    policy: RetryPolicy,
}

impl<T> PriceClient<T> {
    /// The transport the client fetches through.
    pub closed spec fn spec_transport(&self) -> T {
        self.transport
    }

    /// The retry policy the client applies.
    pub closed spec fn spec_policy(&self) -> RetryPolicy {
        self.policy
    }

    /// Creates a client with the default [`RetryPolicy`].
    pub fn new(transport: T) -> (c: Self)
        ensures
            c.spec_transport() == transport,
            is_default_policy(c.spec_policy()),
    {
        PriceClient { transport, policy: RetryPolicy::default() }
    }

    /// Creates a client with a custom [`RetryPolicy`].
    pub fn with_policy(transport: T, policy: RetryPolicy) -> (c: Self)
        ensures
            c.spec_transport() == transport,
            c.spec_policy() == policy,
    {
        PriceClient { transport, policy }
    }

    /// Overrides the retry policy, returning the updated client.
    pub fn set_policy(self, policy: RetryPolicy) -> (c: Self)
        ensures
            c.spec_transport() == self.spec_transport(),
            c.spec_policy() == policy,
    {
        PriceClient { transport: self.transport, policy }
    }

    /// Borrows the underlying transport.
    pub fn transport(&self) -> (t: &T)
        ensures
            *t == self.spec_transport(),
    {
        &self.transport
    }

    /// The retry policy the client applies.
    pub fn policy(&self) -> (p: RetryPolicy)
        ensures
            p == self.spec_policy(),
    {
        self.policy
    }
}

/// One step of a batch fetch: a fetched update joins the batch, and an
/// error ends the batch with that error.
pub fn accumulate(batch: &mut Vec<PriceUpdate>, fetched: Result<PriceUpdate, ClientError>) -> (r: Result<
    (),
    ClientError,
>)
    ensures
        match fetched {
            Ok(u) => r is Ok && final(batch)@ == old(batch)@.push(u),
            Err(e) => r == Err::<(), ClientError>(e) && final(batch)@ == old(batch)@,
        },
{
    match fetched {
        Ok(u) => {
            batch.push(u);
            Ok(())
        },
        Err(e) => Err(e),
    }
}

/// What a batch fetch gives when its fetches return `results` in order: the
/// first error, or every update in order.
pub open spec fn batch_outcome(results: Seq<Result<PriceUpdate, ClientError>>) -> Result<
    Seq<PriceUpdate>,
    ClientError,
>
    decreases results.len(),
{
    if results.len() == 0 {
        Ok(Seq::empty())
    } else {
        match results[0] {
            Err(e) => Err(e),
            Ok(u) => match batch_outcome(results.drop_first()) {
                Ok(rest) => Ok(seq![u] + rest),
                Err(e) => Err(e),
            },
        }
    }
}

/// A batch succeeds exactly when every fetch does, and then holds the
/// updates in the order of the fetches.
pub proof fn lemma_batch_all_or_first_error(results: Seq<Result<PriceUpdate, ClientError>>)
    ensures
        batch_outcome(results) is Ok <==> (forall|i: int| 0 <= i < results.len() ==> #[trigger] results[i] is Ok),
        batch_outcome(results) is Ok ==> batch_outcome(results)->Ok_0.len() == results.len()
            && forall|i: int|
            0 <= i < results.len() ==> results[i] == Ok::<PriceUpdate, ClientError>(
                #[trigger] batch_outcome(results)->Ok_0[i],
            ),
    decreases results.len(),
{
    if results.len() > 0 {
        let rest = results.drop_first();
        lemma_batch_all_or_first_error(rest);
        assert forall|i: int| 0 < i < results.len() implies results[i] == rest[i - 1] by {}
        if batch_outcome(results) is Ok {
            let out = batch_outcome(results)->Ok_0;
            assert forall|i: int| 0 <= i < results.len() implies results[i] == Ok::<PriceUpdate, ClientError>(
                #[trigger] out[i],
            ) by {
                if i > 0 {
                    assert(out[i] == batch_outcome(rest)->Ok_0[i - 1]);
                }
            }
        } else if forall|i: int| 0 <= i < results.len() ==> #[trigger] results[i] is Ok {
            assert(results[0] is Ok);
            assert forall|i: int| 0 <= i < rest.len() implies #[trigger] rest[i] is Ok by {
                assert(results[i + 1] is Ok);
            }
        }
    }
}

/// A freshness bound in whole seconds, saturating at `i64::MAX`.
pub open spec fn max_age_secs(max_age: Duration) -> i64 {
    if max_age@ / 1_000_000_000 > i64::MAX {
        i64::MAX
    } else {
        (max_age@ / 1_000_000_000) as i64
    }
}

/// The price of a fetched update if it is trading and no older than
/// `max_age` (counted in whole seconds) at `now`; a stale or non-trading
/// update is a domain error.
pub fn fresh_price(update: &PriceUpdate, now: i64, max_age: Duration) -> (r: Result<Price, ClientError>)
    requires
        age_computable(update.publish_time, now),
    ensures
        match fresh_price_outcome(*update, now, max_age_secs(max_age)) {
            Ok(p) => r == Ok::<Price, ClientError>(p),
            Err(e) => r == Err::<Price, ClientError>(ClientError::Domain(e)),
        },
{
    let whole = max_age.as_secs();
    let secs: i64 = if whole > 9_223_372_036_854_775_807u64 {
        i64::MAX
    } else {
        whole as i64
    };
    match update.price_no_older_than(now, secs) {
        Ok(p) => Ok(p),
        Err(e) => Err(ClientError::Domain(e)),
    }
}

/// The freshness bound is the whole number of seconds in `max_age`: a
/// trading update is served exactly when its age in seconds (zero for a
/// publish time in the future) fits within `max_age`, and a stale update is
/// reported with `max_age` counted in whole seconds (saturating at
/// `i64::MAX`).
pub proof fn lemma_bound_is_whole_seconds(u: PriceUpdate, now: i64, max_age: Duration)
    requires
        age_computable(u.publish_time, now),
    ensures
        fresh_price_outcome(u, now, max_age_secs(max_age)) is Ok <==> (u.status == PriceStatus::Trading
            && (if now >= u.publish_time { now - u.publish_time } else { 0 }) * 1_000_000_000
            <= max_age@),
        fresh_price_outcome(u, now, max_age_secs(max_age)) matches Err(
            PriceError::Stale { age: _, max_age: m },
        ) ==> (m as int) * 1_000_000_000 <= max_age@ && (max_age@ < (m as int + 1) * 1_000_000_000
            || m == i64::MAX),
{
    let a: int = if now >= u.publish_time { now - u.publish_time } else { 0 };
    let d = max_age@ as int;
    assert(d / 1_000_000_000 * 1_000_000_000 <= d < (d / 1_000_000_000 + 1) * 1_000_000_000);
    assert(a <= d / 1_000_000_000 <==> a * 1_000_000_000 <= d);
}

/// A longer freshness bound never turns a served price into a refusal.
pub proof fn lemma_longer_bound_still_serves(u: PriceUpdate, now: i64, shorter: Duration, longer: Duration)
    requires
        age_computable(u.publish_time, now),
        shorter@ <= longer@,
        fresh_price_outcome(u, now, max_age_secs(shorter)) is Ok,
    ensures
        fresh_price_outcome(u, now, max_age_secs(longer)) is Ok,
{
    lemma_bound_is_whole_seconds(u, now, shorter);
    lemma_bound_is_whole_seconds(u, now, longer);
}

} // verus!
