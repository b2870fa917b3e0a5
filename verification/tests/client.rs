use pricefeed::client::{accumulate, fresh_price};
use pricefeed::demo::demo_update;
use pricefeed::{
    ClientError, Duration, FeedId, Price, PriceCache, PriceClient, PriceError, PriceStatus, PriceUpdate, RetryPolicy,
    RetryStep,
};

fn sample(feed: &FeedId, publish_time: i64, status: PriceStatus) -> PriceUpdate {
    PriceUpdate::new(feed.clone(), Price::new(100, 1, -2), status, publish_time).unwrap()
}

/// Runs the retry decisions over a scripted operation, as the asynchronous
/// loop does, but without timers: returns the result and the delays slept.
fn run_scripted<T>(
    policy: RetryPolicy,
    mut op: impl FnMut() -> Option<Result<T, ClientError>>,
) -> (Result<T, ClientError>, Vec<Duration>) {
    let mut attempt = 0u32;
    let mut slept = Vec::new();
    loop {
        let result = policy.attempt_result(op());
        match policy.next_step(attempt, result) {
            RetryStep::Finish(r) => return (r, slept),
            RetryStep::Retry { delay, next_attempt } => {
                slept.push(delay);
                attempt = next_attempt;
            }
        }
    }
}

#[test]
fn get_returns_update_on_success() {
    let feed = FeedId::new("BTC/USD").unwrap();
    let client = PriceClient::new(feed.clone());
    let mut calls = 0;
    let (r, slept) = run_scripted(client.policy(), || {
        calls += 1;
        Some(Ok(sample(client.transport(), 1_000, PriceStatus::Trading)))
    });
    assert_eq!(r.unwrap().feed_id, feed);
    assert_eq!(calls, 1);
    assert!(slept.is_empty());
}

#[test]
fn retries_retryable_errors_then_succeeds() {
    let feed = FeedId::new("BTC/USD").unwrap();
    let policy = RetryPolicy { base_delay: Duration::from_millis(1), per_attempt_timeout: None, ..RetryPolicy::default() };
    let client = PriceClient::with_policy((), policy);
    let mut calls = 0u32;
    let (r, _) = run_scripted(client.policy(), || {
        let n = calls;
        calls += 1;
        if n < 2 {
            Some(Err(ClientError::transport("temporary")))
        } else {
            Some(Ok(sample(&feed, 1_000, PriceStatus::Trading)))
        }
    });
    assert!(r.is_ok());
    assert_eq!(calls, 3);
}

#[test]
fn does_not_retry_permanent_errors() {
    let client = PriceClient::new(());
    let mut calls = 0;
    let (r, _) = run_scripted::<PriceUpdate>(client.policy(), || {
        calls += 1;
        Some(Err(ClientError::permanent("nope")))
    });
    let err = r.unwrap_err();
    assert!(!err.is_retryable());
    assert_eq!(err.code(), "transport");
    assert_eq!(calls, 1);
}

#[test]
fn give_up_after_max_retries() {
    let policy = RetryPolicy {
        max_retries: 2,
        base_delay: Duration::from_millis(1),
        per_attempt_timeout: None,
        ..RetryPolicy::default()
    };
    let client = PriceClient::with_policy((), policy);
    let mut calls = 0u32;
    let (r, slept) = run_scripted::<PriceUpdate>(client.policy(), || {
        calls += 1;
        Some(Err(ClientError::transport("always fails")))
    });
    assert!(r.is_err());
    assert_eq!(calls, 3);
    assert_eq!(slept, vec![Duration::from_millis(1), Duration::from_millis(2)]);
}

#[test]
fn get_price_no_older_than_rejects_stale() {
    let feed = FeedId::new("BTC/USD").unwrap();
    let update = sample(&feed, 1_000, PriceStatus::Trading);
    let err = fresh_price(&update, 5_000, Duration::from_secs(30)).unwrap_err();
    assert_eq!(err.code(), "domain");
    assert!(matches!(err, ClientError::Domain(PriceError::Stale { age: 4_000, max_age: 30 })));
    assert_eq!(fresh_price(&update, 1_020, Duration::from_millis(30_999)).unwrap(), Price::new(100, 1, -2));
}

#[test]
fn caching_transport_serves_within_ttl() {
    let feed = FeedId::new("BTC/USD").unwrap();
    let mut cache = PriceCache::new(Duration::from_secs(60));
    let mut inner_calls = 0;
    assert!(cache.is_empty());
    for now_ms in [0u64, 10] {
        let now = Duration::from_millis(now_ms);
        if cache.lookup_fresh(&feed, now).is_none() {
            inner_calls += 1;
            cache.store(feed.clone(), sample(&feed, 1_000, PriceStatus::Trading), now);
        }
    }
    assert_eq!(inner_calls, 1);
    assert_eq!(cache.len(), 1);
    cache.clear();
    assert!(cache.is_empty());
}

#[test]
fn cache_entries_expire_after_ttl() {
    let feed = FeedId::new("BTC/USD").unwrap();
    let other = FeedId::new("ETH/USD").unwrap();
    let mut cache = PriceCache::new(Duration::from_millis(500));
    let first = sample(&feed, 1_000, PriceStatus::Trading);
    cache.store(feed.clone(), first.clone(), Duration::from_millis(1_000));
    assert_eq!(cache.lookup_fresh(&feed, Duration::from_millis(1_499)), Some(first.clone()));
    assert_eq!(cache.lookup_fresh(&feed, Duration::from_millis(1_500)), None);
    // A clock reading before the store counts as no time elapsed.
    assert_eq!(cache.lookup_fresh(&feed, Duration::from_millis(10)), Some(first.clone()));
    assert_eq!(cache.lookup_fresh(&other, Duration::from_millis(1_000)), None);
    // Replacing an entry keeps one entry per feed; another feed adds one.
    let second = sample(&feed, 2_000, PriceStatus::Halted);
    cache.store(feed.clone(), second.clone(), Duration::from_millis(3_000));
    assert_eq!(cache.len(), 1);
    assert_eq!(cache.lookup_fresh(&feed, Duration::from_millis(3_100)), Some(second));
    cache.store(other.clone(), first.clone(), Duration::from_millis(3_000));
    assert_eq!(cache.len(), 2);
    assert_eq!(cache.lookup_fresh(&other, Duration::from_millis(3_000)), Some(first));
}

#[test]
fn zero_ttl_never_serves() {
    let feed = FeedId::new("BTC/USD").unwrap();
    let mut cache = PriceCache::new(Duration::zero());
    cache.store(feed.clone(), sample(&feed, 1_000, PriceStatus::Trading), Duration::from_secs(1));
    assert_eq!(cache.lookup_fresh(&feed, Duration::from_secs(1)), None);
}

#[test]
fn default_backoff_doubles_up_to_the_cap() {
    let policy = RetryPolicy::default();
    assert_eq!(policy.delay_for(0), Duration::from_millis(50));
    assert_eq!(policy.delay_for(1), Duration::from_millis(100));
    assert_eq!(policy.delay_for(2), Duration::from_millis(200));
    assert_eq!(policy.delay_for(5), Duration::from_millis(1_600));
    assert_eq!(policy.delay_for(6), Duration::from_secs(2));
    assert_eq!(policy.delay_for(40), Duration::from_secs(2));
    let mut last = Duration::zero();
    for attempt in 0..64 {
        let d = policy.delay_for(attempt);
        assert!(d.as_nanos() >= last.as_nanos());
        assert!(d.as_nanos() <= policy.max_delay.as_nanos());
        last = d;
    }
}

#[test]
fn zero_multiplier_still_waits_the_base_delay() {
    let policy = RetryPolicy { multiplier: 0, ..RetryPolicy::default() };
    assert_eq!(policy.delay_for(0), Duration::from_millis(50));
    assert_eq!(policy.delay_for(3), Duration::from_millis(50));
}

#[test]
fn none_policy_makes_one_attempt() {
    let policy = RetryPolicy::none();
    assert_eq!(policy.max_retries, 0);
    assert!(policy.per_attempt_timeout.is_none());
    let mut calls = 0;
    let (r, _) = run_scripted::<()>(policy, || {
        calls += 1;
        Some(Err(ClientError::transport("x")))
    });
    assert!(r.is_err());
    assert_eq!(calls, 1);
}

#[test]
fn timed_out_attempts_are_retried_and_reported() {
    let policy = RetryPolicy { max_retries: 1, base_delay: Duration::from_millis(1), ..RetryPolicy::default() };
    let mut calls = 0;
    let (r, _) = run_scripted::<()>(policy, || {
        calls += 1;
        None
    });
    assert_eq!(calls, 2);
    assert!(matches!(r.unwrap_err(), ClientError::Timeout { elapsed_ms: 5_000 }));
}

#[test]
fn client_builders_keep_transport_and_policy() {
    let client = PriceClient::new(7u8);
    assert_eq!(*client.transport(), 7);
    assert_eq!(client.policy().max_retries, 3);
    let client = client.set_policy(RetryPolicy::none());
    assert_eq!(client.policy().max_retries, 0);
    assert_eq!(*client.transport(), 7);
}

#[test]
fn client_error_classification() {
    let e = ClientError::transport("t");
    assert!(e.is_retryable());
    assert!(matches!(&e, ClientError::Transport { message, retryable: true } if message == "t"));
    assert!(ClientError::Timeout { elapsed_ms: 1 }.is_retryable());
    assert_eq!(ClientError::Timeout { elapsed_ms: 1 }.code(), "timeout");
    let nf = ClientError::NotFound(FeedId::new("BTC/USD").unwrap());
    assert!(!nf.is_retryable());
    assert_eq!(nf.code(), "not_found");
    let d: ClientError = PriceError::ZeroConfidence.into();
    assert!(!d.is_retryable());
    assert_eq!(d.code(), "domain");
}

#[test]
fn durations_saturate_and_convert() {
    let max = Duration::new(u64::MAX, 999_999_999);
    assert_eq!(max.saturating_mul(2), max);
    assert_eq!(Duration::from_millis(1_500).as_secs(), 1);
    assert_eq!(Duration::from_millis(1_500).subsec_nanos(), 500_000_000);
    assert_eq!(Duration::from_millis(1_500).as_millis(), 1_500);
    assert_eq!(Duration::new(1, 1_500_000_000), Duration::from_millis(2_500));
    assert_eq!(Duration::from_secs(1).saturating_sub(Duration::from_secs(2)), Duration::zero());
    assert!(Duration::zero().is_zero());
}

#[test]
fn demo_quotes_are_fixed_per_feed() {
    let btc = FeedId::new("btc/usd").unwrap();
    let u = demo_update(&btc, 1_700_000_000).unwrap();
    assert_eq!(u.price, Price::new(6_500_000, 6_500, -2));
    assert_eq!(u.status, PriceStatus::Trading);
    let other = FeedId::new("DOGE/USD").unwrap();
    assert_eq!(demo_update(&other, 5).unwrap().price, Price::new(100, 1, -2));
    assert!(matches!(
        demo_update(&other, 0).unwrap_err(),
        ClientError::Domain(PriceError::NonPositiveTimestamp(0))
    ));
}

#[test]
fn batch_collects_in_order_and_stops_at_first_error() {
    let btc = FeedId::new("BTC/USD").unwrap();
    let eth = FeedId::new("ETH/USD").unwrap();
    let mut batch = Vec::new();
    assert!(accumulate(&mut batch, Ok(sample(&btc, 1, PriceStatus::Trading))).is_ok());
    assert!(accumulate(&mut batch, Ok(sample(&eth, 2, PriceStatus::Trading))).is_ok());
    assert_eq!(batch.len(), 2);
    assert_eq!(batch[0].feed_id, btc);
    assert_eq!(batch[1].feed_id, eth);
    let err = accumulate(&mut batch, Err(ClientError::permanent("gone"))).unwrap_err();
    assert_eq!(err.code(), "transport");
    assert_eq!(batch.len(), 2);
}
