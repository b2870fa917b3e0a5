use pricefeed::{FeedId, Price, PriceError, PriceStatus, PriceUpdate, MAX_FEED_ID_LEN};

#[test]
fn feed_id_normalizes_and_validates() {
    assert_eq!(FeedId::new("btc/usd").unwrap().as_str(), "BTC/USD");
    assert_eq!(FeedId::new("ETH-USD.PERP").unwrap().as_str(), "ETH-USD.PERP");
    assert_eq!(FeedId::new("").unwrap_err(), PriceError::EmptyFeed);
    assert_eq!(
        FeedId::new(&"a".repeat(MAX_FEED_ID_LEN + 1)).unwrap_err(),
        PriceError::FeedIdTooLong { max: MAX_FEED_ID_LEN }
    );
    assert_eq!(FeedId::new("BTC USD").unwrap_err(), PriceError::InvalidFeedChar { ch: ' ' });
}

#[test]
fn status_codes_and_tradeability() {
    assert_eq!(PriceStatus::Trading.code(), "trading");
    assert!(PriceStatus::Trading.is_tradeable());
    assert!(!PriceStatus::Halted.is_tradeable());
    assert!(!PriceStatus::Unknown.is_tradeable());
    assert_eq!(PriceStatus::default(), PriceStatus::Unknown);
}

#[test]
fn update_rejects_bad_invariants() {
    let feed = FeedId::new("BTC/USD").unwrap();
    assert_eq!(
        PriceUpdate::new(feed.clone(), Price::new(1, 0, -2), PriceStatus::Trading, 1).unwrap_err(),
        PriceError::ZeroConfidence
    );
    assert_eq!(
        PriceUpdate::new(feed, Price::new(1, 1, -2), PriceStatus::Trading, 0).unwrap_err(),
        PriceError::NonPositiveTimestamp(0)
    );
}

#[test]
fn price_no_older_than_enforces_freshness_and_status() {
    let feed = FeedId::new("BTC/USD").unwrap();
    let u = PriceUpdate::new(feed, Price::new(100, 1, -2), PriceStatus::Trading, 1_000).unwrap();

    assert!(u.price_no_older_than(1_010, 30).is_ok());
    assert!(u.is_fresh(1_010, 30));

    assert_eq!(
        u.price_no_older_than(2_000, 30).unwrap_err(),
        PriceError::Stale { age: 1_000, max_age: 30 }
    );

    let halted = PriceUpdate::new(u.feed_id.clone(), u.price, PriceStatus::Halted, 1_000).unwrap();
    assert_eq!(
        halted.price_no_older_than(1_005, 30).unwrap_err(),
        PriceError::NotTrading { status: "halted" }
    );
}

#[test]
fn age_is_never_negative() {
    let feed = FeedId::new("BTC/USD").unwrap();
    let u = PriceUpdate::new(feed, Price::new(1, 1, -2), PriceStatus::Trading, 1_000).unwrap();
    assert_eq!(u.age(900), 0);
}

#[test]
fn error_codes_are_stable() {
    assert_eq!(PriceError::EmptyFeed.code(), "empty_feed");
    assert_eq!(PriceError::ZeroConfidence.code(), "zero_confidence");
    assert_eq!(PriceError::Stale { age: 1, max_age: 0 }.code(), "stale");
}

#[test]
fn every_error_code_is_distinct_and_stable() {
    let feed_too_long = PriceError::FeedIdTooLong { max: MAX_FEED_ID_LEN };
    assert_eq!(feed_too_long.code(), "feed_id_too_long");
    assert_eq!(PriceError::InvalidFeedChar { ch: '!' }.code(), "invalid_feed_char");
    assert_eq!(PriceError::NonPositiveTimestamp(-1).code(), "non_positive_timestamp");
    assert_eq!(PriceError::NotTrading { status: "halted" }.code(), "not_trading");
    assert_eq!(PriceStatus::Unknown.code(), "unknown");
    assert_eq!(PriceStatus::Halted.code(), "halted");
}

#[test]
fn length_is_checked_in_bytes_before_characters() {
    // Seventeen two-byte characters: 17 characters, 34 bytes.
    let wide = "\u{e9}".repeat(17);
    assert_eq!(
        FeedId::new(&wide).unwrap_err(),
        PriceError::FeedIdTooLong { max: MAX_FEED_ID_LEN }
    );
    // Sixteen two-byte characters fit in 32 bytes, so the character check speaks.
    let fits = "\u{e9}".repeat(16);
    assert_eq!(FeedId::new(&fits).unwrap_err(), PriceError::InvalidFeedChar { ch: '\u{e9}' });
    // Exactly the maximum length is accepted.
    assert_eq!(FeedId::new(&"a".repeat(MAX_FEED_ID_LEN)).unwrap().as_str(), "A".repeat(32));
}

#[test]
fn first_invalid_character_is_reported() {
    assert_eq!(FeedId::new("ab c!").unwrap_err(), PriceError::InvalidFeedChar { ch: ' ' });
    assert_eq!(FeedId::new("abc!d$").unwrap_err(), PriceError::InvalidFeedChar { ch: '!' });
    assert_eq!(FeedId::new("a_b").unwrap_err(), PriceError::InvalidFeedChar { ch: '_' });
}

#[test]
fn normalization_is_idempotent() {
    for raw in ["btc/usd", "Eth-Usd.perp", "sol/USD", "0x1/a-b.c"] {
        let id = FeedId::new(raw).unwrap();
        let again = FeedId::new(id.as_str()).unwrap();
        assert_eq!(again, id);
        assert_eq!(again.as_str(), raw.to_ascii_uppercase());
    }
}

#[test]
fn fresh_iff_trading_and_within_bound() {
    let feed = FeedId::new("BTC/USD").unwrap();
    for publish in [1i64, 500, 999_999] {
        for delta in [0i64, 1, 29, 30, 31, 9_999] {
            for max_age in [0i64, 30, 9_999] {
                let u = PriceUpdate::new(feed.clone(), Price::new(1, 1, -2), PriceStatus::Trading, publish)
                    .unwrap();
                let now = publish + delta;
                assert_eq!(u.price_no_older_than(now, max_age).is_ok(), delta <= max_age);
                assert_eq!(u.is_fresh(now, max_age), delta <= max_age);
                if delta <= max_age {
                    assert_eq!(u.price_no_older_than(now, max_age).unwrap(), Price::new(1, 1, -2));
                }
            }
        }
    }
}

#[test]
fn status_check_comes_before_staleness() {
    let feed = FeedId::new("BTC/USD").unwrap();
    let u = PriceUpdate::new(feed, Price::new(1, 1, -2), PriceStatus::Unknown, 1).unwrap();
    assert_eq!(u.price_no_older_than(1_000_000, 0).unwrap_err(), PriceError::NotTrading { status: "unknown" });
}

#[test]
fn age_is_the_difference_when_positive() {
    let feed = FeedId::new("BTC/USD").unwrap();
    let u = PriceUpdate::new(feed, Price::new(1, 1, -2), PriceStatus::Trading, 1_000).unwrap();
    assert_eq!(u.age(1_000), 0);
    assert_eq!(u.age(1_042), 42);
    assert!(!u.is_fresh(1_042, 41));
    assert!(u.is_fresh(900, 0));
}

#[test]
fn feed_id_parses_from_str() {
    let id: FeedId = "sol/usd".parse().unwrap();
    assert_eq!(id.as_str(), "SOL/USD");
    assert_eq!("bad id!".parse::<FeedId>().unwrap_err(), PriceError::InvalidFeedChar { ch: ' ' });
}
