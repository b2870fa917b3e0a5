use pricefeed::{
    price_from_response, ClientError, price_request_body, FeedId, HttpError, PriceError, PriceStatus, WireData, WireError,
    WirePrice, WireResponse,
};

fn feed() -> FeedId {
    FeedId::new("BTC/USD").unwrap()
}

fn wire_price(feed_id: &str, mantissa: i64, conf: u64, status: &str) -> WirePrice {
    WirePrice {
        feed_id: feed_id.to_string(),
        mantissa,
        conf,
        expo: -2,
        status: status.to_string(),
        publish_time: 1_700_000_000,
    }
}

fn with_price(price: Option<WirePrice>) -> Result<WireResponse, String> {
    Ok(WireResponse { data: Some(WireData { price }), errors: None })
}

#[test]
fn parses_a_valid_response() {
    let body = with_price(Some(wire_price("BTC/USD", 6_500_000, 500, "trading")));
    let update = price_from_response(body, &feed()).unwrap();
    assert_eq!(update.feed_id, feed());
    assert_eq!(update.status, PriceStatus::Trading);
    let value = update.price.mantissa as f64 * 10f64.powi(update.price.expo);
    assert!((value - 65_000.0).abs() < 1e-6);
}

#[test]
fn null_price_is_not_found() {
    let err = price_from_response(with_price(None), &feed()).unwrap_err();
    assert!(matches!(err, HttpError::NotFound(_)));
}

#[test]
fn graphql_errors_are_surfaced() {
    let body = Ok(WireResponse {
        data: None,
        errors: Some(vec![WireError { message: "boom".to_string() }]),
    });
    let err = price_from_response(body, &feed()).unwrap_err();
    assert!(matches!(err, HttpError::GraphQl(m) if m == "boom"));
}

#[test]
fn malformed_json_is_a_decode_error() {
    let body = Err("expected value at line 1 column 1".to_string());
    let err = price_from_response(body, &feed()).unwrap_err();
    assert!(matches!(err, HttpError::Decode(_)));
}

#[test]
fn zero_confidence_is_a_domain_error() {
    let body = with_price(Some(wire_price("BTC/USD", 100, 0, "trading")));
    let err = price_from_response(body, &feed()).unwrap_err();
    assert!(matches!(err, HttpError::Domain(_)));
}

#[test]
fn unknown_status_maps_to_unknown() {
    let body = with_price(Some(wire_price("BTC/USD", 100, 1, "weird")));
    let update = price_from_response(body, &feed()).unwrap();
    assert_eq!(update.status, PriceStatus::Unknown);
}

#[test]
fn status_is_read_ignoring_ascii_case() {
    let up = price_from_response(with_price(Some(wire_price("BTC/USD", 100, 1, "TRADING"))), &feed()).unwrap();
    assert_eq!(up.status, PriceStatus::Trading);
    let halted = price_from_response(with_price(Some(wire_price("BTC/USD", 100, 1, "Halted"))), &feed()).unwrap();
    assert_eq!(halted.status, PriceStatus::Halted);
    let spaced = price_from_response(with_price(Some(wire_price("BTC/USD", 100, 1, " trading"))), &feed()).unwrap();
    assert_eq!(spaced.status, PriceStatus::Unknown);
}

#[test]
fn errors_come_before_data_and_empty_errors_are_ignored() {
    let both = Ok(WireResponse {
        data: Some(WireData { price: Some(wire_price("BTC/USD", 100, 1, "trading")) }),
        errors: Some(vec![WireError { message: "first".to_string() }, WireError { message: "second".to_string() }]),
    });
    assert!(matches!(price_from_response(both, &feed()).unwrap_err(), HttpError::GraphQl(m) if m == "first"));
    let empty = Ok(WireResponse {
        data: Some(WireData { price: Some(wire_price("BTC/USD", 100, 1, "trading")) }),
        errors: Some(vec![]),
    });
    assert!(price_from_response(empty, &feed()).is_ok());
    let no_data = Ok(WireResponse { data: None, errors: None });
    assert!(matches!(price_from_response(no_data, &feed()).unwrap_err(), HttpError::NotFound(f) if f == feed()));
}

#[test]
fn wire_feed_symbol_is_validated_and_normalized() {
    let lower = price_from_response(with_price(Some(wire_price("eth/usd", 100, 1, "trading"))), &feed()).unwrap();
    assert_eq!(lower.feed_id.as_str(), "ETH/USD");
    let bad = price_from_response(with_price(Some(wire_price("", 100, 1, "trading"))), &feed()).unwrap_err();
    assert!(matches!(bad, HttpError::Domain(PriceError::EmptyFeed)));
    let mut stale = wire_price("BTC/USD", 100, 1, "trading");
    stale.publish_time = 0;
    let err = price_from_response(with_price(Some(stale)), &feed()).unwrap_err();
    assert!(matches!(err, HttpError::Domain(PriceError::NonPositiveTimestamp(0))));
}

#[test]
fn request_body_is_the_graphql_query_for_the_feed() {
    let body = price_request_body(&feed());
    assert_ne!(body, "BTC/USD");
    assert!(body.starts_with(r#"{"query":"query($feed: String!) {\n"#));
    assert!(body.ends_with(r#"}","variables":{"feed":"BTC/USD"}}"#));
    let json: serde_json::Value = serde_json::from_str(&body).unwrap();
    assert_eq!(json["variables"]["feed"], "BTC/USD");
    let query = json["query"].as_str().unwrap();
    assert!(query.contains("price(feedId: $feed)"));
    assert!(query.contains("publishTime"));
}

#[test]
fn http_errors_keep_their_retryability_for_the_client() {
    let cases = vec![
        HttpError::Network("down".to_string()),
        HttpError::Decode("bad".to_string()),
        HttpError::GraphQl("boom".to_string()),
        HttpError::NotFound(feed()),
        HttpError::Domain(PriceError::ZeroConfidence),
    ];
    let expected_codes = ["transport", "transport", "transport", "not_found", "domain"];
    for (err, code) in cases.into_iter().zip(expected_codes) {
        let retryable = err.is_retryable();
        let client: ClientError = err.into();
        assert_eq!(client.is_retryable(), retryable);
        assert_eq!(client.code(), code);
    }
    assert!(HttpError::Network("x".to_string()).is_retryable());
    assert!(!HttpError::Decode("x".to_string()).is_retryable());
}
