//! The wire model of GraphQL price responses, and what the library makes of
//! a decoded response.
//!
//! Decoding the JSON text into these plain values is left to the caller; the
//! library interprets them: GraphQL errors first, then a missing price, then
//! the domain checks of the price itself.

use vstd::prelude::*;
use vstd::string::StringExecFns;

use crate::error::PriceError;
use crate::feed_id::{feed_id_outcome, FeedId};
use crate::http_error::HttpError;
use crate::price::{Price, PriceStatus};
use crate::update::PriceUpdate;

verus! {

/// The `price` field of a GraphQL response payload.
#[derive(Debug, Clone)]
pub struct WirePrice {
    /// The feed symbol as sent by the server.
    pub feed_id: String,
    /// The price mantissa.
    pub mantissa: i64,
    /// The confidence half-width.
    pub conf: u64,
    /// The power-of-ten exponent.
    pub expo: i32,
    /// The status as sent by the server.
    pub status: String,
    /// The publish time (unix seconds).
    pub publish_time: i64,
}

/// The `data` field of a GraphQL response payload.
#[derive(Debug, Clone)]
pub struct WireData {
    /// The requested price, or `None` when the server has no such feed.
    pub price: Option<WirePrice>,
}

/// One entry of a GraphQL `errors` array.
#[derive(Debug, Clone)]
pub struct WireError {
    /// The server's message.
    pub message: String,
}

/// A decoded GraphQL response.
#[derive(Debug, Clone)]
pub struct WireResponse {
    /// The payload, if any.
    pub data: Option<WireData>,
    /// The errors, if any.
    pub errors: Option<Vec<WireError>>,
}

/// The ASCII lower-case form of `c`; other characters are unchanged.
pub open spec fn ascii_lower(c: char) -> char {
    if 'A' <= c && c <= 'Z' {
        ((c as u32 + 32) as u32) as char
    } else {
        c
    }
}

/// The ASCII lower-case form of every character of `s`.
pub open spec fn ascii_lower_seq(s: Seq<char>) -> Seq<char> {
    Seq::new(s.len(), |i: int| ascii_lower(s[i]))
}

/// The status a wire status string stands for, ignoring ASCII case:
/// `trading`, `halted`, and anything else is unknown.
pub open spec fn status_from_wire(s: Seq<char>) -> PriceStatus {
    if ascii_lower_seq(s) == "trading"@ {
        PriceStatus::Trading
    } else if ascii_lower_seq(s) == "halted"@ {
        PriceStatus::Halted
    } else {
        PriceStatus::Unknown
    }
}

/// The first domain rule a wire price breaks, in the order feed symbol,
/// confidence, publish time; `None` when it breaks none.
pub open spec fn wire_price_error(w: WirePrice) -> Option<PriceError> {
    match feed_id_outcome(w.feed_id@) {
        Err(e) => Some(e),
        Ok(_) => if w.conf == 0 {
            Some(PriceError::ZeroConfidence)
        } else if w.publish_time <= 0 {
            Some(PriceError::NonPositiveTimestamp(w.publish_time))
        } else {
            None
        },
    }
}

/// `u` is the update that the wire price `w` describes.
pub open spec fn describes(w: WirePrice, u: PriceUpdate) -> bool {
    &&& feed_id_outcome(w.feed_id@) == Ok::<Seq<char>, PriceError>(u.feed_id@)
    &&& u.price == (Price { mantissa: w.mantissa, conf: w.conf, expo: w.expo })
    &&& u.status == status_from_wire(w.status@)
    &&& u.publish_time == w.publish_time
}

/// What a wire price becomes: the update it describes, or the first domain
/// rule it breaks.
pub open spec fn wire_price_outcome_ok(w: WirePrice, r: Result<PriceUpdate, HttpError>) -> bool {
    match wire_price_error(w) {
        Some(e) => r == Err::<PriceUpdate, HttpError>(HttpError::Domain(e)),
        None => r matches Ok(u) && describes(w, u),
    }
}

/// Calls `str::to_ascii_lowercase`, which by its documentation maps the letters `A`-`Z`
/// to `a`-`z` and leaves every other character unchanged.
#[verifier::external_body]
fn ascii_lowercase(s: &str) -> (r: String)
    ensures
        r@ == ascii_lower_seq(s@),
{
    s.to_ascii_lowercase()
}

/// The status a wire status string stands for, ignoring ASCII case.
pub fn status_from_str(raw: &str) -> (s: PriceStatus)
    ensures
        s == status_from_wire(raw@),
{
    let lowered = ascii_lowercase(raw);
    if lowered == "trading".to_owned() {
        PriceStatus::Trading
    } else if lowered == "halted".to_owned() {
        PriceStatus::Halted
    } else {
        PriceStatus::Unknown
    }
}

/// `a` and `b` are the same character up to ASCII case: equal, or one is
/// the upper-case ASCII letter 32 code points below the other.
pub open spec fn same_ignoring_ascii_case(a: char, b: char) -> bool {
    ||| a == b
    ||| (0x41 <= (b as u32) && (b as u32) <= 0x5a && (a as u32) == (b as u32) + 32)
    ||| (0x41 <= (a as u32) && (a as u32) <= 0x5a && (b as u32) == (a as u32) + 32)
}

proof fn lemma_lower_char_eq(a: char, b: char)
    requires
        same_ignoring_ascii_case(a, b),
    ensures
        ascii_lower(a) == ascii_lower(b),
{
    if 0x41 <= (b as u32) && (b as u32) <= 0x5a && (a as u32) == (b as u32) + 32 {
        let u = (b as u32 + 32) as u32;
        vstd::utf8::char_u32_cast(a, u);
    } else if 0x41 <= (a as u32) && (a as u32) <= 0x5a && (b as u32) == (a as u32) + 32 {
        let u = (a as u32 + 32) as u32;
        vstd::utf8::char_u32_cast(b, u);
    }
}

/// Reading a wire status ignores ASCII case, for every status: two strings
/// that differ only in the case of ASCII letters give the same status.
pub proof fn lemma_status_ignores_ascii_case(a: Seq<char>, b: Seq<char>)
    requires
        a.len() == b.len(),
        forall|i: int| 0 <= i < a.len() ==> same_ignoring_ascii_case(#[trigger] a[i], b[i]),
    ensures
        status_from_wire(a) == status_from_wire(b),
{
    assert(ascii_lower_seq(a) =~= ascii_lower_seq(b)) by {
        assert forall|i: int| 0 <= i < a.len() implies ascii_lower_seq(a)[i] == ascii_lower_seq(b)[i] by {
            lemma_lower_char_eq(a[i], b[i]);
        }
    }
}

/// `halted` and `trading`, in any mix of ASCII case, are read as halted and
/// trading.
pub proof fn lemma_status_words(s: Seq<char>)
    ensures
        (s.len() == 6 && forall|i: int|
            0 <= i < 6 ==> same_ignoring_ascii_case(#[trigger] s[i], "halted"@[i])) ==> status_from_wire(s)
            == PriceStatus::Halted,
        (s.len() == 7 && forall|i: int|
            0 <= i < 7 ==> same_ignoring_ascii_case(#[trigger] s[i], "trading"@[i])) ==> status_from_wire(s)
            == PriceStatus::Trading,
{
    reveal_strlit("halted");
    reveal_strlit("trading");
    if s.len() == 6 && forall|i: int| 0 <= i < 6 ==> same_ignoring_ascii_case(#[trigger] s[i], "halted"@[i]) {
        lemma_status_ignores_ascii_case(s, "halted"@);
        assert(ascii_lower_seq("halted"@) =~= "halted"@);
    }
    if s.len() == 7 && forall|i: int| 0 <= i < 7 ==> same_ignoring_ascii_case(#[trigger] s[i], "trading"@[i]) {
        lemma_status_ignores_ascii_case(s, "trading"@);
        assert(ascii_lower_seq("trading"@) =~= "trading"@);
    }
}

impl WirePrice {
    /// The validated update this wire price describes.
    pub fn into_update(self) -> (r: Result<PriceUpdate, HttpError>)
        ensures
            wire_price_outcome_ok(self, r),
    {
        let feed = match FeedId::new(self.feed_id.as_str()) {
            Ok(f) => f,
            Err(e) => return Err(HttpError::Domain(e)),
        };
        let price = Price::new(self.mantissa, self.conf, self.expo);
        let status = status_from_str(self.status.as_str());
        match PriceUpdate::new(feed, price, status, self.publish_time) {
            Ok(u) => Ok(u),
            Err(e) => Err(HttpError::Domain(e)),
        }
    }
}

/// The price carried by a response, if any.
pub open spec fn response_price(resp: WireResponse) -> Option<WirePrice> {
    match resp.data {
        Some(d) => d.price,
        None => None,
    }
}

/// Whether a response carries at least one GraphQL error.
pub open spec fn has_graphql_errors(resp: WireResponse) -> bool {
    resp.errors matches Some(errs) && errs@.len() > 0
}

/// Interprets a decoded GraphQL response for `feed`.
///
/// A body that could not be decoded is a decode error; then the first
/// GraphQL error, if any, is surfaced; then a missing price means the feed
/// was not found; otherwise the price is validated into an update.
pub fn price_from_response(parsed: Result<WireResponse, String>, feed: &FeedId) -> (r: Result<
    PriceUpdate,
    HttpError,
>)
    ensures
        match parsed {
            Err(msg) => r == Err::<PriceUpdate, HttpError>(HttpError::Decode(msg)),
            Ok(resp) => if has_graphql_errors(resp) {
                r == Err::<PriceUpdate, HttpError>(HttpError::GraphQl(resp.errors->0@[0].message))
            } else {
                match response_price(resp) {
                    None => r == Err::<PriceUpdate, HttpError>(HttpError::NotFound(*feed)),
                    Some(w) => wire_price_outcome_ok(w, r),
                }
            },
        },
{
    let resp = match parsed {
        Err(msg) => return Err(HttpError::Decode(msg)),
        Ok(resp) => resp,
    };
    if let Some(errors) = &resp.errors {
        if errors.len() > 0 {
            return Err(HttpError::GraphQl(errors[0].message.clone()));
        }
    }
    let price = match resp.data {
        Some(d) => d.price,
        None => None,
    };
    match price {
        Some(w) => w.into_update(),
        None => Err(HttpError::NotFound(feed.clone())),
    }
}

/// The GraphQL query that asks for one feed's price.
pub const PRICE_QUERY: &'static str = "query($feed: String!) {\n  price(feedId: $feed) {\n    feedId\n    mantissa\n    conf\n    expo\n    status\n    publishTime\n  }\n}";

/// The JSON string literal that `serde_json` writes for the text `s`:
/// `s` between double quotes, with the characters JSON requires escaped.
pub uninterp spec fn json_string_literal(s: Seq<char>) -> Seq<char>;

/// Serializes the text `s` as a JSON string with `serde_json` (a
/// `Value::String`, written by `Value`'s `to_string`). The contract claims
/// only that the literal is a function of `s` alone; how each character is
/// escaped is left to `serde_json`.
#[verifier::external_body]
fn json_string(s: &str) -> (lit: String)
    ensures
        lit@ == json_string_literal(s@),
{
    serde_json::Value::String(s.to_string()).to_string()
}

/// The JSON object `{"query": query, "variables": {"feed": feed}}`, keys in
/// that order, without whitespace.
pub open spec fn graphql_request_json(query: Seq<char>, feed: Seq<char>) -> Seq<char> {
    "{\"query\":"@ + json_string_literal(query) + ",\"variables\":{\"feed\":"@ + json_string_literal(feed)
        + "}}"@
}

/// The JSON body of the GraphQL request for `feed`'s price.
pub fn price_request_body(feed: &FeedId) -> (body: String)
    ensures
        body@ == graphql_request_json(PRICE_QUERY@, feed@),
{
    let mut body = "{\"query\":".to_owned();
    body.append(json_string(PRICE_QUERY).as_str());
    body.append(",\"variables\":{\"feed\":");
    body.append(json_string(feed.as_str()).as_str());
    body.append("}}");
    body
}

} // verus!
