//! The validated feed identifier.

use vstd::prelude::*;
use vstd::utf8::encode_utf8;
use vstd::utf8::is_ascii_chars;

use crate::error::PriceError;

verus! {

broadcast use vstd::string::axiom_spec_iter;

/// Maximum length of a feed symbol (e.g. `BTC/USD`), in bytes.
pub const MAX_FEED_ID_LEN: usize = 32usize;

/// Characters a feed symbol may hold: `[A-Za-z0-9./-]`.
pub open spec fn allowed_feed_char(c: char) -> bool {
    ||| ('a' <= c && c <= 'z')
    ||| ('A' <= c && c <= 'Z')
    ||| ('0' <= c && c <= '9')
    ||| c == '.'
    ||| c == '/'
    ||| c == '-'
}

/// The ASCII upper-case form of `c`; other characters are unchanged.
pub open spec fn ascii_upper(c: char) -> char {
    if 'a' <= c && c <= 'z' {
        ((c as u32 - 32) as u32) as char
    } else {
        c
    }
}

/// The ASCII upper-case form of every character of `s`.
pub open spec fn ascii_upper_seq(s: Seq<char>) -> Seq<char> {
    Seq::new(s.len(), |i: int| ascii_upper(s[i]))
}

/// The first character of `s` that a feed symbol may not hold, if any.
pub open spec fn first_disallowed(s: Seq<char>) -> Option<char>
    decreases s.len(),
{
    if s.len() == 0 {
        None
    } else if !allowed_feed_char(s[0]) {
        Some(s[0])
    } else {
        first_disallowed(s.drop_first())
    }
}

/// What validating the symbol `s` gives: the first check that fails, in the
/// order emptiness, byte length, characters; or the normalized symbol.
pub open spec fn feed_id_outcome(s: Seq<char>) -> Result<Seq<char>, PriceError> {
    if s.len() == 0 {
        Err(PriceError::EmptyFeed)
    } else if encode_utf8(s).len() > MAX_FEED_ID_LEN {
        Err(PriceError::FeedIdTooLong { max: MAX_FEED_ID_LEN })
    } else {
        match first_disallowed(s) {
            Some(ch) => Err(PriceError::InvalidFeedChar { ch }),
            None => Ok(ascii_upper_seq(s)),
        }
    }
}

/// A symbol that validation accepts and leaves unchanged.
pub open spec fn is_normalized_feed(s: Seq<char>) -> bool {
    feed_id_outcome(s) == Ok::<Seq<char>, PriceError>(s)
}

proof fn lemma_first_disallowed_at(s: Seq<char>, i: int)
    requires
        0 <= i < s.len(),
        !allowed_feed_char(s[i]),
        forall|j: int| 0 <= j < i ==> allowed_feed_char(#[trigger] s[j]),
    ensures
        first_disallowed(s) == Some(s[i]),
    decreases i,
{
    if i > 0 {
        let t = s.drop_first();
        assert forall|j: int| 0 <= j < i - 1 implies allowed_feed_char(#[trigger] t[j]) by {
            assert(t[j] == s[j + 1]);
        }
        lemma_first_disallowed_at(t, i - 1);
    }
}

proof fn lemma_none_disallowed(s: Seq<char>)
    requires
        forall|j: int| 0 <= j < s.len() ==> allowed_feed_char(#[trigger] s[j]),
    ensures
        first_disallowed(s) == None::<char>,
    decreases s.len(),
{
    if s.len() > 0 {
        let t = s.drop_first();
        assert forall|j: int| 0 <= j < t.len() implies allowed_feed_char(#[trigger] t[j]) by {
            assert(t[j] == s[j + 1]);
        }
        lemma_none_disallowed(t);
    }
}

proof fn lemma_all_allowed(s: Seq<char>)
    requires
        first_disallowed(s) == None::<char>,
    ensures
        forall|j: int| 0 <= j < s.len() ==> allowed_feed_char(#[trigger] s[j]),
    decreases s.len(),
{
    if s.len() > 0 {
        let t = s.drop_first();
        lemma_all_allowed(t);
        assert forall|j: int| 0 <= j < s.len() implies allowed_feed_char(#[trigger] s[j]) by {
            if j > 0 {
                assert(s[j] == t[j - 1]);
            }
        }
    }
}

proof fn lemma_upper_char(c: char)
    requires
        allowed_feed_char(c),
    ensures
        allowed_feed_char(ascii_upper(c)),
        ascii_upper(ascii_upper(c)) == ascii_upper(c),
        '\0' <= ascii_upper(c) <= '\u{7f}',
        '\0' <= c <= '\u{7f}',
{
    if 'a' <= c && c <= 'z' {
        let u = (c as u32 - 32) as u32;
        assert(0x41 <= u <= 0x5a);
        assert((u as char) as u32 == u);
    }
}

/// Normalization is idempotent: whatever symbol validation accepts, it
/// accepts the normalized result again and leaves it unchanged.
pub proof fn lemma_normalized_fixed_point(s: Seq<char>)
    requires
        feed_id_outcome(s) is Ok,
    ensures
        is_normalized_feed(ascii_upper_seq(s)),
{
    let t = ascii_upper_seq(s);
    lemma_all_allowed(s);
    assert forall|j: int| 0 <= j < t.len() implies allowed_feed_char(#[trigger] t[j]) by {
        lemma_upper_char(s[j]);
    }
    assert(is_ascii_chars(s)) by {
        assert forall|j: int| 0 <= j < s.len() implies '\0' <= #[trigger] s[j] <= '\u{7f}' by {
            lemma_upper_char(s[j]);
        }
    }
    assert(is_ascii_chars(t)) by {
        assert forall|j: int| 0 <= j < t.len() implies '\0' <= #[trigger] t[j] <= '\u{7f}' by {
            lemma_upper_char(s[j]);
        }
    }
    vstd::utf8::is_ascii_chars_encode_utf8(s);
    vstd::utf8::is_ascii_chars_encode_utf8(t);
    lemma_none_disallowed(t);
    assert(ascii_upper_seq(t) =~= t) by {
        assert forall|j: int| 0 <= j < t.len() implies ascii_upper_seq(t)[j] == t[j] by {
            lemma_upper_char(s[j]);
        }
    }
}

/// Whether `c` is an ASCII digit or letter, `.`, `/` or `-`, by code point.
pub open spec fn symbol_code_point(c: char) -> bool {
    let u = c as u32;
    ||| (0x30 <= u && u <= 0x39)
    ||| (0x41 <= u && u <= 0x5a)
    ||| (0x61 <= u && u <= 0x7a)
    ||| u == 0x2e
    ||| u == 0x2f
    ||| u == 0x2d
}

proof fn lemma_code_point_allowed(c: char)
    ensures
        symbol_code_point(c) <==> allowed_feed_char(c),
{
}

/// Every ASCII letter, digit, `.`, `/` and `-` is accepted: a symbol of 1 to
/// [`MAX_FEED_ID_LEN`] characters drawn only from them validates, into a
/// symbol of the same length in which each lower-case letter is replaced by
/// its upper-case letter (32 code points lower) and every other character is
/// kept. Any other character in a non-empty symbol of at most
/// [`MAX_FEED_ID_LEN`] bytes makes validation fail.
pub proof fn lemma_symbol_characters(s: Seq<char>)
    ensures
        (0 < s.len() <= MAX_FEED_ID_LEN && forall|i: int| 0 <= i < s.len() ==> symbol_code_point(
            #[trigger] s[i],
        )) ==> {
            &&& feed_id_outcome(s) is Ok
            &&& feed_id_outcome(s)->Ok_0.len() == s.len()
            &&& forall|i: int|
                0 <= i < s.len() ==> (#[trigger] feed_id_outcome(s)->Ok_0[i]) as u32 == if 0x61 <= (
                s[i] as u32) && (s[i] as u32) <= 0x7a {
                    (s[i] as u32 - 32) as u32
                } else {
                    s[i] as u32
                }
        },
        (0 < s.len() && encode_utf8(s).len() <= MAX_FEED_ID_LEN && exists|i: int|
            0 <= i < s.len() && !symbol_code_point(#[trigger] s[i])) ==> feed_id_outcome(s) is Err,
{
    if 0 < s.len() <= MAX_FEED_ID_LEN && forall|i: int| 0 <= i < s.len() ==> symbol_code_point(#[trigger] s[i]) {
        assert forall|i: int| 0 <= i < s.len() implies allowed_feed_char(#[trigger] s[i]) by {
            assert(symbol_code_point(s[i]));
            lemma_code_point_allowed(s[i]);
        }
        assert(is_ascii_chars(s)) by {
            assert forall|j: int| 0 <= j < s.len() implies '\0' <= #[trigger] s[j] <= '\u{7f}' by {
                lemma_upper_char(s[j]);
            }
        }
        vstd::utf8::is_ascii_chars_encode_utf8(s);
        lemma_none_disallowed(s);
        let t = feed_id_outcome(s)->Ok_0;
        assert forall|i: int| 0 <= i < s.len() implies (#[trigger] t[i]) as u32 == if 0x61 <= (
        s[i] as u32) && (s[i] as u32) <= 0x7a {
            (s[i] as u32 - 32) as u32
        } else {
            s[i] as u32
        } by {
            let c = s[i];
            if 'a' <= c && c <= 'z' {
                let u = (c as u32 - 32) as u32;
                assert((u as char) as u32 == u);
            }
        }
    }
    if 0 < s.len() && encode_utf8(s).len() <= MAX_FEED_ID_LEN && exists|i: int|
        0 <= i < s.len() && !symbol_code_point(#[trigger] s[i]) {
        let k = choose|i: int| 0 <= i < s.len() && !symbol_code_point(#[trigger] s[i]);
        if first_disallowed(s) is None {
            lemma_all_allowed(s);
            lemma_code_point_allowed(s[k]);
            assert(allowed_feed_char(s[k]));
        }
    }
}

/// Calls `str::to_ascii_uppercase`, which by its documentation maps the letters `a`-`z`
/// to `A`-`Z` and leaves every other character unchanged.
#[verifier::external_body]
fn ascii_uppercase(s: &str) -> (r: String)
    ensures
        r@ == ascii_upper_seq(s@),
{
    s.to_ascii_uppercase()
}

/// A validated, normalized feed symbol: non-empty, at most
/// [`MAX_FEED_ID_LEN`] bytes, upper case, drawn from `[A-Z0-9./-]`.
#[derive(Debug, Hash, PartialOrd, Ord)]
pub struct FeedId(String);

impl View for FeedId {
    type V = Seq<char>;

    closed spec fn view(&self) -> Seq<char> {
        self.0@
    }
}

impl PartialEq for FeedId {
    fn eq(&self, other: &Self) -> (same: bool) {
        self.0 == other.0
    }
}

impl vstd::std_specs::cmp::PartialEqSpecImpl for FeedId {
    open spec fn obeys_eq_spec() -> bool {
        true
    }

    open spec fn eq_spec(&self, other: &FeedId) -> bool {
        self@ == other@
    }
}

impl Eq for FeedId {
}

impl std::str::FromStr for FeedId {
    type Err = PriceError;

    fn from_str(s: &str) -> (r: Result<Self, Self::Err>)
        ensures
            match r {
                Ok(id) => feed_id_outcome(s@) == Ok::<Seq<char>, PriceError>(id@),
                Err(e) => feed_id_outcome(s@) == Err::<Seq<char>, PriceError>(e),
            },
    {
        FeedId::new(s)
    }
}

impl Clone for FeedId {
    fn clone(&self) -> (copy: Self)
        ensures
            copy == *self,
    {
        proof {
            use_type_invariant(self);
        }
        FeedId(self.0.clone())
    }
}

impl FeedId {
    #[verifier::type_invariant]
    closed spec fn normalized(self) -> bool {
        is_normalized_feed(self.0@)
    }

    /// Validates and normalizes `symbol` into a [`FeedId`].
    ///
    /// Fails with the first violated rule: empty symbol, more than
    /// [`MAX_FEED_ID_LEN`] bytes, or a character outside `[A-Za-z0-9./-]`.
    pub fn new(symbol: &str) -> (r: Result<FeedId, PriceError>)
        ensures
            match r {
                Ok(id) => feed_id_outcome(symbol@) == Ok::<Seq<char>, PriceError>(id@),
                Err(e) => feed_id_outcome(symbol@) == Err::<Seq<char>, PriceError>(e),
            },
    {
        if symbol.is_empty() {
            return Err(PriceError::EmptyFeed);
        }
        if symbol.as_bytes().len() > MAX_FEED_ID_LEN {
            return Err(PriceError::FeedIdTooLong { max: MAX_FEED_ID_LEN });
        }
        for ch in it: symbol.chars()
            invariant
                it.seq() == symbol@,
                symbol@.len() > 0,
                encode_utf8(symbol@).len() <= MAX_FEED_ID_LEN,
                forall|j: int| 0 <= j < it.index() ==> allowed_feed_char(#[trigger] symbol@[j]),
        {
            let ok = ('a' <= ch && ch <= 'z') || ('A' <= ch && ch <= 'Z') || ('0' <= ch && ch <= '9')
                || ch == '.' || ch == '/' || ch == '-';
            if !ok {
                proof {
                    assert(0 <= it.index() < symbol@.len());
                    assert(ch == symbol@[it.index()]);
                    lemma_first_disallowed_at(symbol@, it.index());
                }
                return Err(PriceError::InvalidFeedChar { ch });
            }
        }
        proof {
            lemma_none_disallowed(symbol@);
            lemma_normalized_fixed_point(symbol@);
        }
        Ok(FeedId(ascii_uppercase(symbol)))
    }

    /// The normalized symbol as a string slice.
    pub fn as_str(&self) -> (s: &str)
        ensures
            s@ == self@,
            is_normalized_feed(s@),
    {
        proof {
            use_type_invariant(self);
        }
        self.0.as_str()
    }
}

} // verus!
