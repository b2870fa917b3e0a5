//! The time-to-live cache that a caching transport keeps in front of its
//! inner transport.
//!
//! Time is read by the caller: every operation that depends on it takes
//! `now`, the time elapsed since a fixed origin of the caller's choosing.

use vstd::prelude::*;

use crate::feed_id::FeedId;
use crate::time::Duration;
use crate::update::PriceUpdate;

verus! {

/// One cached response.
struct CacheEntry {
    feed: FeedId,
    update: PriceUpdate,
    fetched_at: Duration,
}

/// The time elapsed from `from` to `now`, or zero if `now` is earlier.
pub open spec fn elapsed_nanos(now: nat, from: nat) -> nat {
    if now >= from { (now - from) as nat } else { 0 }
}

/// Each feed has at most one entry.
spec fn keys_unique(entries: Seq<CacheEntry>) -> bool {
    forall|i: int, j: int|
        0 <= i < j < entries.len() ==> #[trigger] entries[i].feed@ != #[trigger] entries[j].feed@
}

/// The entry for the feed whose symbol is `key`: the update and the time it
/// was fetched.
spec fn lookup_in(entries: Seq<CacheEntry>, key: Seq<char>) -> Option<(PriceUpdate, nat)> {
    if exists|i: int| 0 <= i < entries.len() && entries[i].feed@ == key {
        let i = choose|i: int| 0 <= i < entries.len() && entries[i].feed@ == key;
        Some((entries[i].update, entries[i].fetched_at@))
    } else {
        None
    }
}

proof fn lemma_lookup_at(entries: Seq<CacheEntry>, i: int)
    requires
        keys_unique(entries),
        0 <= i < entries.len(),
    ensures
        lookup_in(entries, entries[i].feed@) == Some((entries[i].update, entries[i].fetched_at@)),
{
    let key = entries[i].feed@;
    let j = choose|j: int| 0 <= j < entries.len() && entries[j].feed@ == key;
    if i < j {
        assert(entries[i].feed@ != entries[j].feed@);
    } else if j < i {
        assert(entries[j].feed@ != entries[i].feed@);
    }
}

proof fn lemma_lookup_absent(entries: Seq<CacheEntry>, key: Seq<char>)
    requires
        forall|i: int| 0 <= i < entries.len() ==> #[trigger] entries[i].feed@ != key,
    ensures
        lookup_in(entries, key) is None,
{
}

fn find_in(entries: &Vec<CacheEntry>, feed: &FeedId) -> (r: Option<usize>)
    ensures
        match r {
            Some(i) => i < entries@.len() && entries@[i as int].feed@ == feed@,
            None => forall|i: int| 0 <= i < entries@.len() ==> #[trigger] entries@[i].feed@ != feed@,
        },
{
    let mut i: usize = 0;
    while i < entries.len()
        invariant
            i <= entries@.len(),
            forall|j: int| 0 <= j < i ==> #[trigger] entries@[j].feed@ != feed@,
        decreases entries@.len() - i,
    {
        if entries[i].feed == *feed {
            return Some(i);
        }
        i = i + 1;
    }
    None
}

/// A cache of price updates keyed by feed, each stored with the time it was
/// fetched; an entry serves reads for `ttl` after it was stored.
pub struct PriceCache {
    ttl: Duration,
    entries: Vec<CacheEntry>,
}

impl PriceCache {
    #[verifier::type_invariant]
    closed spec fn one_entry_per_feed(self) -> bool {
        keys_unique(self.entries@)
    }

    /// How long an entry serves reads, in nanoseconds.
    pub closed spec fn ttl_nanos(&self) -> nat {
        self.ttl@
    }

    /// The number of cached feeds.
    pub closed spec fn size(&self) -> nat {
        self.entries@.len()
    }

    /// The entry stored for the feed whose symbol is `key`: the update and
    /// the time it was fetched.
    pub closed spec fn lookup(&self, key: Seq<char>) -> Option<(PriceUpdate, nat)> {
        lookup_in(self.entries@, key)
    }

    /// What a read for `key` at `now` serves: the stored update while it is
    /// younger than the time-to-live, nothing otherwise.
    pub open spec fn fresh_lookup(&self, key: Seq<char>, now: nat) -> Option<PriceUpdate> {
        match self.lookup(key) {
            Some((u, fetched)) => if elapsed_nanos(now, fetched) < self.ttl_nanos() {
                Some(u)
            } else {
                None
            },
            None => None,
        }
    }

    /// `self` is `old` with `update`, fetched at `now`, stored for `key`.
    pub open spec fn stored_from(&self, old: PriceCache, key: Seq<char>, update: PriceUpdate, now: nat) -> bool {
        &&& self.ttl_nanos() == old.ttl_nanos()
        &&& self.lookup(key) == Some((update, now))
        &&& forall|k: Seq<char>| k != key ==> #[trigger] self.lookup(k) == old.lookup(k)
        &&& self.size() == old.size() + (if old.lookup(key) is Some { 0nat } else { 1nat })
    }

    /// An empty cache whose entries serve reads for `ttl`.
    pub fn new(ttl: Duration) -> (c: PriceCache)
        ensures
            c.size() == 0,
            c.ttl_nanos() == ttl@,
            forall|k: Seq<char>| #[trigger] c.lookup(k) is None,
    {
        PriceCache { ttl, entries: Vec::new() }
    }

    /// The number of cached feeds.
    pub fn len(&self) -> (n: usize)
        ensures
            n == self.size(),
    {
        self.entries.len()
    }

    /// Whether no feed is cached.
    pub fn is_empty(&self) -> (e: bool)
        ensures
            e == (self.size() == 0),
    {
        self.entries.len() == 0
    }

    /// Drops every cached entry.
    pub fn clear(&mut self)
        ensures
            final(self).size() == 0,
            final(self).ttl_nanos() == old(self).ttl_nanos(),
            forall|k: Seq<char>| #[trigger] final(self).lookup(k) is None,
    {
        self.entries = Vec::new();
    }

    /// The cached update for `feed` if it was fetched less than the
    /// time-to-live before `now`.
    pub fn lookup_fresh(&self, feed: &FeedId, now: Duration) -> (r: Option<PriceUpdate>)
        ensures
            r == self.fresh_lookup(feed@, now@),
    {
        proof {
            use_type_invariant(self);
        }
        match find_in(&self.entries, feed) {
            Some(i) => {
                proof {
                    lemma_lookup_at(self.entries@, i as int);
                }
                let entry = &self.entries[i];
                let age = now.saturating_sub(entry.fetched_at);
                if age.as_nanos() < self.ttl.as_nanos() {
                    Some(entry.update.clone())
                } else {
                    None
                }
            },
            None => None,
        }
    }

    /// Stores `update` for `feed`, fetched at `now`, replacing any earlier
    /// entry for that feed.
    pub fn store(&mut self, feed: FeedId, update: PriceUpdate, now: Duration)
        ensures
            final(self).stored_from(*old(self), feed@, update, now@),
    {
        proof {
            use_type_invariant(&*self);
        }
        let ghost key = feed@;
        let ghost before = self.entries@;
        let mut entries: Vec<CacheEntry> = Vec::new();
        std::mem::swap(&mut entries, &mut self.entries);
        let found = find_in(&entries, &feed);
        let entry = CacheEntry { feed, update, fetched_at: now };
        match found {
            Some(i) => {
                entries.set(i, entry);
                proof {
                    let after = entries@;
                    assert forall|a: int, b: int|
                        0 <= a < b < after.len() implies #[trigger] after[a].feed@
                        != #[trigger] after[b].feed@ by {
                        assert(before[a].feed@ != before[b].feed@);
                    }
                    lemma_lookup_at(after, i as int);
                    lemma_lookup_at(before, i as int);
                    assert forall|k: Seq<char>| k != key implies #[trigger] lookup_in(after, k)
                        == lookup_in(before, k) by {
                        if exists|j: int| 0 <= j < after.len() && after[j].feed@ == k {
                            let j = choose|j: int| 0 <= j < after.len() && after[j].feed@ == k;
                            lemma_lookup_at(after, j);
                            lemma_lookup_at(before, j);
                        } else {
                            assert forall|j: int| 0 <= j < before.len() implies #[trigger] before[j].feed@
                                != k by {
                                if j != i {
                                    assert(after[j] == before[j]);
                                }
                            }
                        }
                    }
                }
            },
            None => {
                entries.push(entry);
                proof {
                    let after = entries@;
                    let n = before.len() as int;
                    assert forall|a: int, b: int|
                        0 <= a < b < after.len() implies #[trigger] after[a].feed@
                        != #[trigger] after[b].feed@ by {
                        if b < n {
                            assert(before[a].feed@ != before[b].feed@);
                        } else {
                            assert(after[a] == before[a]);
                        }
                    }
                    lemma_lookup_at(after, n);
                    lemma_lookup_absent(before, key);
                    assert forall|k: Seq<char>| k != key implies #[trigger] lookup_in(after, k)
                        == lookup_in(before, k) by {
                        if exists|j: int| 0 <= j < after.len() && after[j].feed@ == k {
                            let j = choose|j: int| 0 <= j < after.len() && after[j].feed@ == k;
                            assert(j < n);
                            assert(after[j] == before[j]);
                            lemma_lookup_at(after, j);
                            lemma_lookup_at(before, j);
                        } else {
                            assert forall|j: int| 0 <= j < before.len() implies #[trigger] before[j].feed@
                                != k by {
                                assert(after[j] == before[j]);
                            }
                        }
                    }
                }
            },
        }
        self.entries = entries;
    }
}

/// A read after a store gives back what was stored, for as long as the
/// time-to-live has not run out, and nothing afterwards.
pub proof fn lemma_read_after_store(
    before: PriceCache,
    after: PriceCache,
    key: Seq<char>,
    update: PriceUpdate,
    stored_at: nat,
    now: nat,
)
    requires
        after.stored_from(before, key, update, stored_at),
    ensures
        after.fresh_lookup(key, now) == (if elapsed_nanos(now, stored_at) < before.ttl_nanos() {
            Some(update)
        } else {
            None
        }),
{
}

/// A store for one feed leaves what reads of every other feed serve
/// unchanged.
pub proof fn lemma_store_keeps_other_feeds(
    before: PriceCache,
    after: PriceCache,
    key: Seq<char>,
    update: PriceUpdate,
    stored_at: nat,
    other: Seq<char>,
    now: nat,
)
    requires
        after.stored_from(before, key, update, stored_at),
        other != key,
    ensures
        after.fresh_lookup(other, now) == before.fresh_lookup(other, now),
{
    assert(after.lookup(other) == before.lookup(other));
}

/// The age compared with the time-to-live is the whole time elapsed since
/// the store: a read at `now`, no earlier than the store, serves the stored
/// update exactly while `now - stored_at < ttl`, so a read at
/// `stored_at + ttl` or later serves nothing; a read at a clock reading
/// before the store counts as no time elapsed.
pub proof fn lemma_entry_lives_exactly_ttl(
    before: PriceCache,
    after: PriceCache,
    key: Seq<char>,
    update: PriceUpdate,
    stored_at: nat,
    now: nat,
)
    requires
        after.stored_from(before, key, update, stored_at),
    ensures
        now >= stored_at && now < stored_at + before.ttl_nanos() ==> after.fresh_lookup(key, now) == Some(
            update,
        ),
        now >= stored_at + before.ttl_nanos() ==> after.fresh_lookup(key, now) is None,
        now < stored_at ==> (after.fresh_lookup(key, now) is Some <==> before.ttl_nanos() > 0),
{
}

} // verus!
