//! A key-value store whose entries expire; expired entries are dropped when
//! they are next read.

use serde_json::Value;
use vstd::hash_map::StringHashMap;
use vstd::prelude::*;

verus! {

/// A cached value and the clock reading from which it is no longer served.
pub struct CacheEntry {
    pub value: Value,
    pub expiry: u128,
}

/// What an `ExpiringCache` holds: the entry stored under each key.
pub type CacheView = Map<Seq<char>, CacheEntry>;

/// Whether the entry under `key` exists and has not expired at `now`.
pub open spec fn is_fresh(entries: CacheView, key: Seq<char>, now: u64) -> bool {
    entries.contains_key(key) && now < entries[key].expiry
}

/// The entries after `value` was stored under `key` at `now` for `ttl`
/// nanoseconds.
pub open spec fn stored(entries: CacheView, key: Seq<char>, value: Value, ttl: u64, now: u64) -> CacheView {
    entries.insert(key, CacheEntry { value, expiry: (now + ttl) as u128 })
}

/// What a read of `key` at `now` returns.
pub open spec fn lookup(entries: CacheView, key: Seq<char>, now: u64) -> Option<Value> {
    if is_fresh(entries, key, now) {
        Some(entries[key].value)
    } else {
        None
    }
}

/// The entries after a read of `key` at `now`: an expired entry is gone.
pub open spec fn after_lookup(entries: CacheView, key: Seq<char>, now: u64) -> CacheView {
    if entries.contains_key(key) && !is_fresh(entries, key, now) {
        entries.remove(key)
    } else {
        entries
    }
}

/// A value is served from the moment it is stored until its time to live
/// has passed, and never after.
pub proof fn lemma_served_until_expiry(
    entries: CacheView,
    key: Seq<char>,
    value: Value,
    ttl: u64,
    now: u64,
    later: u64,
)
    ensures
        later < now + ttl ==> lookup(stored(entries, key, value, ttl, now), key, later) == Some(
            value,
        ),
        later >= now + ttl ==> lookup(stored(entries, key, value, ttl, now), key, later)
            is None,
{
}

/// A read after the time to live has passed evicts the entry, and storing
/// another key afterwards does not bring it back: it is absent at every
/// later read, whatever the clock shows then.
pub proof fn lemma_expired_entry_stays_gone(
    entries: CacheView,
    key: Seq<char>,
    value: Value,
    ttl: u64,
    now: u64,
    later: u64,
    other_key: Seq<char>,
    other_value: Value,
    other_ttl: u64,
    other_now: u64,
    last: u64,
)
    requires
        later >= now + ttl,
        other_key != key,
    ensures
        !after_lookup(stored(entries, key, value, ttl, now), key, later).contains_key(key),
        !stored(
            after_lookup(stored(entries, key, value, ttl, now), key, later),
            other_key,
            other_value,
            other_ttl,
            other_now,
        ).contains_key(key),
        lookup(
            stored(
                after_lookup(stored(entries, key, value, ttl, now), key, later),
                other_key,
                other_value,
                other_ttl,
                other_now,
            ),
            key,
            last,
        ) is None,
{
}

/// A read changes nothing but the entry it finds expired.
pub proof fn lemma_lookup_spares_other_keys(
    entries: CacheView,
    key: Seq<char>,
    now: u64,
    other_key: Seq<char>,
)
    requires
        other_key != key,
    ensures
        after_lookup(entries, key, now).contains_key(other_key) == entries.contains_key(other_key),
        entries.contains_key(other_key) ==> after_lookup(entries, key, now)[other_key]
            == entries[other_key],
{
}

/// Key-value store with a time to live per entry and lazy eviction.
pub struct ExpiringCache {
    entries: StringHashMap<CacheEntry>,
}

impl View for ExpiringCache {
    type V = CacheView;

    closed spec fn view(&self) -> CacheView {
        self.entries@
    }
}

impl ExpiringCache {
    /// An empty cache.
    pub fn new() -> (cache: ExpiringCache)
        ensures
            cache@ == Map::<Seq<char>, CacheEntry>::empty(),
    {
        ExpiringCache { entries: StringHashMap::new() }
    }

    /// Stores `value` under `key` at clock reading `now`, to be served for
    /// `ttl` nanoseconds; an entry already under `key` is replaced.
    pub fn set_at(&mut self, key: &str, value: Value, ttl: u64, now: u64)
        ensures
            final(self)@ == stored(old(self)@, key@, value, ttl, now),
    {
        let expiry: u128 = now as u128 + ttl as u128;
        self.entries.insert(key.to_owned(), CacheEntry { value, expiry });
    }

    /// Reads `key` at clock reading `now`: the value if the entry has not
    /// expired, nothing otherwise. An expired entry is removed.
    pub fn get_at(&mut self, key: &str, now: u64) -> (found: Option<Value>)
        ensures
            found == lookup(old(self)@, key@, now),
            final(self)@ == after_lookup(old(self)@, key@, now),
    {
        let hit: Option<Value> = match self.entries.get(key) {
            Some(entry) => {
                if (now as u128) < entry.expiry {
                    Some(entry.value.clone())
                } else {
                    None
                }
            },
            None => { return None; },
        };
        if hit.is_none() {
            self.entries.remove(key);
        }
        hit
    }

    /// Drops every entry.
    pub fn clear(&mut self)
        ensures
            final(self)@ == Map::<Seq<char>, CacheEntry>::empty(),
    {
        self.entries.clear();
    }

    /// How many entries are stored, expired ones included.
    pub fn len(&self) -> (count: usize)
        ensures
            count == self@.len(),
    {
        self.entries.len()
    }
}

} // verus!
