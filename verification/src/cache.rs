//! The cache of row descriptions: a least-recently-used cache of an outside
//! crate, and what the library believes of it. Nothing in this file is proved
//! of the outside code; the helpers that say what an operation does to the
//! entries are plain definitions.

use vstd::prelude::*;
use std::collections::hash_map::RandomState;
use std::hash::{BuildHasher, Hash};
use lru_cache::LruCache;

verus! {

/// `lru_cache::LruCache`, a map that holds a limited number of entries and
/// drops the least recently used one when it is full.
#[verifier::external_type_specification]
#[verifier::external_body]
#[verifier::reject_recursive_types(K)]
#[verifier::reject_recursive_types(V)]
#[verifier::reject_recursive_types(S)]
pub struct ExLruCache<K: Eq + Hash, V, S: BuildHasher>(LruCache<K, V, S>);

/// A key and its value, as texts.
pub type Entry = (Seq<char>, Seq<char>);

/// The entries of a cache, from the least recently used to the most recently
/// used.
pub uninterp spec fn cache_entries(cache: LruCache<String, String, RandomState>) -> Seq<Entry>;

/// The number of entries that a cache was made to hold.
pub uninterp spec fn cache_capacity(cache: LruCache<String, String, RandomState>) -> usize;

/// Index of the first entry under `key`, or the number of entries where there
/// is none.
pub open spec fn find_key(entries: Seq<Entry>, key: Seq<char>) -> int
    decreases entries.len(),
{
    if entries.len() == 0 {
        0
    } else if entries[0].0 == key {
        0
    } else {
        1 + find_key(entries.drop_first(), key)
    }
}

/// The value stored under `key`, if any.
pub open spec fn cached_value(entries: Seq<Entry>, key: Seq<char>) -> Option<Seq<char>> {
    let i = find_key(entries, key);
    if i < entries.len() {
        Some(entries[i].1)
    } else {
        None
    }
}

/// The entries after a look-up of `key`: the entry found becomes the most
/// recently used.
pub open spec fn refreshed(entries: Seq<Entry>, key: Seq<char>) -> Seq<Entry> {
    let i = find_key(entries, key);
    if i < entries.len() {
        entries.remove(i).push(entries[i])
    } else {
        entries
    }
}

/// The entries after `value` was stored under `key` in a cache that holds
/// `capacity` entries: the entry replaces an older one under the same key,
/// becomes the most recently used, and pushes the least recently used one out
/// where the cache is over its capacity.
pub open spec fn stored(entries: Seq<Entry>, key: Seq<char>, value: Seq<char>, capacity: int) -> Seq<
    Entry,
> {
    let i = find_key(entries, key);
    let without = if i < entries.len() {
        entries.remove(i)
    } else {
        entries
    };
    let with = without.push((key, value));
    if with.len() > capacity {
        with.drop_first()
    } else {
        with
    }
}

/// Calls `lru_cache::LruCache::new`: an empty cache for `capacity` entries.
#[verifier::external_body]
pub(crate) fn new_cache(capacity: usize) -> (cache: LruCache<String, String, RandomState>)
    ensures
        cache_entries(cache) == Seq::<Entry>::empty(),
        cache_capacity(cache) == capacity,
{
    LruCache::new(capacity)
}

/// Calls `lru_cache::LruCache::get_mut` and copies the value found. The
/// look-up makes the entry found the most recently used and changes nothing
/// else.
#[verifier::external_body]
pub(crate) fn cache_get(cache: &mut LruCache<String, String, RandomState>, key: &String) -> (value:
    Option<String>)
    ensures
        match value {
            Some(v) => cached_value(cache_entries(*old(cache)), key@) == Some(v@),
            None => cached_value(cache_entries(*old(cache)), key@) is None,
        },
        cache_entries(*final(cache)) == refreshed(cache_entries(*old(cache)), key@),
        cache_capacity(*final(cache)) == cache_capacity(*old(cache)),
{
    match cache.get_mut(key) {
        Some(value) => Some(value.clone()),
        None => None,
    }
}

/// Calls `lru_cache::LruCache::insert`. The new entry replaces one under the
/// same key, becomes the most recently used, and the least recently used
/// entry leaves where the cache is over its capacity.
#[verifier::external_body]
pub(crate) fn cache_insert(
    cache: &mut LruCache<String, String, RandomState>,
    key: String,
    value: String,
)
    ensures
        cache_entries(*final(cache)) == stored(
            cache_entries(*old(cache)),
            key@,
            value@,
            cache_capacity(*old(cache)) as int,
        ),
        cache_capacity(*final(cache)) == cache_capacity(*old(cache)),
{
    cache.insert(key, value);
}

} // verus!
