//! The result cache: a bounded store from identifier to output bytes whose
//! entries expire a fixed time after they were put in. Bounding, eviction and
//! expiry are those of `moka`; this module says what the rest of the library
//! may rely on.

use moka::sync::Cache;
use std::collections::hash_map::RandomState;
use std::time::Duration;
use vstd::prelude::*;

verus! {

/// `moka::sync::Cache`, a concurrent cache bounded in size and in the age of
/// its entries. The contracts see it only through `cache_entries`.
#[verifier::external_type_specification]
#[verifier::external_body]
#[verifier::reject_recursive_types(K)]
#[verifier::reject_recursive_types(V)]
#[verifier::reject_recursive_types(S)]
pub struct ExCache<K, V, S>(moka::sync::Cache<K, V, S>);

/// For each key that was ever put into the store, the value that was put
/// last. The store may have dropped any of them since.
pub uninterp spec fn cache_entries(store: Cache<String, Vec<u8>, RandomState>) -> Map<
    Seq<char>,
    Seq<u8>,
>;

/// The bounds that the store was built with: the number of entries it holds
/// at most, and the seconds that an entry lives.
pub uninterp spec fn cache_limits(store: Cache<String, Vec<u8>, RandomState>) -> (u64, u64);

/// The entries of a store that nothing was put into.
pub open spec fn no_entries() -> Map<Seq<char>, Seq<u8>> {
    Map::empty()
}

/// Number of entries that the service's cache holds at most.
pub const CACHE_CAPACITY: u64 = 50_000;

/// Seconds that an entry of the service's cache lives: one day.
pub const CACHE_TTL_SECS: u64 = 86_400;

/// The longest time to live that the store accepts: a thousand years.
pub const MAX_TTL_SECS: u64 = 31_536_000_000;

/// Builds an empty store with `moka::sync::Cache::builder`, bounded to
/// `max_entries` entries that live `ttl_secs` seconds each.
///
/// Assumed, not proved: the new store holds nothing, and its bounds are the
/// two that were given. The builder panics on a time to live above a
/// thousand years, which the precondition excludes.
#[verifier::external_body]
fn build_store(max_entries: u64, ttl_secs: u64) -> (store: Cache<String, Vec<u8>, RandomState>)
    requires
        ttl_secs <= MAX_TTL_SECS,
    ensures
        cache_entries(store) == no_entries(),
        cache_limits(store) == (max_entries, ttl_secs),
{
    Cache::builder().max_capacity(max_entries).time_to_live(Duration::from_secs(ttl_secs)).build()
}

/// Looks `key` up with `moka::sync::Cache::get`.
///
/// Assumed, not proved: a value that comes back is the one that was put last
/// under `key`. Whether one comes back depends on the clock and on what the
/// store has evicted, so nothing is claimed of that.
#[verifier::external_body]
fn store_get(store: &Cache<String, Vec<u8>, RandomState>, key: &str) -> (found: Option<Vec<u8>>)
    ensures
        found matches Some(value) ==> cache_entries(*store).contains_key(key@) && cache_entries(
            *store,
        )[key@] == value@,
{
    store.get(key)
}

/// Puts `value` under `key` with `moka::sync::Cache::insert`, replacing what
/// was there.
///
/// Assumed, not proved: from now on `value` is what was put last under `key`,
/// nothing changes for the other keys, and the store keeps its bounds.
#[verifier::external_body]
fn store_insert(store: &mut Cache<String, Vec<u8>, RandomState>, key: String, value: Vec<u8>)
    ensures
        cache_entries(*final(store)) == cache_entries(*old(store)).insert(key@, value@),
        cache_limits(*final(store)) == cache_limits(*old(store)),
{
    store.insert(key, value);
}

/// What a lookup of `key` may answer when `entries` is what was put last:
/// nothing, or the value put last under `key`.
pub open spec fn may_answer(
    entries: Map<Seq<char>, Seq<u8>>,
    key: Seq<char>,
    found: Option<Seq<u8>>,
) -> bool {
    found matches Some(value) ==> entries.contains_key(key) && entries[key] == value
}

/// The result cache of the pipeline.
pub struct ResultCache {
    store: Cache<String, Vec<u8>, RandomState>,
}

impl ResultCache {
    /// For each identifier that was ever put, the asset that was put last.
    pub closed spec fn entries(&self) -> Map<Seq<char>, Seq<u8>> {
        cache_entries(self.store)
    }

    /// The bounds of the cache: the number of entries it holds at most, and
    /// the seconds that an entry lives.
    pub closed spec fn limits(&self) -> (u64, u64) {
        cache_limits(self.store)
    }

    /// An empty cache with the service's bounds: 50 000 entries, one day.
    pub fn new() -> (cache: Self)
        ensures
            cache.entries() == no_entries(),
            cache.limits() == (CACHE_CAPACITY, CACHE_TTL_SECS),
    {
        ResultCache { store: build_store(CACHE_CAPACITY, CACHE_TTL_SECS) }
    }

    /// An empty cache that holds at most `max_entries` entries for `ttl_secs`
    /// seconds each, or `None` where the time to live is above a thousand
    /// years.
    pub fn with_limits(max_entries: u64, ttl_secs: u64) -> (cache: Option<Self>)
        ensures
            cache is Some <==> ttl_secs <= MAX_TTL_SECS,
            cache matches Some(c) ==> c.entries() == no_entries() && c.limits() == (
                max_entries,
                ttl_secs,
            ),
    {
        if ttl_secs <= MAX_TTL_SECS {
            Some(ResultCache { store: build_store(max_entries, ttl_secs) })
        } else {
            None
        }
    }

    /// The asset cached for `identifier`, if the cache still holds one. What
    /// comes back is never anything but the asset that was put last.
    pub fn get(&self, identifier: &str) -> (found: Option<Vec<u8>>)
        ensures
            may_answer(
                self.entries(),
                identifier@,
                match found {
                    Some(asset) => Some(asset@),
                    None => None,
                },
            ),
    {
        store_get(&self.store, identifier)
    }

    /// Caches `asset` for `identifier`, in place of any earlier asset.
    pub fn put(&mut self, identifier: String, asset: Vec<u8>)
        ensures
            final(self).entries() == old(self).entries().insert(identifier@, asset@),
            final(self).limits() == old(self).limits(),
    {
        store_insert(&mut self.store, identifier, asset);
    }
}

/// A lookup that follows a put of `asset` under `identifier` answers with
/// nothing or with `asset`, never with an older or a foreign asset. Whether
/// it answers at all depends on the clock and the store's bounds.
pub proof fn lemma_get_after_put(
    before: Map<Seq<char>, Seq<u8>>,
    identifier: Seq<char>,
    asset: Seq<u8>,
    found: Option<Seq<u8>>,
)
    requires
        may_answer(before.insert(identifier, asset), identifier, found),
    ensures
        found is None || found == Some(asset),
{
}

/// A put leaves what other identifiers may answer untouched.
pub proof fn lemma_put_keeps_other_entries(
    before: Map<Seq<char>, Seq<u8>>,
    identifier: Seq<char>,
    asset: Seq<u8>,
    other: Seq<char>,
    found: Option<Seq<u8>>,
)
    requires
        other != identifier,
    ensures
        may_answer(before.insert(identifier, asset), other, found) == may_answer(
            before,
            other,
            found,
        ),
{
}

} // verus!
