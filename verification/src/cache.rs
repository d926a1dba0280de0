//! The exchange cache: authorization code to identity, bounded in age and size.
//!
//! The cache is the one record of whether a code has been exchanged with the
//! provider. Writing to it takes exclusive access, so a process that serves
//! requests in parallel keeps it behind a lock; a lookup followed by an
//! invalidation under that lock is then one step for every other request.

use crate::identity::{no_identities, CachedIdentity, IdentityView};
use mini_moka::sync::Cache;
use std::collections::hash_map::RandomState;
use std::time::Duration;
use vstd::prelude::*;

verus! {

/// The number of codes the cache keeps at most.
pub const MAX_ENTRIES: u64 = 1000;

/// The number of seconds after which an entry is no longer handed out.
pub const ENTRY_LIFETIME_SECS: u64 = 600;

/// The longest lifetime the cache can be built with: a thousand years of 365 days.
pub const MAX_LIFETIME_SECS: u64 = 31_536_000_000;

/// `mini_moka::sync::Cache`, opaque to the verifier.
#[verifier::external_type_specification]
#[verifier::external_body]
#[verifier::reject_recursive_types(K)]
#[verifier::reject_recursive_types(V)]
#[verifier::reject_recursive_types(S)]
pub struct ExCache<K, V, S>(Cache<K, V, S>);

/// The entries that have been written to the cache and not invalidated since.
/// The cache may drop any of them on its own, by age or under capacity
/// pressure, so this is what a lookup can still find, not what it must find.
pub uninterp spec fn written_entries(cache: Cache<String, CachedIdentity, RandomState>) -> Map<Seq<char>, IdentityView>;

/// The capacity the cache was built with, where it was built with one.
pub uninterp spec fn capacity_limit(cache: Cache<String, CachedIdentity, RandomState>) -> Option<u64>;

/// The time to live, in whole seconds, the cache was built with, where it
/// was built with one.
pub uninterp spec fn lifetime_limit(cache: Cache<String, CachedIdentity, RandomState>) -> Option<u64>;

/// `CacheBuilder::max_capacity`, `time_to_live` and `build` of mini_moka:
/// an empty cache with the two limits as given. `build` panics on a lifetime
/// of more than a thousand years, which the precondition excludes.
#[verifier::external_body]
fn build_cache(max_entries: u64, lifetime_secs: u64) -> (cache: Cache<String, CachedIdentity, RandomState>)
    requires
        lifetime_secs <= MAX_LIFETIME_SECS,
    ensures
        written_entries(cache) == no_identities(),
        capacity_limit(cache) == Some(max_entries),
        lifetime_limit(cache) == Some(lifetime_secs),
{
    Cache::builder().max_capacity(max_entries).time_to_live(Duration::from_secs(lifetime_secs)).build()
}

/// `Cache::get` of mini_moka: a clone of the value last written for the key,
/// or nothing. It finds nothing for a key that was never written or was
/// invalidated; it may also find nothing for a written key, whose entry
/// expired or was evicted.
#[verifier::external_body]
fn cache_get(cache: &Cache<String, CachedIdentity, RandomState>, key: &String) -> (found: Option<CachedIdentity>)
    ensures
        found matches Some(identity) ==> written_entries(*cache).contains_key(key@)
            && written_entries(*cache)[key@] == identity@,
{
    cache.get(key)
}

/// `Cache::insert` of mini_moka: writes the value for the key, in place of
/// any earlier one; other keys are untouched, and so are the limits. The
/// call does not unwind: the crate panics in it only on a closed channel or
/// a poisoned lock of its own, which a cache that is alive and has seen no
/// panic does not have.
#[verifier::external_body]
fn cache_insert(
    cache: &mut Cache<String, CachedIdentity, RandomState>,
    key: String,
    value: CachedIdentity,
)
    ensures
        written_entries(*final(cache)) == written_entries(*old(cache)).insert(key@, value@),
        capacity_limit(*final(cache)) == capacity_limit(*old(cache)),
        lifetime_limit(*final(cache)) == lifetime_limit(*old(cache)),
    no_unwind
{
    cache.insert(key, value)
}

/// `Cache::invalidate` of mini_moka: discards the value of the key, if any;
/// other keys are untouched, and so are the limits. The call does not
/// unwind, for the reason given at `cache_insert`.
#[verifier::external_body]
fn cache_invalidate(cache: &mut Cache<String, CachedIdentity, RandomState>, key: &String)
    ensures
        written_entries(*final(cache)) == written_entries(*old(cache)).remove(key@),
        capacity_limit(*final(cache)) == capacity_limit(*old(cache)),
        lifetime_limit(*final(cache)) == lifetime_limit(*old(cache)),
    no_unwind
{
    cache.invalidate(key)
}

/// `Cache::policy` and `Policy::max_capacity` of mini_moka: the capacity the
/// builder was given, if it was given one.
#[verifier::external_body]
fn cache_capacity(cache: &Cache<String, CachedIdentity, RandomState>) -> (limit: Option<u64>)
    ensures
        limit == capacity_limit(*cache),
{
    cache.policy().max_capacity()
}

/// `Cache::policy` and `Policy::time_to_live` of mini_moka, in whole seconds:
/// the time to live the builder was given, if it was given one.
#[verifier::external_body]
fn cache_lifetime(cache: &Cache<String, CachedIdentity, RandomState>) -> (limit: Option<u64>)
    ensures
        limit == lifetime_limit(*cache),
{
    cache.policy().time_to_live().map(|d| d.as_secs())
}

/// The shared store of exchanged identities, keyed by authorization code.
pub struct ExchangeCache {
    store: Cache<String, CachedIdentity, RandomState>,
}

impl View for ExchangeCache {
    type V = Map<Seq<char>, IdentityView>;

    /// The identities written and not invalidated since, by code.
    closed spec fn view(&self) -> Map<Seq<char>, IdentityView> {
        written_entries(self.store)
    }
}

impl ExchangeCache {
    /// Every exchange cache is built with both limits.
    #[verifier::type_invariant]
    closed spec fn bounded(self) -> bool {
        capacity_limit(self.store) is Some && lifetime_limit(self.store) is Some
    }

    /// The capacity this cache was built with.
    pub closed spec fn max_entries(&self) -> u64 {
        match capacity_limit(self.store) {
            Some(limit) => limit,
            None => 0,
        }
    }

    /// The entry lifetime in seconds this cache was built with.
    pub closed spec fn lifetime_secs(&self) -> u64 {
        match lifetime_limit(self.store) {
            Some(limit) => limit,
            None => 0,
        }
    }

    /// An empty cache with the service's limits: 1000 entries, ten minutes.
    pub fn new() -> (cache: Self)
        ensures
            cache@ == no_identities(),
            cache.max_entries() == MAX_ENTRIES,
            cache.lifetime_secs() == ENTRY_LIFETIME_SECS,
    {
        ExchangeCache { store: build_cache(MAX_ENTRIES, ENTRY_LIFETIME_SECS) }
    }

    /// An empty cache with limits of the caller's choice, or nothing where
    /// the lifetime exceeds [`MAX_LIFETIME_SECS`].
    pub fn with_limits(max_entries: u64, lifetime_secs: u64) -> (cache: Option<Self>)
        ensures
            cache is Some <==> lifetime_secs <= MAX_LIFETIME_SECS,
            cache matches Some(c) ==> c@ == no_identities()
                && c.max_entries() == max_entries && c.lifetime_secs() == lifetime_secs,
    {
        if lifetime_secs <= MAX_LIFETIME_SECS {
            Some(ExchangeCache { store: build_cache(max_entries, lifetime_secs) })
        } else {
            None
        }
    }

    /// The number of codes this cache keeps at most.
    pub fn capacity(&self) -> (limit: u64)
        ensures
            limit == self.max_entries(),
    {
        proof {
            use_type_invariant(self);
        }
        cache_capacity(&self.store).unwrap()
    }

    /// The number of seconds after which this cache no longer hands an
    /// entry out.
    pub fn lifetime(&self) -> (seconds: u64)
        ensures
            seconds == self.lifetime_secs(),
    {
        proof {
            use_type_invariant(self);
        }
        cache_lifetime(&self.store).unwrap()
    }

    /// Looks a code up. A hit is the identity last inserted for the code; a
    /// code that was never inserted, or was invalidated, is never a hit.
    pub fn lookup(&self, code: &String) -> (found: Option<CachedIdentity>)
        ensures
            found matches Some(identity) ==> self@.contains_key(code@) && self@[code@]
                == identity@,
    {
        cache_get(&self.store, code)
    }

    /// Inserts or replaces the identity of a code.
    pub fn insert(&mut self, code: String, identity: CachedIdentity)
        ensures
            final(self)@ == old(self)@.insert(code@, identity@),
            final(self).max_entries() == old(self).max_entries(),
            final(self).lifetime_secs() == old(self).lifetime_secs(),
    {
        proof {
            use_type_invariant(&*self);
        }
        cache_insert(&mut self.store, code, identity)
    }

    /// Discards the identity of a code, if there is one.
    pub fn invalidate(&mut self, code: &String)
        ensures
            final(self)@ == old(self)@.remove(code@),
            final(self).max_entries() == old(self).max_entries(),
            final(self).lifetime_secs() == old(self).lifetime_secs(),
    {
        proof {
            use_type_invariant(&*self);
        }
        cache_invalidate(&mut self.store, code)
    }
}

} // verus!
