//! The cache of exchanged authorization codes: bounded in size and in time.
//!
//! An entry may leave the cache at any moment, by age or for want of room. So
//! the contracts keep the record of what was stored and not dropped since, say
//! that a hit comes from that record, and never promise one.

use vstd::prelude::*;
use mini_moka::sync::Cache;
use std::time::Duration;
use crate::identity::{AuthenticatedUser, AuthenticatedUserView};

verus! {

/// The concurrent cache of `mini_moka`.
#[verifier::external_type_specification]
#[verifier::external_body]
#[verifier::reject_recursive_types(K)]
#[verifier::reject_recursive_types(V)]
#[verifier::reject_recursive_types(S)]
pub struct ExCache<K, V, S>(Cache<K, V, S>);

/// How many entries the code cache holds at most.
pub const CODE_CAPACITY: u64 = 1000;

/// For how many seconds an exchanged code stays redeemable.
pub const CODE_TIME_TO_LIVE: u64 = 600;

/// The longest time to live that the cache accepts, in seconds: 1000 years.
pub const MAX_TIME_TO_LIVE: u64 = 31_536_000_000;

/// The pairs that were written to the cache and not invalidated since: the
/// record of its writes. A read finds nothing else; it may find less, since
/// entries expire and are evicted.
pub uninterp spec fn cache_entries(cache: Cache<String, AuthenticatedUser>) -> Map<
    Seq<char>,
    AuthenticatedUserView,
>;

/// The capacity that the cache was built with, if it was built with one.
pub uninterp spec fn cache_capacity(cache: Cache<String, AuthenticatedUser>) -> Option<u64>;

/// The time to live, in whole seconds, that the cache was built with, if it was
/// built with one.
pub uninterp spec fn cache_time_to_live(cache: Cache<String, AuthenticatedUser>) -> Option<u64>;

/// The map without entries.
pub open spec fn no_entries() -> Map<Seq<char>, AuthenticatedUserView> {
    Map::empty()
}

/// Builds an empty cache with `Cache::builder()`, `max_capacity`,
/// `time_to_live` and `build`. `build` refuses a time to live of more than 1000
/// years.
#[verifier::external_body]
fn cache_build(capacity: u64, time_to_live: u64) -> (cache: Cache<String, AuthenticatedUser>)
    requires
        time_to_live <= MAX_TIME_TO_LIVE,
    ensures
        cache_entries(cache) == no_entries(),
        cache_capacity(cache) == Some(capacity),
        cache_time_to_live(cache) == Some(time_to_live),
{
    Cache::builder().max_capacity(capacity).time_to_live(Duration::from_secs(time_to_live)).build()
}

/// `Cache::get`: a copy of the value under the key, if the cache still has it.
/// A value that comes back is the one that was last written under the key.
#[verifier::external_body]
fn cache_get(cache: &Cache<String, AuthenticatedUser>, key: &String) -> (found: Option<
    AuthenticatedUser,
>)
    ensures
        found matches Some(value) ==> cache_entries(*cache).contains_key(key@) && cache_entries(
            *cache,
        )[key@] == value@,
{
    cache.get(key)
}

/// `Cache::insert`: writes the value under the key, in place of any that was
/// written under it before; the limits stay.
#[verifier::external_body]
fn cache_insert(cache: &mut Cache<String, AuthenticatedUser>, key: String, value: AuthenticatedUser)
    ensures
        cache_entries(*final(cache)) == cache_entries(*old(cache)).insert(key@, value@),
        cache_capacity(*final(cache)) == cache_capacity(*old(cache)),
        cache_time_to_live(*final(cache)) == cache_time_to_live(*old(cache)),
{
    cache.insert(key, value)
}

/// `Cache::invalidate`: discards the value under the key. No read finds the key
/// afterwards, until it is written again; the other entries and the limits
/// stay.
#[verifier::external_body]
fn cache_invalidate(cache: &mut Cache<String, AuthenticatedUser>, key: &String)
    ensures
        cache_entries(*final(cache)) == cache_entries(*old(cache)).remove(key@),
        cache_capacity(*final(cache)) == cache_capacity(*old(cache)),
        cache_time_to_live(*final(cache)) == cache_time_to_live(*old(cache)),
{
    cache.invalidate(key)
}

/// `Cache::policy`: the capacity and the time to live, in whole seconds, that
/// the cache was built with, each if there is one.
#[verifier::external_body]
fn cache_limits(cache: &Cache<String, AuthenticatedUser>) -> (limits: (Option<u64>, Option<u64>))
    ensures
        limits.0 == cache_capacity(*cache),
        limits.1 == cache_time_to_live(*cache),
{
    let policy = cache.policy();
    (policy.max_capacity(), policy.time_to_live().map(|d| d.as_secs()))
}

/// The exchanged codes that may still be redeemed, each with the identity that
/// its exchange gave.
pub struct CodeCache {
    cache: Cache<String, AuthenticatedUser>,
}

impl CodeCache {
    /// The codes that were stored and not dropped since, each with its
    /// identity. A lookup finds nothing else; it may find less.
    pub closed spec fn entries(&self) -> Map<Seq<char>, AuthenticatedUserView> {
        cache_entries(self.cache)
    }

    /// The most entries that the cache keeps; 0 where it has no capacity.
    pub closed spec fn capacity(&self) -> u64 {
        match cache_capacity(self.cache) {
            Some(capacity) => capacity,
            None => 0,
        }
    }

    /// The seconds after which an entry is gone; 0 where entries do not age.
    pub closed spec fn time_to_live(&self) -> u64 {
        match cache_time_to_live(self.cache) {
            Some(seconds) => seconds,
            None => 0,
        }
    }

    /// An empty cache for 1000 codes, each kept for ten minutes.
    pub fn new() -> (r: CodeCache)
        ensures
            r.entries() == no_entries(),
            r.capacity() == CODE_CAPACITY,
            r.time_to_live() == CODE_TIME_TO_LIVE,
    {
        CodeCache { cache: cache_build(CODE_CAPACITY, CODE_TIME_TO_LIVE) }
    }

    /// An empty cache with limits of the caller's choosing; `None` where the
    /// time to live is longer than the cache accepts.
    pub fn with_limits(capacity: u64, time_to_live: u64) -> (r: Option<CodeCache>)
        ensures
            r is Some <==> time_to_live <= MAX_TIME_TO_LIVE,
            r matches Some(c) ==> c.entries() == no_entries() && c.capacity() == capacity
                && c.time_to_live() == time_to_live,
    {
        if time_to_live <= MAX_TIME_TO_LIVE {
            Some(CodeCache { cache: cache_build(capacity, time_to_live) })
        } else {
            None
        }
    }

    /// The capacity and the time to live, in seconds.
    pub fn limits(&self) -> (r: (u64, u64))
        ensures
            r.0 == self.capacity(),
            r.1 == self.time_to_live(),
    {
        let (capacity, time_to_live) = cache_limits(&self.cache);
        (
            match capacity {
                Some(c) => c,
                None => 0,
            },
            match time_to_live {
                Some(t) => t,
                None => 0,
            },
        )
    }

    /// The identity under a code, if the cache still has it. An identity that
    /// comes back is the one that was last stored under the code.
    pub fn get(&self, code: &String) -> (r: Option<AuthenticatedUser>)
        ensures
            r matches Some(user) ==> self.entries().dom().contains(code@) && self.entries()[code@]
                == user@,
    {
        cache_get(&self.cache, code)
    }

    /// Stores an identity under a code, in place of any that was stored under
    /// it before.
    pub fn insert(&mut self, code: String, user: AuthenticatedUser)
        ensures
            final(self).entries() == old(self).entries().insert(code@, user@),
            final(self).capacity() == old(self).capacity(),
            final(self).time_to_live() == old(self).time_to_live(),
    {
        cache_insert(&mut self.cache, code, user);
    }

    /// Drops the entry of a code. No later lookup finds the code, until it is
    /// stored again.
    pub fn invalidate(&mut self, code: &String)
        ensures
            final(self).entries() == old(self).entries().remove(code@),
            final(self).capacity() == old(self).capacity(),
            final(self).time_to_live() == old(self).time_to_live(),
    {
        cache_invalidate(&mut self.cache, code);
    }
}

} // verus!
