//! An in-memory answer store on a `moka` cache whose entries expire.
use vstd::prelude::*;
use crate::config::CaptchaConfig;
use crate::store::{no_answers, CaptchaStore, MAX_EXPIRE_SECONDS};
use moka::sync::Cache;

verus! {

#[verifier::external_type_specification]
#[verifier::external_body]
#[verifier::reject_recursive_types(K)]
#[verifier::reject_recursive_types(V)]
#[verifier::reject_recursive_types(S)]
pub struct ExCache<K, V, S>(Cache<K, V, S>);

/// The entries of a `moka` cache as inserted through it: each key maps to the
/// value inserted last for it, unless it was invalidated since. The cache
/// itself may have dropped an entry of this map on expiry.
pub uninterp spec fn cache_entries(cache: Cache<String, String>) -> Map<Seq<char>, Seq<char>>;

/// The time to live, in seconds, that a `moka` cache was built with: each
/// entry expires that long after its insertion.
pub uninterp spec fn cache_ttl(cache: Cache<String, String>) -> nat;

/// The weight of a cached answer: its length in bytes, cut to `u32`.
pub fn entry_weight(value: &String) -> (w: u32)
    ensures
        w == (#[verifier::truncate] ((vstd::utf8::encode_utf8(value@).len() as usize) as u32)),
{
    #[verifier::truncate] (value.as_str().len() as u32)
}

/// Builds a `moka` cache (`Cache::builder().time_to_live(..).weigher(..).build()`)
/// whose entries expire `ttl_secs` seconds after their insertion.
/// Claimed: the new cache holds no entry and its entries live `ttl_secs`
/// seconds. The builder panics on a lifetime
/// over a thousand years, which `requires` leaves out.
#[verifier::external_body]
fn new_cache(ttl_secs: u64) -> (c: Cache<String, String>)
    requires
        ttl_secs <= MAX_EXPIRE_SECONDS,
    ensures
        cache_entries(c) == no_answers(),
        cache_ttl(c) == ttl_secs,
{
    Cache::builder()
        .time_to_live(std::time::Duration::from_secs(ttl_secs))
        .weigher(|_k: &String, v: &String| entry_weight(v))
        .build()
}

/// `moka::sync::Cache::insert`. Claimed: afterwards `key` maps to `value`
/// and every other entry is as it was; the time to live is unchanged.
#[verifier::external_body]
fn cache_insert(cache: &mut Cache<String, String>, key: String, value: String)
    ensures
        cache_entries(*final(cache)) == cache_entries(*old(cache)).insert(key@, value@),
        cache_ttl(*final(cache)) == cache_ttl(*old(cache)),
{
    cache.insert(key, value);
}

/// `moka::sync::Cache::get`. Claimed: a value found is the one inserted last
/// for `key` and not invalidated since; a key never inserted, or invalidated
/// since, is not found. Whether an inserted entry has expired depends on the
/// clock and is not stated.
#[verifier::external_body]
fn cache_get(cache: &Cache<String, String>, key: &str) -> (r: Option<String>)
    ensures
        r matches Some(v) ==> cache_entries(*cache).contains_key(key@)
            && cache_entries(*cache)[key@] == v@,
        !cache_entries(*cache).contains_key(key@) ==> r is None,
{
    cache.get(key)
}

/// `moka::sync::Cache::invalidate`. Claimed: afterwards `key` has no entry
/// and every other entry is as it was; the time to live is unchanged.
#[verifier::external_body]
fn cache_invalidate(cache: &mut Cache<String, String>, key: &str)
    ensures
        cache_entries(*final(cache)) == cache_entries(*old(cache)).remove(key@),
        cache_ttl(*final(cache)) == cache_ttl(*old(cache)),
{
    cache.invalidate(key);
}

/// Answers kept in memory; each entry expires a fixed time after it was set.
/// The store is deliberately not `Clone` and keeps its cache private: clones
/// of a `moka` cache share their entries, and every change to the entries
/// goes through `&mut self` here.
pub struct InMemoryStore {
    cache: Cache<String, String>,
}

impl InMemoryStore {
    /// How long, in seconds, each answer lives after it is set.
    pub closed spec fn expire_seconds(&self) -> nat {
        cache_ttl(self.cache)
    }

    /// A new, empty store whose entries live `captcha_config.expire_seconds`
    /// seconds.
    pub fn new(captcha_config: CaptchaConfig) -> (s: Self)
        requires
            captcha_config.expire_seconds <= MAX_EXPIRE_SECONDS,
        ensures
            s.answers() == no_answers(),
            s.expire_seconds() == captcha_config.expire_seconds,
    {
        InMemoryStore { cache: new_cache(captcha_config.expire_seconds as u64) }
    }
}

impl CaptchaStore for InMemoryStore {
    closed spec fn answers(&self) -> Map<Seq<char>, Seq<char>> {
        cache_entries(self.cache)
    }

    fn set(&mut self, key: String, value: String)
        ensures
            final(self).expire_seconds() == old(self).expire_seconds(),
    {
        cache_insert(&mut self.cache, key, value);
    }

    fn get(&self, key: &str) -> (r: Option<String>) {
        cache_get(&self.cache, key)
    }

    fn remove(&mut self, key: &str)
        ensures
            final(self).expire_seconds() == old(self).expire_seconds(),
    {
        cache_invalidate(&mut self.cache, key);
    }
}

} // verus!
