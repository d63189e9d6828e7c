//! The store of issued captcha answers, keyed by token.
use vstd::prelude::*;
use crate::config::{CaptchaConfig, StoreConfig};
use crate::memory_store::InMemoryStore;

verus! {

/// A place where issued captcha answers are kept until they are checked.
///
/// `answers` is what was set and not removed since. A store may forget an
/// entry on its own (the in-memory store lets entries expire), so a lookup
/// either finds the answer that was set last for the token or finds nothing;
/// it never finds anything else.
pub trait CaptchaStore {
    /// The answers set and not removed since, by token.
    spec fn answers(&self) -> Map<Seq<char>, Seq<char>>;

    /// Records `value` as the answer for `key`, replacing any earlier one.
    fn set(&mut self, key: String, value: String)
        ensures
            final(self).answers() == old(self).answers().insert(key@, value@),
    ;

    /// Looks up the answer for `key`.
    fn get(&self, key: &str) -> (r: Option<String>)
        ensures
            r matches Some(v) ==> self.answers().contains_key(key@) && self.answers()[key@] == v@,
            !self.answers().contains_key(key@) ==> r is None,
    ;

    /// Forgets the answer for `key`, if there is one.
    fn remove(&mut self, key: &str)
        ensures
            final(self).answers() == old(self).answers().remove(key@),
    ;
}

/// The answers of a store that holds none.
pub open spec fn no_answers() -> Map<Seq<char>, Seq<char>> {
    Map::empty()
}

/// Where answers are kept.
pub enum StoreBackend {
    /// In the process's memory, with entries that expire.
    Memory,
    /// In a Redis server, at the configured address.
    Redis,
}

/// The longest lifetime, in seconds, that an in-memory store accepts for its
/// entries (a thousand years of 365 days).
pub const MAX_EXPIRE_SECONDS: u64 = 31_536_000_000;

/// Builds the in-memory store when `store_config` asks for one, with
/// entries that live `captcha_config.expire_seconds` seconds; a new store
/// holds no answer. A Redis store lives in a server reached over the network
/// at `store_config.url`, so none is built here (`None`).
pub fn create_store(store_config: StoreConfig, captcha_config: CaptchaConfig) -> (s: Option<InMemoryStore>)
    requires
        captcha_config.expire_seconds <= MAX_EXPIRE_SECONDS,
    ensures
        s is Some <==> store_config.backend is Memory,
        s matches Some(st) ==> st.answers() == no_answers(),
        s matches Some(st) ==> st.expire_seconds() == captcha_config.expire_seconds,
{
    match store_config.backend {
        StoreBackend::Memory => Some(InMemoryStore::new(captcha_config)),
        StoreBackend::Redis => None,
    }
}

} // verus!
