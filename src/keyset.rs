//! A cache of the provider's signing keys: reused while young, dropped when a token
//! names a key id the cached set lacks, so that rotated keys are fetched again.

use vstd::prelude::*;
use crate::errors::AuthError;
use crate::token::ValidationError;
use jsonwebtoken::jwk::JwkSet;

verus! {

/// For how many seconds a fetched key set is used before it is fetched again.
pub const KEY_SET_MAX_AGE_SECS: u64 = 300;

/// The provider's signing keys, with the instant they were fetched.
pub struct KeySetCache {
    keys: Option<JwkSet>,
    fetched_at: u64,
    max_age: u64,
}

impl KeySetCache {
    /// Whether a key set is held.
    pub closed spec fn has_keys(&self) -> bool {
        self.keys is Some
    }

    /// The held key set, if any.
    pub closed spec fn held(&self) -> Option<JwkSet> {
        self.keys
    }

    /// When the held key set was fetched, in seconds.
    pub closed spec fn fetched_at(&self) -> u64 {
        self.fetched_at
    }

    /// For how many seconds after its fetch a key set is used.
    pub closed spec fn max_age(&self) -> u64 {
        self.max_age
    }

    /// Whether the held key set may be used at instant `now`.
    pub open spec fn is_fresh(&self, now: u64) -> bool {
        self.has_keys() && self.fetched_at() <= now && now - self.fetched_at() <= self.max_age()
    }

    /// An empty cache whose key sets are used for `max_age` seconds.
    pub fn new(max_age: u64) -> (r: Self)
        ensures
            !r.has_keys(),
            r.held() is None,
            r.max_age() == max_age,
    {
        KeySetCache { keys: None, fetched_at: 0, max_age }
    }

    /// The held key set, if it may be used at instant `now`.
    pub fn fresh<'a>(&'a self, now: u64) -> (r: Option<&'a JwkSet>)
        ensures
            r is Some <==> self.is_fresh(now),
            r matches Some(k) ==> self.held() == Some(*k),
    {
        match &self.keys {
            Some(k) => {
                if self.fetched_at <= now && now - self.fetched_at <= self.max_age {
                    Some(k)
                } else {
                    None
                }
            },
            None => None,
        }
    }

    /// Holds a key set fetched at instant `now`.
    pub fn store(&mut self, keys: JwkSet, now: u64)
        ensures
            final(self).has_keys(),
            final(self).held() == Some(keys),
            final(self).fetched_at() == now,
            final(self).max_age() == old(self).max_age(),
            final(self).is_fresh(now),
    {
        self.keys = Some(keys);
        self.fetched_at = now;
    }

    /// Drops the held key set, so that the next validation fetches the keys again.
    pub fn invalidate(&mut self)
        ensures
            !final(self).has_keys(),
            final(self).held() is None,
            final(self).max_age() == old(self).max_age(),
    {
        self.keys = None;
    }
}

/// Whether a validation that failed with `e` should be tried once more with keys
/// fetched anew: only when the token named a key id that a cached set lacked.
pub fn should_refetch_keys(e: AuthError, used_cached_keys: bool) -> (r: bool)
    ensures
        r == (used_cached_keys && e == AuthError::InvalidToken(ValidationError::UnknownKeyId)),
{
    used_cached_keys && match e {
        AuthError::InvalidToken(ValidationError::UnknownKeyId) => true,
        _ => false,
    }
}

} // verus!
