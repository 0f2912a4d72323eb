use jsonwebtoken::jwk::JwkSet;
use mega_auth::errors::AuthError;
use mega_auth::keyset::{should_refetch_keys, KeySetCache};
use mega_auth::token::ValidationError;

fn keys() -> JwkSet {
    serde_json::from_str(r#"{"keys":[{"kty":"RSA","kid":"k1","n":"AQAB","e":"AQAB"}]}"#).unwrap()
}

#[test]
fn empty_cache_has_no_fresh_keys() {
    let cache = KeySetCache::new(300);
    assert!(cache.fresh(0).is_none());
}

#[test]
fn stored_keys_are_fresh_until_max_age() {
    let mut cache = KeySetCache::new(300);
    cache.store(keys(), 1000);
    assert!(cache.fresh(1000).is_some());
    assert!(cache.fresh(1300).is_some());
    assert!(cache.fresh(1301).is_none());
    assert!(cache.fresh(999).is_none());
}

#[test]
fn invalidated_cache_is_empty() {
    let mut cache = KeySetCache::new(300);
    cache.store(keys(), 0);
    cache.invalidate();
    assert!(cache.fresh(0).is_none());
}

#[test]
fn refetch_only_on_unknown_key_id_from_cache() {
    let unknown = AuthError::InvalidToken(ValidationError::UnknownKeyId);
    assert!(should_refetch_keys(unknown, true));
    assert!(!should_refetch_keys(unknown, false));
    assert!(!should_refetch_keys(AuthError::InvalidToken(ValidationError::Rejected), true));
    assert!(!should_refetch_keys(AuthError::KeySetUnavailable, true));
}

#[test]
fn fresh_keys_are_the_stored_ones() {
    let mut cache = KeySetCache::new(300);
    cache.store(keys(), 10);
    assert_eq!(cache.fresh(20), Some(&keys()));
}
