use sso_bridge::cache::ExchangeCache;
use sso_bridge::error::SsoError;
use sso_bridge::identity::CachedIdentity;
use sso_bridge::redeem::{redeem, redeem_found, NonceDeletion, NonceLookup, Redemption};

fn alice() -> CachedIdentity {
    CachedIdentity {
        nonce: "n-1".to_string(),
        refresh_token: "rt-1".to_string(),
        email: "alice@example.com".to_string(),
    }
}

#[test]
fn redeem_without_exchange_is_a_cache_miss() {
    let mut cache = ExchangeCache::new();
    cache.insert("c-2".to_string(), alice());
    assert!(matches!(redeem(&mut cache, &"c-1".to_string()), Redemption::Failed(SsoError::CacheMiss)));
    assert!(cache.lookup(&"c-2".to_string()).is_some());
}

#[test]
fn redeem_takes_the_identity_out_of_the_cache() {
    let mut cache = ExchangeCache::new();
    cache.insert("c-1".to_string(), alice());
    match redeem(&mut cache, &"c-1".to_string()) {
        Redemption::NeedsNonce(lookup) => {
            assert_eq!(lookup.identity.nonce, "n-1");
            assert_eq!(lookup.identity.refresh_token, "rt-1");
            assert_eq!(lookup.identity.email, "alice@example.com");
        }
        other => panic!("expected a nonce lookup, got {:?}", other),
    }
    assert!(cache.lookup(&"c-1".to_string()).is_none());
}

#[test]
fn missing_nonce_ends_redemption_for_good() {
    let mut cache = ExchangeCache::new();
    cache.insert("c-1".to_string(), alice());
    let lookup = match redeem(&mut cache, &"c-1".to_string()) {
        Redemption::NeedsNonce(lookup) => lookup,
        other => panic!("expected a nonce lookup, got {:?}", other),
    };
    assert!(matches!(lookup.answered(false), Redemption::Failed(SsoError::NonceNotFound)));
    assert!(matches!(redeem(&mut cache, &"c-1".to_string()), Redemption::Failed(SsoError::CacheMiss)));
}

#[test]
fn failed_deletion_loses_the_refresh_token() {
    let mut cache = ExchangeCache::new();
    cache.insert("c-1".to_string(), alice());
    let lookup = match redeem(&mut cache, &"c-1".to_string()) {
        Redemption::NeedsNonce(lookup) => lookup,
        other => panic!("expected a nonce lookup, got {:?}", other),
    };
    let deletion = match lookup.answered(true) {
        Redemption::NeedsNonceDeletion(deletion) => deletion,
        other => panic!("expected a nonce deletion, got {:?}", other),
    };
    match deletion.answered(Err("connection lost".to_string())) {
        Redemption::Failed(SsoError::NonceDeletion(cause)) => assert_eq!(cause, "connection lost"),
        other => panic!("expected a deletion failure, got {:?}", other),
    }
    assert!(matches!(redeem(&mut cache, &"c-1".to_string()), Redemption::Failed(SsoError::CacheMiss)));
}

#[test]
fn found_nonce_asks_for_its_deletion() {
    match (NonceLookup { identity: alice() }).answered(true) {
        Redemption::NeedsNonceDeletion(deletion) => {
            assert_eq!(deletion.identity.nonce, "n-1");
            assert_eq!(deletion.identity.refresh_token, "rt-1");
        }
        other => panic!("expected a nonce deletion, got {:?}", other),
    }
}

#[test]
fn deleted_nonce_releases_the_refresh_token() {
    match (NonceDeletion { identity: alice() }).answered(Ok(())) {
        Redemption::Released(token) => assert_eq!(token, "rt-1"),
        other => panic!("expected the refresh token, got {:?}", other),
    }
}

#[test]
fn identity_clone_keeps_every_field() {
    let copy = alice().clone();
    assert_eq!(copy.nonce, "n-1");
    assert_eq!(copy.refresh_token, "rt-1");
    assert_eq!(copy.email, "alice@example.com");
}

#[test]
fn found_identity_is_invalidated_at_once() {
    let mut cache = ExchangeCache::new();
    cache.insert("c-1".to_string(), alice());
    cache.insert("c-2".to_string(), alice());
    match redeem_found(&mut cache, &"c-1".to_string(), Some(alice())) {
        Redemption::NeedsNonce(lookup) => {
            assert_eq!(lookup.identity.nonce, "n-1");
            assert_eq!(lookup.identity.refresh_token, "rt-1");
        }
        other => panic!("expected a nonce lookup, got {:?}", other),
    }
    assert!(cache.lookup(&"c-1".to_string()).is_none());
    assert!(cache.lookup(&"c-2".to_string()).is_some());
}

#[test]
fn nothing_found_is_a_cache_miss_that_keeps_the_cache() {
    let mut cache = ExchangeCache::new();
    cache.insert("c-1".to_string(), alice());
    let step = redeem_found(&mut cache, &"c-1".to_string(), None);
    assert!(matches!(step, Redemption::Failed(SsoError::CacheMiss)));
    assert!(cache.lookup(&"c-1".to_string()).is_some());
}
