use sso_bridge::cache::{ExchangeCache, ENTRY_LIFETIME_SECS, MAX_ENTRIES, MAX_LIFETIME_SECS};
use sso_bridge::identity::CachedIdentity;
use std::time::{Duration, Instant};

fn identity(tag: &str) -> CachedIdentity {
    CachedIdentity {
        nonce: format!("nonce-{}", tag),
        refresh_token: format!("refresh-{}", tag),
        email: format!("{}@example.com", tag),
    }
}

fn wait(duration: Duration) {
    let start = Instant::now();
    while start.elapsed() < duration {
        std::hint::spin_loop();
    }
}

#[test]
fn new_cache_has_the_service_limits() {
    let cache = ExchangeCache::new();
    assert_eq!(cache.capacity(), 1000);
    assert_eq!(cache.lifetime(), 600);
    assert_eq!(MAX_ENTRIES, 1000);
    assert_eq!(ENTRY_LIFETIME_SECS, 10 * 60);
}

#[test]
fn with_limits_keeps_the_limits_given() {
    let cache = ExchangeCache::with_limits(7, 90).expect("a cache");
    assert_eq!(cache.capacity(), 7);
    assert_eq!(cache.lifetime(), 90);
}

#[test]
fn with_limits_refuses_a_lifetime_over_a_thousand_years() {
    assert_eq!(MAX_LIFETIME_SECS, 1000 * 365 * 24 * 3600);
    assert!(ExchangeCache::with_limits(10, MAX_LIFETIME_SECS).is_some());
    assert!(ExchangeCache::with_limits(10, MAX_LIFETIME_SECS + 1).is_none());
    assert!(ExchangeCache::with_limits(10, u64::MAX).is_none());
}

#[test]
fn new_cache_holds_nothing() {
    let cache = ExchangeCache::new();
    assert!(cache.lookup(&"c-1".to_string()).is_none());
    assert!(cache.lookup(&String::new()).is_none());
}

#[test]
fn lookup_returns_what_was_inserted() {
    let mut cache = ExchangeCache::new();
    cache.insert("c-1".to_string(), identity("alice"));
    cache.insert("c-2".to_string(), identity("bob"));
    let alice = cache.lookup(&"c-1".to_string()).expect("an entry");
    assert_eq!(alice.email, "alice@example.com");
    assert_eq!(alice.nonce, "nonce-alice");
    assert_eq!(alice.refresh_token, "refresh-alice");
    let bob = cache.lookup(&"c-2".to_string()).expect("an entry");
    assert_eq!(bob.email, "bob@example.com");
    assert!(cache.lookup(&"c-3".to_string()).is_none());
}

#[test]
fn insert_replaces_the_entry_of_a_code() {
    let mut cache = ExchangeCache::new();
    cache.insert("c-1".to_string(), identity("alice"));
    cache.insert("c-1".to_string(), identity("carol"));
    let kept = cache.lookup(&"c-1".to_string()).expect("an entry");
    assert_eq!(kept.email, "carol@example.com");
    assert_eq!(kept.nonce, "nonce-carol");
}

#[test]
fn invalidate_discards_only_its_code() {
    let mut cache = ExchangeCache::new();
    cache.insert("c-1".to_string(), identity("alice"));
    cache.insert("c-2".to_string(), identity("bob"));
    cache.invalidate(&"c-1".to_string());
    assert!(cache.lookup(&"c-1".to_string()).is_none());
    assert_eq!(cache.lookup(&"c-2".to_string()).expect("an entry").email, "bob@example.com");
    cache.invalidate(&"c-1".to_string());
    cache.invalidate(&"never".to_string());
    assert_eq!(cache.lookup(&"c-2".to_string()).expect("an entry").email, "bob@example.com");
}

#[test]
fn lookup_does_not_consume_the_entry() {
    let mut cache = ExchangeCache::new();
    cache.insert("c-1".to_string(), identity("alice"));
    for _ in 0..5 {
        assert_eq!(cache.lookup(&"c-1".to_string()).expect("an entry").email, "alice@example.com");
    }
}

#[test]
fn entry_is_no_longer_returned_after_its_lifetime() {
    let mut cache = ExchangeCache::with_limits(1000, 1).expect("a cache");
    cache.insert("c-1".to_string(), identity("alice"));
    assert!(cache.lookup(&"c-1".to_string()).is_some());
    wait(Duration::from_millis(1300));
    assert!(cache.lookup(&"c-1".to_string()).is_none());
}

#[test]
fn reinserting_renews_the_lifetime() {
    let mut cache = ExchangeCache::with_limits(1000, 2).expect("a cache");
    cache.insert("c-1".to_string(), identity("alice"));
    wait(Duration::from_millis(1200));
    cache.insert("c-1".to_string(), identity("alice"));
    wait(Duration::from_millis(1200));
    assert!(cache.lookup(&"c-1".to_string()).is_some());
}
