use qmp::duration::Duration;
use qmp::ops::{Begin, IdempotencyStore, default_idempotency_key, is_expired};

fn ms(n: u64) -> Duration {
    Duration::from_millis(n)
}

#[test]
fn concurrent_calls_join_the_running_one() {
    let mut store: IdempotencyStore<String, u32> = IdempotencyStore::new();
    assert!(matches!(store.begin("k".to_string(), None, ms(0), 1), Begin::Lead(1)));
    assert!(matches!(store.begin("k".to_string(), None, ms(1), 2), Begin::Joined));
    assert!(matches!(store.begin("k".to_string(), None, ms(2), 3), Begin::Joined));
    let waiters = store.finish_ok("k", "value".to_string(), ms(3));
    assert_eq!(waiters, vec![2, 3]);
    match store.begin("k".to_string(), None, ms(1_000_000), 4) {
        Begin::Cached(v, w) => {
            assert_eq!(v, "value");
            assert_eq!(w, 4);
        }
        _ => panic!("expected a cached value"),
    }
}

#[test]
fn cached_values_expire_after_their_ttl() {
    let mut store: IdempotencyStore<u64, u32> = IdempotencyStore::new();
    assert!(matches!(store.begin("k".to_string(), Some(ms(100)), ms(0), 1), Begin::Lead(1)));
    assert!(store.finish_ok("k", 7, ms(10)).is_empty());
    assert!(matches!(store.begin("k".to_string(), None, ms(109), 2), Begin::Cached(7, 2)));
    assert!(matches!(store.begin("k".to_string(), None, ms(110), 3), Begin::Lead(3)));
    assert!(matches!(store.begin("k".to_string(), None, ms(111), 4), Begin::Joined));
}

#[test]
fn a_given_ttl_replaces_the_stored_one() {
    let mut store: IdempotencyStore<u64, u32> = IdempotencyStore::new();
    assert!(matches!(store.begin("k".to_string(), None, ms(0), 1), Begin::Lead(1)));
    store.finish_ok("k", 1, ms(0));
    assert!(matches!(store.begin("k".to_string(), None, ms(500), 2), Begin::Cached(1, 2)));
    assert!(matches!(store.begin("k".to_string(), Some(ms(50)), ms(500), 3), Begin::Lead(3)));
}

#[test]
fn failures_are_not_cached() {
    let mut store: IdempotencyStore<u64, u32> = IdempotencyStore::new();
    assert!(matches!(store.begin("k".to_string(), None, ms(0), 1), Begin::Lead(1)));
    assert!(matches!(store.begin("k".to_string(), None, ms(0), 2), Begin::Joined));
    assert_eq!(store.finish_err("k"), vec![2]);
    assert!(matches!(store.begin("k".to_string(), None, ms(0), 3), Begin::Lead(3)));
    assert!(store.finish_err("other").is_empty());
    assert!(store.finish_ok("other", 5, ms(0)).is_empty());
    assert!(matches!(store.begin("other".to_string(), None, ms(0), 4), Begin::Lead(4)));
}

#[test]
fn keys_are_independent() {
    let mut store: IdempotencyStore<u64, u32> = IdempotencyStore::new();
    assert!(matches!(store.begin("a".to_string(), None, ms(0), 1), Begin::Lead(1)));
    assert!(matches!(store.begin("b".to_string(), None, ms(0), 2), Begin::Lead(2)));
    store.finish_ok("b", 20, ms(0));
    assert!(matches!(store.begin("a".to_string(), None, ms(0), 3), Begin::Joined));
    assert!(matches!(store.begin("b".to_string(), None, ms(0), 4), Begin::Cached(20, 4)));
}

#[test]
fn expiry() {
    assert!(!is_expired(ms(0), ms(1_000_000), None));
    assert!(is_expired(ms(10), ms(20), Some(ms(10))));
    assert!(!is_expired(ms(10), ms(19), Some(ms(10))));
    assert!(!is_expired(ms(30), ms(20), Some(ms(1))));
    assert!(is_expired(ms(30), ms(20), Some(ms(0))));
}

#[test]
fn default_keys() {
    assert_eq!(default_idempotency_key("query-status", None), "query-status");
    assert_eq!(default_idempotency_key("eject", Some(r#"{"device":"cd0"}"#)), r#"eject:{"device":"cd0"}"#);
}
