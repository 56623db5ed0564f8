//! Behavior of the TTL map against its own monotonic clock, with real
//! elapsed time driven by a `tokio` runtime.

use std::time::Duration;
use ttlmap::ttl_map::TDashMap;

fn sleep_ms(ms: u64) {
    let rt = tokio::runtime::Builder::new_current_thread()
        .enable_time()
        .build()
        .unwrap();
    rt.block_on(async {
        tokio::time::sleep(Duration::from_millis(ms)).await;
    });
}

#[test]
fn insert_get_remove_while_fresh() {
    let mut m = TDashMap::new(60_000);
    assert_eq!(m.len(), 0);
    assert_eq!(m.insert("k".to_string(), 7), None);
    assert_eq!(m.get(&"k".to_string()), Some(7));
    assert_eq!(m.len(), 1);
    assert_eq!(m.remove(&"k".to_string()), Some(7));
    assert_eq!(m.get(&"k".to_string()), None);
    assert_eq!(m.len(), 0);
}

#[test]
fn entry_expires_and_overwrite_revives() {
    let mut m = TDashMap::new(100);
    assert_eq!(m.insert("a".to_string(), 1), None);
    assert_eq!(m.get(&"a".to_string()), Some(1));
    sleep_ms(250);
    assert_eq!(m.get(&"a".to_string()), None);
    assert_eq!(m.insert("a".to_string(), 2), None);
    assert_eq!(m.get(&"a".to_string()), Some(2));
}

#[test]
fn zero_ttl_never_returns_a_value() {
    let mut m = TDashMap::new(0);
    assert_eq!(m.insert("x".to_string(), 5), None);
    assert_eq!(m.get(&"x".to_string()), None);
}

#[test]
fn cleanup_reclaims_expired_entries() {
    let mut m = TDashMap::new(100);
    m.insert("a".to_string(), 1);
    m.cleanup();
    assert_eq!(m.len(), 1);
    sleep_ms(250);
    m.cleanup();
    assert_eq!(m.len(), 0);
    m.cleanup();
    assert_eq!(m.len(), 0);
}

#[test]
fn stale_entry_remains_until_swept() {
    let mut m = TDashMap::new(100);
    m.insert("a".to_string(), 1);
    sleep_ms(250);
    assert_eq!(m.get(&"a".to_string()), None);
    assert_eq!(m.len(), 1);
    m.cleanup();
    assert_eq!(m.len(), 0);
}
