//! Behavior of the TTL map at explicit observation times.

use ttlmap::ttl_map::TDashMap;

#[test]
fn fresh_within_window() {
    let mut m = TDashMap::new(50);
    assert_eq!(m.insert_at("a".to_string(), 1, 0), None);
    assert_eq!(m.get_at(&"a".to_string(), 0), Some(1));
    assert_eq!(m.get_at(&"a".to_string(), 49), Some(1));
    assert_eq!(m.get_at(&"a".to_string(), 50), None);
    assert_eq!(m.get_at(&"a".to_string(), 100), None);
}

#[test]
fn overwrite_resets_clock() {
    let mut m = TDashMap::new(50);
    m.insert_at("a".to_string(), 1, 0);
    assert_eq!(m.insert_at("a".to_string(), 2, 60), None);
    assert_eq!(m.get_at(&"a".to_string(), 61), Some(2));
    assert_eq!(m.get_at(&"a".to_string(), 109), Some(2));
    assert_eq!(m.get_at(&"a".to_string(), 110), None);
}

#[test]
fn insert_returns_previous_only_if_fresh() {
    let mut m = TDashMap::new(50);
    assert_eq!(m.insert_at("a".to_string(), 1, 0), None);
    assert_eq!(m.insert_at("a".to_string(), 2, 10), Some(1));
    assert_eq!(m.insert_at("a".to_string(), 3, 70), None);
    assert_eq!(m.insert_at("b".to_string(), 4, 70), None);
}

#[test]
fn remove_deletes_physically_returns_logically() {
    let mut m = TDashMap::new(50);
    m.insert_at("a".to_string(), 1, 0);
    assert_eq!(m.remove_at(&"a".to_string(), 10), Some(1));
    assert_eq!(m.get_at(&"a".to_string(), 10), None);
    assert_eq!(m.len(), 0);
    m.insert_at("a".to_string(), 2, 20);
    assert_eq!(m.remove_at(&"a".to_string(), 90), None);
    assert_eq!(m.len(), 0);
    assert_eq!(m.get_at(&"a".to_string(), 95), None);
    assert_eq!(m.remove_at(&"missing".to_string(), 90), None);
}

#[test]
fn cleanup_evicts_stale_keeps_fresh_and_is_idempotent() {
    let mut m = TDashMap::new(50);
    m.insert_at("a".to_string(), 1, 0);
    m.insert_at("b".to_string(), 2, 40);
    assert_eq!(m.len(), 2);
    m.cleanup_at(60);
    assert_eq!(m.len(), 1);
    assert_eq!(m.get_at(&"a".to_string(), 60), None);
    assert_eq!(m.get_at(&"b".to_string(), 60), Some(2));
    m.cleanup_at(60);
    assert_eq!(m.len(), 1);
    assert_eq!(m.get_at(&"b".to_string(), 60), Some(2));
}

#[test]
fn zero_ttl_is_instantly_stale() {
    let mut m = TDashMap::new(0);
    assert_eq!(m.insert_at("x".to_string(), 5, 0), None);
    assert_eq!(m.get_at(&"x".to_string(), 0), None);
    assert_eq!(m.len(), 1);
    m.cleanup_at(0);
    assert_eq!(m.len(), 0);
}

#[test]
fn scenario_fifty_millisecond_window() {
    let mut m = TDashMap::new(50);
    m.insert_at("a".to_string(), 1, 0);
    assert_eq!(m.get_at(&"a".to_string(), 10), Some(1));
    assert_eq!(m.get_at(&"a".to_string(), 60), None);
    assert_eq!(m.insert_at("a".to_string(), 2, 61), None);
    assert_eq!(m.get_at(&"a".to_string(), 70), Some(2));
}

#[test]
fn sweep_reclaims_abandoned_key() {
    let mut m = TDashMap::new(10);
    m.insert_at("a".to_string(), 1, 0);
    assert_eq!(m.len(), 1);
    m.cleanup_at(30);
    assert_eq!(m.len(), 0);
}

#[test]
fn distinct_keys_do_not_interfere() {
    let mut m = TDashMap::new(50);
    m.insert_at("a".to_string(), 1, 0);
    m.insert_at("b".to_string(), 2, 0);
    assert_eq!(m.remove_at(&"a".to_string(), 10), Some(1));
    assert_eq!(m.get_at(&"b".to_string(), 10), Some(2));
    m.insert_at("c".to_string(), 3, 10);
    assert_eq!(m.get_at(&"b".to_string(), 10), Some(2));
    assert_eq!(m.get_at(&"c".to_string(), 10), Some(3));
}
