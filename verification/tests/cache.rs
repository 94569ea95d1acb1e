//! Tests for the key cache lifecycle.

use esc_api::auth::Key;
use esc_api::cache::KeyCache;

fn key(n: &str) -> Key {
    Key::new(n.to_string(), "AQAB".to_string())
}

#[test]
fn starts_without_keys() {
    let cache = KeyCache::new();
    assert!(!cache.has_keys());
    assert!(cache.keys().is_empty());
}

#[test]
fn successful_fetch_replaces_the_whole_set() {
    let mut cache = KeyCache::new();
    cache.apply_fetch(Some(vec![key("n1"), key("n2")]));
    assert!(cache.has_keys());
    assert_eq!(cache.keys().len(), 2);

    cache.apply_fetch(Some(vec![key("n3")]));
    assert_eq!(cache.keys().len(), 1);
}

#[test]
fn failed_fetch_keeps_the_last_good_set() {
    let mut cache = KeyCache::new();
    cache.apply_fetch(Some(vec![key("n1")]));
    cache.apply_fetch(None);
    assert!(cache.has_keys());
    assert_eq!(cache.keys().len(), 1);
}

#[test]
fn failed_first_fetch_leaves_the_cache_empty() {
    let mut cache = KeyCache::new();
    cache.apply_fetch(None);
    assert!(!cache.has_keys());
}
