use zest::cache::{init_cache, resize_cache, ContentCache, Kind, Store};
use zest::config::{CacheConfig, Config};

fn bytes(s: &str) -> Vec<u8> {
    s.as_bytes().to_vec()
}

#[test]
fn new_store_is_empty() {
    let mut store = Store::new(2);
    assert_eq!(store.len(), 0);
    assert_eq!(store.lookup("a"), None);
    assert_eq!(store.len(), 0);
}

#[test]
fn inserted_value_is_found() {
    let mut store = Store::new(2);
    store.insert("a".to_string(), bytes("alpha"));
    assert_eq!(store.len(), 1);
    assert_eq!(store.lookup("a"), Some(bytes("alpha")));
    assert_eq!(store.lookup("b"), None);
}

#[test]
fn insertion_under_a_held_key_replaces_the_value() {
    let mut store = Store::new(2);
    store.insert("a".to_string(), bytes("one"));
    store.insert("b".to_string(), bytes("two"));
    store.insert("a".to_string(), bytes("three"));
    assert_eq!(store.len(), 2);
    assert_eq!(store.lookup("a"), Some(bytes("three")));
    assert_eq!(store.lookup("b"), Some(bytes("two")));
}

#[test]
fn full_store_evicts_the_least_recently_used() {
    let mut store = Store::new(2);
    store.insert("a".to_string(), bytes("1"));
    store.insert("b".to_string(), bytes("2"));
    store.insert("c".to_string(), bytes("3"));
    assert_eq!(store.len(), 2);
    assert_eq!(store.lookup("a"), None);
    assert_eq!(store.lookup("b"), Some(bytes("2")));
    assert_eq!(store.lookup("c"), Some(bytes("3")));
}

#[test]
fn lookup_counts_as_a_use() {
    let mut store = Store::new(2);
    store.insert("a".to_string(), bytes("1"));
    store.insert("b".to_string(), bytes("2"));
    assert_eq!(store.lookup("a"), Some(bytes("1")));
    store.insert("c".to_string(), bytes("3"));
    assert_eq!(store.lookup("b"), None);
    assert_eq!(store.lookup("a"), Some(bytes("1")));
    assert_eq!(store.lookup("c"), Some(bytes("3")));
}

#[test]
fn most_recently_used_survives_an_eviction() {
    let mut store = Store::new(3);
    store.insert("a".to_string(), bytes("1"));
    store.insert("b".to_string(), bytes("2"));
    store.insert("c".to_string(), bytes("3"));
    store.insert("d".to_string(), bytes("4"));
    assert_eq!(store.lookup("c"), Some(bytes("3")));
    assert_eq!(store.lookup("a"), None);
}

#[test]
fn store_of_one_slot() {
    let mut store = Store::new(1);
    store.insert("a".to_string(), bytes("1"));
    store.insert("b".to_string(), bytes("2"));
    assert_eq!(store.len(), 1);
    assert_eq!(store.lookup("a"), None);
    assert_eq!(store.lookup("b"), Some(bytes("2")));
}

#[test]
fn shrinking_evicts_the_oldest() {
    let mut store = Store::new(4);
    store.insert("a".to_string(), bytes("1"));
    store.insert("b".to_string(), bytes("2"));
    store.insert("c".to_string(), bytes("3"));
    store.insert("d".to_string(), bytes("4"));
    store.resize(2);
    assert_eq!(store.len(), 2);
    assert_eq!(store.lookup("a"), None);
    assert_eq!(store.lookup("b"), None);
    assert_eq!(store.lookup("c"), Some(bytes("3")));
    assert_eq!(store.lookup("d"), Some(bytes("4")));
}

#[test]
fn growing_keeps_everything_and_makes_room() {
    let mut store = Store::new(2);
    store.insert("a".to_string(), bytes("1"));
    store.insert("b".to_string(), bytes("2"));
    store.resize(4);
    store.insert("c".to_string(), bytes("3"));
    store.insert("d".to_string(), bytes("4"));
    assert_eq!(store.len(), 4);
    assert_eq!(store.lookup("a"), Some(bytes("1")));
    assert_eq!(store.lookup("b"), Some(bytes("2")));
    assert_eq!(store.lookup("c"), Some(bytes("3")));
    assert_eq!(store.lookup("d"), Some(bytes("4")));
}

#[test]
fn resizing_to_the_same_capacity_changes_nothing() {
    let mut store = Store::new(2);
    store.insert("a".to_string(), bytes("1"));
    store.insert("b".to_string(), bytes("2"));
    store.resize(2);
    assert_eq!(store.len(), 2);
    store.insert("c".to_string(), bytes("3"));
    assert_eq!(store.lookup("a"), None);
    assert_eq!(store.lookup("b"), Some(bytes("2")));
}

#[test]
fn cache_insert_then_lookup() {
    let mut cache = ContentCache::new(2, 2, 10);
    assert!(cache.insert(Kind::Listing, "docs".to_string(), bytes("<html>")));
    assert!(cache.insert(Kind::File, "a.txt".to_string(), bytes("hello")));
    assert_eq!(cache.lookup(Kind::Listing, "docs"), Some(bytes("<html>")));
    assert_eq!(cache.lookup(Kind::File, "a.txt"), Some(bytes("hello")));
}

#[test]
fn the_two_stores_do_not_share_keys() {
    let mut cache = ContentCache::new(2, 2, 10);
    cache.insert(Kind::Listing, "x".to_string(), bytes("listing"));
    assert_eq!(cache.lookup(Kind::File, "x"), None);
    cache.insert(Kind::File, "x".to_string(), bytes("file"));
    assert_eq!(cache.lookup(Kind::Listing, "x"), Some(bytes("listing")));
    assert_eq!(cache.lookup(Kind::File, "x"), Some(bytes("file")));
    assert_eq!(cache.len(Kind::Listing), 1);
    assert_eq!(cache.len(Kind::File), 1);
}

#[test]
fn the_two_stores_do_not_share_room() {
    let mut cache = ContentCache::new(1, 1, 10);
    cache.insert(Kind::Listing, "a".to_string(), bytes("1"));
    cache.insert(Kind::File, "b".to_string(), bytes("2"));
    assert_eq!(cache.lookup(Kind::Listing, "a"), Some(bytes("1")));
    assert_eq!(cache.lookup(Kind::File, "b"), Some(bytes("2")));
}

#[test]
fn file_longer_than_the_limit_bypasses_the_cache() {
    let mut cache = ContentCache::new(2, 2, 4);
    assert!(cache.insert(Kind::File, "small".to_string(), bytes("1234")));
    assert!(!cache.insert(Kind::File, "large".to_string(), bytes("12345")));
    assert_eq!(cache.len(Kind::File), 1);
    assert_eq!(cache.lookup(Kind::File, "large"), None);
    assert_eq!(cache.lookup(Kind::File, "small"), Some(bytes("1234")));
}

#[test]
fn bypass_evicts_nothing() {
    let mut cache = ContentCache::new(2, 2, 2);
    cache.insert(Kind::File, "a".to_string(), bytes("1"));
    cache.insert(Kind::File, "b".to_string(), bytes("2"));
    assert!(!cache.insert(Kind::File, "c".to_string(), bytes("333")));
    assert_eq!(cache.lookup(Kind::File, "a"), Some(bytes("1")));
    assert_eq!(cache.lookup(Kind::File, "b"), Some(bytes("2")));
}

#[test]
fn bypass_leaves_an_older_value_in_place() {
    let mut cache = ContentCache::new(2, 2, 2);
    cache.insert(Kind::File, "a".to_string(), bytes("1"));
    assert!(!cache.insert(Kind::File, "a".to_string(), bytes("333")));
    assert_eq!(cache.lookup(Kind::File, "a"), Some(bytes("1")));
}

#[test]
fn listings_have_no_size_limit() {
    let mut cache = ContentCache::new(2, 2, 0);
    assert!(cache.insert(Kind::Listing, "a".to_string(), bytes("a long listing")));
    assert!(cache.insert(Kind::File, "empty".to_string(), Vec::new()));
    assert!(!cache.insert(Kind::File, "b".to_string(), bytes("b")));
    assert_eq!(cache.file_maxsize(), 0);
}

#[test]
fn reconfiguring_resizes_both_stores() {
    let mut cache = ContentCache::new(3, 3, 10);
    for key in ["a", "b", "c"] {
        cache.insert(Kind::Listing, key.to_string(), bytes(key));
        cache.insert(Kind::File, key.to_string(), bytes(key));
    }
    cache.reconfigure(1, 2, 1);
    assert_eq!(cache.len(Kind::Listing), 1);
    assert_eq!(cache.len(Kind::File), 2);
    assert_eq!(cache.file_maxsize(), 1);
    assert_eq!(cache.lookup(Kind::Listing, "c"), Some(bytes("c")));
    assert_eq!(cache.lookup(Kind::Listing, "b"), None);
    assert_eq!(cache.lookup(Kind::File, "a"), None);
    assert_eq!(cache.lookup(Kind::File, "b"), Some(bytes("b")));
    assert_eq!(cache.lookup(Kind::File, "c"), Some(bytes("c")));
    assert!(!cache.insert(Kind::File, "d".to_string(), bytes("dd")));
}

#[test]
fn cache_of_a_snapshot() {
    let mut config = Config::default();
    config.server.cache =
        Some(CacheConfig { index_capacity: Some(1), file_capacity: Some(2), file_maxsize: Some(3) });
    let mut cache = init_cache(&config);
    assert_eq!(cache.file_maxsize(), 3);
    for key in ["a", "b", "c"] {
        cache.insert(Kind::Listing, key.to_string(), bytes(key));
        cache.insert(Kind::File, key.to_string(), bytes(key));
    }
    assert_eq!(cache.len(Kind::Listing), 1);
    assert_eq!(cache.len(Kind::File), 2);
    assert!(!cache.insert(Kind::File, "d".to_string(), bytes("dddd")));
}

#[test]
fn reload_resizes_and_keeps_the_most_recent() {
    let mut cache = init_cache(&Config::default());
    for key in ["a", "b", "c"] {
        cache.insert(Kind::File, key.to_string(), bytes(key));
        cache.insert(Kind::Listing, key.to_string(), bytes(key));
    }
    let mut config = Config::default();
    config.server.cache =
        Some(CacheConfig { index_capacity: Some(2), file_capacity: Some(1), file_maxsize: None });
    resize_cache(&mut cache, &config);
    assert_eq!(cache.len(Kind::Listing), 2);
    assert_eq!(cache.len(Kind::File), 1);
    assert_eq!(cache.lookup(Kind::File, "c"), Some(bytes("c")));
    assert_eq!(cache.lookup(Kind::Listing, "a"), None);
    assert_eq!(cache.lookup(Kind::Listing, "b"), Some(bytes("b")));
    assert_eq!(cache.file_maxsize(), 32768 * 1024);
}

#[test]
fn a_very_large_capacity_can_be_asked_for() {
    let mut store = Store::new(usize::MAX);
    store.insert("a".to_string(), bytes("1"));
    assert_eq!(store.lookup("a"), Some(bytes("1")));
    store.resize(1);
    assert_eq!(store.len(), 1);
}
