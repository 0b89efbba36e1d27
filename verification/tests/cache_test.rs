use spotifier_core::cache::CacheBackend;
use spotifier_core::{FileCache, MemoryCache};

#[test]
fn memory_cache_set_then_get_returns_value() {
    let mut c = MemoryCache::new();
    c.set("courses", "payload", 60, 1000).unwrap();
    assert_eq!(c.get("courses", 1000), Some("payload".to_string()));
    assert_eq!(c.get("courses", 1060), Some("payload".to_string()));
}

#[test]
fn memory_cache_expired_entry_is_a_miss() {
    let mut c = MemoryCache::new();
    c.set("courses", "payload", 60, 1000).unwrap();
    assert_eq!(c.get("courses", 1061), None);
}

#[test]
fn memory_cache_set_overwrites_and_keeps_other_keys() {
    let mut c = MemoryCache::new();
    c.set("a", "one", 60, 0).unwrap();
    c.set("b", "two", 60, 0).unwrap();
    c.set("a", "three", 60, 0).unwrap();
    assert_eq!(c.get("a", 1), Some("three".to_string()));
    assert_eq!(c.get("b", 1), Some("two".to_string()));
}

#[test]
fn memory_cache_delete_removes_only_its_key() {
    let mut c = MemoryCache::new();
    c.set("a", "one", 60, 0).unwrap();
    c.set("b", "two", 60, 0).unwrap();
    c.delete("a").unwrap();
    assert_eq!(c.get("a", 1), None);
    assert_eq!(c.get("b", 1), Some("two".to_string()));
}

#[test]
fn memory_cache_delete_is_idempotent() {
    let mut c = MemoryCache::new();
    // deleting a key that holds nothing still succeeds
    assert!(c.delete("nothing").is_ok());
    c.set("a", "one", 60, 0).unwrap();
    assert!(c.delete("a").is_ok());
    assert!(c.delete("a").is_ok());
    assert_eq!(c.get("a", 1), None);
}

#[test]
fn memory_cache_get_on_missing_key_is_a_miss() {
    let c = MemoryCache::new();
    assert_eq!(c.get("nothing", 5), None);
}

#[test]
fn file_cache_paths_are_key_derived() {
    let fc = FileCache::new("cache_dir");
    assert_eq!(fc.get_path("courses"), "cache_dir/courses.json");
    assert_eq!(fc.full_key("courses"), "courses");
}

#[test]
fn file_cache_prefix_namespaces_keys() {
    let fc = FileCache::with_prefix("cache_dir", "user1");
    assert_eq!(fc.full_key("courses"), "user1:courses");
    assert_eq!(fc.get_path("courses"), "cache_dir/user1:courses.json");
}

#[test]
fn file_cache_entry_round_trip() {
    let enc = FileCache::encode_entry("hello world", 1234);
    assert_eq!(enc, "1234\nhello world");
    assert_eq!(FileCache::decode_entry(&enc), Some(("hello world".to_string(), 1234)));

    // Data may itself contain newlines
    let enc2 = FileCache::encode_entry("line1\nline2", 7);
    assert_eq!(FileCache::decode_entry(&enc2), Some(("line1\nline2".to_string(), 7)));
}

#[test]
fn file_cache_decode_fails_closed_on_partial_records() {
    // A record interrupted before its body was written
    assert_eq!(FileCache::decode_entry("1234"), None);
    // No expiry header at all
    assert_eq!(FileCache::decode_entry("hello world"), None);
    // Corrupt expiry digits
    assert_eq!(FileCache::decode_entry("12x4\nhello"), None);
    // Empty file
    assert_eq!(FileCache::decode_entry(""), None);
}

#[test]
fn file_cache_freshness_follows_the_expiry() {
    let content = FileCache::encode_entry("v", 100);
    assert_eq!(FileCache::entry_fresh_value(&content, 99), Some("v".to_string()));
    assert_eq!(FileCache::entry_fresh_value(&content, 100), Some("v".to_string()));
    assert_eq!(FileCache::entry_fresh_value(&content, 101), None);
    assert_eq!(FileCache::entry_fresh_value("corrupt", 0), None);
}

#[test]
fn file_cache_expiry_saturates() {
    assert_eq!(FileCache::expiry_at(10, 60), 70);
    assert_eq!(FileCache::expiry_at(u64::MAX, 60), u64::MAX);
    assert_eq!(FileCache::expiry_at(60, u64::MAX), u64::MAX);
}
