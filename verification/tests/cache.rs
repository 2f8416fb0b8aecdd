use emoji_resizer::cache::{ResultCache, CACHE_CAPACITY, CACHE_TTL_SECS, MAX_TTL_SECS};

#[test]
fn service_bounds() {
    assert_eq!(CACHE_CAPACITY, 50_000);
    assert_eq!(CACHE_TTL_SECS, 24 * 3600);
    assert_eq!(MAX_TTL_SECS, 1000 * 365 * 24 * 3600);
}

#[test]
fn new_cache_is_empty() {
    let cache = ResultCache::new();
    assert_eq!(cache.get("123"), None);
    assert_eq!(cache.get(""), None);
}

#[test]
fn get_after_put_returns_the_asset() {
    let mut cache = ResultCache::new();
    cache.put("123".to_string(), vec![1u8, 2, 3]);
    assert_eq!(cache.get("123"), Some(vec![1u8, 2, 3]));
    assert_eq!(cache.get("123"), Some(vec![1u8, 2, 3]));
}

#[test]
fn put_replaces_the_earlier_asset() {
    let mut cache = ResultCache::new();
    cache.put("123".to_string(), vec![1u8]);
    cache.put("123".to_string(), vec![2u8, 2]);
    assert_eq!(cache.get("123"), Some(vec![2u8, 2]));
}

#[test]
fn entries_are_kept_apart() {
    let mut cache = ResultCache::new();
    cache.put("1".to_string(), vec![1u8]);
    cache.put("2".to_string(), vec![2u8]);
    assert_eq!(cache.get("1"), Some(vec![1u8]));
    assert_eq!(cache.get("2"), Some(vec![2u8]));
    assert_eq!(cache.get("3"), None);
}

#[test]
fn limits_within_a_thousand_years_are_accepted() {
    assert!(ResultCache::with_limits(10, 0).is_some());
    assert!(ResultCache::with_limits(0, 60).is_some());
    assert!(ResultCache::with_limits(u64::MAX, MAX_TTL_SECS).is_some());
}

#[test]
fn longer_time_to_live_is_refused() {
    assert!(ResultCache::with_limits(10, MAX_TTL_SECS + 1).is_none());
    assert!(ResultCache::with_limits(10, u64::MAX).is_none());
}

#[test]
fn cache_without_room_answers_nothing() {
    let mut cache = ResultCache::with_limits(0, 60).unwrap();
    cache.put("123".to_string(), vec![1u8, 2, 3]);
    assert_eq!(cache.get("123"), None);
}

#[test]
fn custom_limits_cache_round_trip() {
    let mut cache = ResultCache::with_limits(100, 3600).unwrap();
    cache.put("abc".to_string(), vec![9u8; 4096]);
    assert_eq!(cache.get("abc"), Some(vec![9u8; 4096]));
}

#[test]
fn expired_entry_is_absent() {
    let mut cache = ResultCache::with_limits(10, 0).unwrap();
    cache.put("123".to_string(), vec![1u8, 2, 3]);
    assert_eq!(cache.get("123"), None);
}
