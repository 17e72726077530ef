use rustplus::proxy::{version_from_body, version_from_published_time, VersionCache, FALLBACK_VERSION, VERSION_TTL_NS};

#[test]
fn version_is_one_past_published_time() {
    assert_eq!(version_from_body(br#"{"minPublishedTime": 1700000000000}"#), Some(1_700_000_000_001));
    assert_eq!(version_from_published_time(Some(41)), 42);
    assert_eq!(version_from_published_time(Some(-1)), 0);
}

#[test]
fn missing_published_time_gives_fallback() {
    assert_eq!(version_from_body(br#"{"other": 3}"#), Some(FALLBACK_VERSION));
    assert_eq!(version_from_body(br#"{"minPublishedTime": "soon"}"#), Some(FALLBACK_VERSION));
    assert_eq!(version_from_body(b"[1, 2]"), Some(FALLBACK_VERSION));
    assert_eq!(version_from_published_time(None), 9_999_999_999_999);
}

#[test]
fn body_that_is_not_json_gives_nothing() {
    assert_eq!(version_from_body(b"<html>"), None);
    assert_eq!(version_from_body(b""), None);
}

#[test]
fn published_time_without_successor_gives_nothing() {
    let body = format!("{{\"minPublishedTime\": {}}}", i64::MAX);
    assert_eq!(version_from_body(body.as_bytes()), None);
}

#[test]
fn cache_reuses_value_for_ten_minutes() {
    let mut cache = VersionCache::new();
    assert_eq!(cache.cached_at(0), None);
    assert_eq!(cache.record_at(1_000, Some(77)), Some(77));
    assert_eq!(cache.cached_at(1_000), Some(77));
    assert_eq!(cache.cached_at(1_000 + VERSION_TTL_NS - 1), Some(77));
    assert_eq!(cache.cached_at(1_000 + VERSION_TTL_NS), None);
}

#[test]
fn failed_refresh_keeps_last_value_and_fails_without_one() {
    let mut cache = VersionCache::new();
    assert_eq!(cache.record_at(5, None), None);
    assert_eq!(cache.cached_at(5), None);
    cache.record_at(10, Some(123));
    let later = 10 + 2 * VERSION_TTL_NS;
    assert_eq!(cache.cached_at(later), None);
    assert_eq!(cache.record_at(later, None), Some(123));
}

#[test]
fn zero_version_is_not_cached() {
    let mut cache = VersionCache::default();
    assert_eq!(cache.record_at(1, Some(0)), Some(0));
    assert_eq!(cache.record_at(2, None), None);
    assert_eq!(cache.cached_at(1), None);
}

#[test]
fn cache_with_clock() {
    let mut cache = VersionCache::new();
    assert_eq!(cache.cached(), None);
    assert_eq!(cache.record(Some(5)), Some(5));
    assert_eq!(cache.cached(), Some(5));
}
