use crawler::cache::{normalize, seen_from_lookup, Cache};
use crawler::error::{Error, ErrorType};

#[test]
fn normalize_ignores_query_string() {
    assert_eq!(normalize("https://a.com/x?y=1"), normalize("https://a.com/x"));
    assert_eq!(normalize("https://a.com/x").as_deref(), Some("a.com/x"));
}

#[test]
fn normalize_ignores_fragment_and_scheme() {
    assert_eq!(normalize("https://a.com/x#top").as_deref(), Some("a.com/x"));
    assert_eq!(normalize("http://a.com/x?q=2#f").as_deref(), Some("a.com/x"));
}

#[test]
fn normalize_trims_leading_slashes_of_path() {
    assert_eq!(normalize("https://a.com//x/y").as_deref(), Some("a.com/x/y"));
    assert_eq!(normalize("https://a.com").as_deref(), Some("a.com/"));
}

#[test]
fn normalize_refuses_non_url() {
    assert_eq!(normalize("not a url"), None);
    assert_eq!(normalize(""), None);
}

#[test]
fn mark_then_has() {
    let mut cache = Cache::new(2);
    assert!(!cache.has("a.com/x"));
    cache.mark("a.com/x".to_string());
    assert!(cache.has("a.com/x"));
}

#[test]
fn inserting_capacity_plus_one_evicts_oldest() {
    let mut cache = Cache::new(3);
    for k in ["k1", "k2", "k3", "k4"] {
        cache.mark(k.to_string());
    }
    assert!(!cache.has("k1"));
    assert!(cache.has("k2"));
    assert!(cache.has("k3"));
    assert!(cache.has("k4"));
}

#[test]
fn access_protects_from_eviction() {
    let mut cache = Cache::new(2);
    cache.mark("a".to_string());
    cache.mark("b".to_string());
    assert!(cache.has("a"));
    cache.mark("c".to_string());
    assert!(cache.has("a"));
    assert!(!cache.has("b"));
    assert!(cache.has("c"));
}

#[test]
fn marking_twice_keeps_one_entry() {
    let mut cache = Cache::new(2);
    cache.mark("a".to_string());
    cache.mark("a".to_string());
    cache.mark("b".to_string());
    assert!(cache.has("a"));
    assert!(cache.has("b"));
    assert_eq!(cache.capacity(), 2);
}

#[test]
fn zero_capacity_holds_nothing() {
    let mut cache = Cache::new(0);
    cache.mark("a".to_string());
    assert!(!cache.has("a"));
}

#[test]
fn remote_lookup_fails_open() {
    assert!(seen_from_lookup(&Ok(Some(true))));
    assert!(!seen_from_lookup(&Ok(None)));
    let err = Error::new(ErrorType::Unspecified, None, None);
    assert!(!seen_from_lookup(&Err(err)));
}
