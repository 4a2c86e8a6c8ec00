use svg_element::cache::{AssetCache, FetchDirective, LoadError};

#[test]
fn concurrent_requests_for_one_key_trigger_exactly_one_read() {
    let mut cache = AssetCache::new();
    let key = String::from("icons/a.svg");
    // first requester is told to read, and the entry is now in flight
    assert!(matches!(cache.request(&key), FetchDirective::StartRead));
    // a second requester for the same key is never told to read again
    assert!(matches!(cache.request(&key), FetchDirective::Wait));
    assert!(matches!(cache.request(&key), FetchDirective::Wait));
    // the single read settles; every requester observes the identical result
    cache.complete(&key, Ok(vec![1, 2, 3]));
    for _ in 0..2 {
        match cache.request(&key) {
            FetchDirective::Ready(Ok(bytes)) => assert_eq!(bytes, vec![1, 2, 3]),
            other => panic!("expected the settled bytes, got {:?}", other),
        }
    }
}

#[test]
fn a_settled_failure_is_observed_without_a_new_read() {
    let mut cache = AssetCache::new();
    let key = String::from("missing.svg");
    assert!(matches!(cache.request(&key), FetchDirective::StartRead));
    cache.complete(&key, Err(LoadError { message: String::from("no such file") }));
    // later requests observe the recorded failure and never read again
    assert!(matches!(cache.request(&key), FetchDirective::Ready(Err(_))));
    assert!(matches!(cache.request(&key), FetchDirective::Ready(Err(_))));
}

#[test]
fn distinct_keys_have_independent_entries() {
    let mut cache = AssetCache::new();
    let a = String::from("a");
    let b = String::from("b");
    assert!(matches!(cache.request(&a), FetchDirective::StartRead));
    assert!(matches!(cache.request(&b), FetchDirective::StartRead));
    cache.complete(&a, Ok(vec![7]));
    cache.complete(&b, Err(LoadError { message: String::from("boom") }));
    assert!(matches!(cache.request(&a), FetchDirective::Ready(Ok(_))));
    assert!(matches!(cache.request(&b), FetchDirective::Ready(Err(_))));
}
