use kaspa_ng::cache::AsyncResultCache;

#[test]
fn begin_twice_spawns_once() {
    let mut cache: AsyncResultCache<u32> = AsyncResultCache::new();
    assert!(cache.begin(7));
    // The first task is still outstanding: the second submission coalesces.
    assert!(!cache.begin(7));
    assert!(cache.is_pending(7));
}

#[test]
fn begin_blocked_until_result_consumed() {
    let mut cache: AsyncResultCache<u32> = AsyncResultCache::new();
    assert!(cache.begin(3));
    cache.complete(3, Ok(11));
    // A delivered but unconsumed result still blocks a new submission.
    assert!(!cache.begin(3));
    assert_eq!(cache.take(3), Some(Ok(11)));
    // Consumption clears the slot: a new request under the same key may start.
    assert!(cache.begin(3));
}

#[test]
fn take_returns_value_at_most_once() {
    let mut cache: AsyncResultCache<u32> = AsyncResultCache::new();
    assert!(cache.begin(1));
    cache.complete(1, Ok(5));
    assert_eq!(cache.take(1), Some(Ok(5)));
    assert_eq!(cache.take(1), None);
    assert_eq!(cache.take(1), None);
}

#[test]
fn take_on_empty_or_pending_slot_is_nothing() {
    let mut cache: AsyncResultCache<u32> = AsyncResultCache::new();
    assert_eq!(cache.take(9), None);
    assert!(cache.begin(9));
    assert_eq!(cache.take(9), None);
}

#[test]
fn is_pending_never_consumes() {
    let mut cache: AsyncResultCache<u32> = AsyncResultCache::new();
    assert!(cache.begin(2));
    assert!(cache.is_pending(2));
    assert!(cache.is_pending(2));
    cache.complete(2, Err(String::from("boom")));
    assert!(!cache.is_pending(2));
    assert!(!cache.is_pending(2));
    assert_eq!(cache.take(2), Some(Err(String::from("boom"))));
}

#[test]
fn error_flows_through_same_slot() {
    let mut cache: AsyncResultCache<u32> = AsyncResultCache::new();
    assert!(cache.begin(4));
    cache.complete(4, Err(String::from("network unreachable")));
    assert_eq!(cache.take(4), Some(Err(String::from("network unreachable"))));
    // The error was not retried by the cache: the slot is simply empty again.
    assert_eq!(cache.take(4), None);
}

#[test]
fn keys_are_independent() {
    let mut cache: AsyncResultCache<u32> = AsyncResultCache::new();
    assert!(cache.begin(1));
    assert!(cache.begin(2));
    cache.complete(1, Ok(10));
    assert!(cache.is_pending(2));
    assert_eq!(cache.take(2), None);
    assert_eq!(cache.take(1), Some(Ok(10)));
}

#[test]
fn get_or_create_leaves_existing_slot_alone() {
    let mut cache: AsyncResultCache<u32> = AsyncResultCache::new();
    cache.get_or_create(8);
    assert!(!cache.is_pending(8));
    assert!(cache.begin(8));
    cache.get_or_create(8);
    assert!(cache.is_pending(8));
}
