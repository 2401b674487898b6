use lastfm_proxy::cache::{Lookup, MemoCache, CAPACITY, TTL_SECONDS};
use lastfm_proxy::error::AggregateError;

fn key(s: &str) -> String {
    s.to_string()
}

/// Runs one request through the cache, as a route does: `compute` stands
/// for the upstream calls and counts how often it runs.
fn request(cache: &mut MemoCache<u32>, user: &str, now: u64, computed: &mut u32) -> u32 {
    match cache.lookup(&key(user), now) {
        Lookup::Hit => *cache.value(&key(user)).unwrap(),
        Lookup::Compute => {
            *computed += 1;
            let v = 100 + *computed;
            cache.complete(&key(user), v, now);
            v
        }
        Lookup::Wait => panic!("nothing else computes here"),
    }
}

#[test]
fn second_request_within_ttl_is_a_hit() {
    let mut cache: MemoCache<u32> = MemoCache::new(CAPACITY, TTL_SECONDS);
    let mut computed = 0;
    let a = request(&mut cache, "alice", 1000, &mut computed);
    let b = request(&mut cache, "alice", 1000 + TTL_SECONDS - 1, &mut computed);
    assert_eq!(computed, 1);
    assert_eq!(a, b);
}

#[test]
fn every_hit_refreshes_the_entry() {
    let mut cache: MemoCache<u32> = MemoCache::new(10, 100);
    let mut computed = 0;
    request(&mut cache, "alice", 0, &mut computed);
    request(&mut cache, "alice", 90, &mut computed);
    request(&mut cache, "alice", 180, &mut computed);
    assert_eq!(computed, 1);
    request(&mut cache, "alice", 280, &mut computed);
    assert_eq!(computed, 2);
}

#[test]
fn request_after_ttl_recomputes_once() {
    let mut cache: MemoCache<u32> = MemoCache::new(10, 100);
    assert_eq!(cache.lookup(&key("bob"), 0), Lookup::Compute);
    cache.complete(&key("bob"), 7, 0);
    assert_eq!(cache.lookup(&key("bob"), 100), Lookup::Compute);
    // The stale value stays visible while the new one is computed.
    assert_eq!(cache.value(&key("bob")), Some(&7));
    for t in 100..150 {
        assert_eq!(cache.lookup(&key("bob"), t), Lookup::Wait);
    }
    cache.complete(&key("bob"), 8, 150);
    assert_eq!(cache.lookup(&key("bob"), 151), Lookup::Hit);
    assert_eq!(cache.value(&key("bob")), Some(&8));
}

#[test]
fn concurrent_misses_compute_once() {
    let mut cache: MemoCache<u32> = MemoCache::new(10, 100);
    assert_eq!(cache.lookup(&key("carol"), 5), Lookup::Compute);
    assert_eq!(cache.value(&key("carol")), None);
    for _ in 0..20 {
        assert_eq!(cache.lookup(&key("carol"), 6), Lookup::Wait);
    }
    cache.complete(&key("carol"), 3, 9);
    assert_eq!(cache.lookup(&key("carol"), 10), Lookup::Hit);
    assert_eq!(cache.value(&key("carol")), Some(&3));
}

#[test]
fn keys_are_cached_apart() {
    let mut cache: MemoCache<u32> = MemoCache::new(10, 100);
    let mut computed = 0;
    let a = request(&mut cache, "a", 0, &mut computed);
    let b = request(&mut cache, "b", 0, &mut computed);
    assert_ne!(a, b);
    assert_eq!(request(&mut cache, "a", 1, &mut computed), a);
    assert_eq!(request(&mut cache, "b", 1, &mut computed), b);
    assert_eq!(computed, 2);
    assert_eq!(cache.len(), 2);
}

#[test]
fn least_recently_used_leaves_a_full_cache() {
    let mut cache: MemoCache<u32> = MemoCache::new(2, 1000);
    let mut computed = 0;
    request(&mut cache, "a", 0, &mut computed);
    request(&mut cache, "b", 1, &mut computed);
    request(&mut cache, "a", 2, &mut computed);
    request(&mut cache, "c", 3, &mut computed);
    assert_eq!(cache.len(), 2);
    assert_eq!(computed, 3);
    assert_eq!(cache.value(&key("b")), None);
    assert_eq!(cache.value(&key("a")), Some(&101));
    request(&mut cache, "b", 4, &mut computed);
    assert_eq!(computed, 4);
    assert_eq!(cache.value(&key("a")), None);
    assert_eq!(cache.value(&key("c")), Some(&103));
}

#[test]
fn failures_are_cached_too() {
    let mut cache: MemoCache<Result<u32, AggregateError>> = MemoCache::new(10, 100);
    let user = key("ghost");
    assert_eq!(cache.lookup(&user, 0), Lookup::Compute);
    cache.complete(&user, Err(AggregateError::UserNotFound(user.clone())), 0);
    assert_eq!(cache.lookup(&user, 50), Lookup::Hit);
    match cache.value(&user) {
        Some(Err(e)) => assert_eq!(e.message(), "user ghost not found"),
        _ => panic!("the failure must be cached"),
    }
}

#[test]
fn clock_going_back_counts_as_fresh() {
    let mut cache: MemoCache<u32> = MemoCache::new(10, 100);
    cache.lookup(&key("d"), 500);
    cache.complete(&key("d"), 1, 500);
    assert_eq!(cache.lookup(&key("d"), 400), Lookup::Hit);
}

#[test]
fn abandoned_computation_releases_the_key() {
    let mut cache: MemoCache<u32> = MemoCache::new(10, 100);
    assert_eq!(cache.lookup(&key("e"), 0), Lookup::Compute);
    assert_eq!(cache.lookup(&key("e"), 1), Lookup::Wait);
    cache.abandon(&key("e"));
    assert_eq!(cache.lookup(&key("e"), 2), Lookup::Compute);
    cache.complete(&key("e"), 9, 3);
    cache.abandon(&key("e"));
    assert_eq!(cache.lookup(&key("e"), 4), Lookup::Hit);
    cache.abandon(&key("nobody"));
    assert_eq!(cache.len(), 1);
}
