use creation_time::engine::{
    resolve_cached, resolve_uncached, ResolutionError, ResolutionResult, UpstreamOutcome,
};
use creation_time::store::CacheStore;

#[test]
fn upstream_found_is_returned_exactly_and_cached() {
    // Empty cache; the upstream service knows the profile.
    let mut store = CacheStore::new();
    let r = resolve_uncached(&mut store, 42, UpstreamOutcome::Found(555));
    assert_eq!(
        r,
        Ok(ResolutionResult { identifier: 42, created_at: 555, error_margin: 0 })
    );
    assert_eq!(store.len(), 1);
    assert_eq!(store.lookup_exact(42), Some(555));
}

#[test]
fn cache_hit_returns_stored_value_with_zero_margin() {
    let mut store = CacheStore::new();
    store.insert(42, 555).unwrap();
    let r = resolve_cached(&store, 42);
    assert_eq!(
        r,
        Some(ResolutionResult { identifier: 42, created_at: 555, error_margin: 0 })
    );
}

#[test]
fn cache_miss_yields_none_from_cache_step() {
    let store = CacheStore::new();
    assert_eq!(resolve_cached(&store, 42), None);
}

#[test]
fn second_resolution_is_idempotent_and_needs_no_upstream() {
    // First resolution goes upstream; later ones are cache hits that
    // return the identical exact result without an upstream outcome.
    let mut store = CacheStore::new();
    let first = resolve_uncached(&mut store, 42, UpstreamOutcome::Found(555)).unwrap();
    let second = resolve_cached(&store, 42).unwrap();
    let third = resolve_cached(&store, 42).unwrap();
    assert_eq!(first, second);
    assert_eq!(second, third);
}

#[test]
fn interpolates_between_the_two_nearest_records() {
    let mut store = CacheStore::new();
    store.insert(100, 1000).unwrap();
    store.insert(200, 2000).unwrap();
    let r = resolve_uncached(&mut store, 150, UpstreamOutcome::NotFound);
    assert_eq!(
        r,
        Ok(ResolutionResult { identifier: 150, created_at: 1500, error_margin: 500 })
    );
    // Estimates are never written back to the cache.
    assert_eq!(store.len(), 2);
    assert_eq!(store.lookup_exact(150), None);
}

#[test]
fn extrapolates_outside_the_span_with_larger_margin() {
    let mut store = CacheStore::new();
    store.insert(100, 1000).unwrap();
    store.insert(200, 2000).unwrap();
    let r = resolve_uncached(&mut store, 300, UpstreamOutcome::NotFound);
    assert_eq!(
        r,
        Ok(ResolutionResult { identifier: 300, created_at: 3000, error_margin: 2000 })
    );
}

#[test]
fn estimation_does_not_depend_on_insertion_order_or_outcome_kind() {
    let mut forward = CacheStore::new();
    forward.insert(100, 1000).unwrap();
    forward.insert(200, 2000).unwrap();
    let mut backward = CacheStore::new();
    backward.insert(200, 2000).unwrap();
    backward.insert(100, 1000).unwrap();
    let a = resolve_uncached(&mut forward, 150, UpstreamOutcome::NotFound);
    let b = resolve_uncached(&mut backward, 150, UpstreamOutcome::TransportError);
    assert_eq!(a, b);
    let margin = a.unwrap().error_margin;
    assert!(margin >= 0);
}

#[test]
fn empty_cache_is_unresolvable() {
    let mut store = CacheStore::new();
    let r = resolve_uncached(&mut store, 7, UpstreamOutcome::NotFound);
    assert_eq!(r, Err(ResolutionError::Unresolvable));
}

#[test]
fn single_record_is_unresolvable() {
    let mut store = CacheStore::new();
    store.insert(100, 1000).unwrap();
    let r = resolve_uncached(&mut store, 7, UpstreamOutcome::TransportError);
    assert_eq!(r, Err(ResolutionError::Unresolvable));
}

#[test]
fn found_result_is_returned_even_when_cache_write_conflicts() {
    // A concurrent resolution already cached the identifier: the write
    // conflict is benign, the authoritative value is still returned, and
    // the first recorded fact is kept.
    let mut store = CacheStore::new();
    store.insert(42, 500).unwrap();
    let r = resolve_uncached(&mut store, 42, UpstreamOutcome::Found(555));
    assert_eq!(
        r,
        Ok(ResolutionResult { identifier: 42, created_at: 555, error_margin: 0 })
    );
    assert_eq!(store.lookup_exact(42), Some(500));
    assert_eq!(store.len(), 1);
}

#[test]
fn exact_constructor_has_zero_margin() {
    let r = ResolutionResult::exact(9, 1234);
    assert_eq!(
        r,
        ResolutionResult { identifier: 9, created_at: 1234, error_margin: 0 }
    );
}

#[test]
fn estimation_uses_only_the_two_nearest_of_many_records() {
    let mut store = CacheStore::new();
    store.insert(5000, 777777).unwrap();
    store.insert(100, 1000).unwrap();
    store.insert(200, 2000).unwrap();
    let r = resolve_uncached(&mut store, 150, UpstreamOutcome::NotFound);
    assert_eq!(
        r,
        Ok(ResolutionResult { identifier: 150, created_at: 1500, error_margin: 500 })
    );
}
