use creation_time::store::{CacheRecord, CacheStore, StoreError};

#[test]
fn lookup_misses_on_empty_store() {
    let store = CacheStore::new();
    assert_eq!(store.lookup_exact(1), None);
    assert_eq!(store.len(), 0);
}

#[test]
fn insert_then_lookup_round_trips() {
    let mut store = CacheStore::new();
    assert_eq!(store.insert(10, 111), Ok(()));
    assert_eq!(store.insert(20, 222), Ok(()));
    assert_eq!(store.lookup_exact(10), Some(111));
    assert_eq!(store.lookup_exact(20), Some(222));
    assert_eq!(store.lookup_exact(30), None);
}

#[test]
fn duplicate_insert_conflicts_and_keeps_first_fact() {
    let mut store = CacheStore::new();
    store.insert(10, 111).unwrap();
    assert_eq!(store.insert(10, 999), Err(StoreError::Conflict));
    assert_eq!(store.lookup_exact(10), Some(111));
    assert_eq!(store.len(), 1);
}

#[test]
fn nearest_two_on_empty_store_is_empty() {
    let store = CacheStore::new();
    assert_eq!(store.nearest_two(50), Vec::new());
}

#[test]
fn nearest_two_on_single_record_returns_it() {
    let mut store = CacheStore::new();
    store.insert(10, 111).unwrap();
    assert_eq!(
        store.nearest_two(50),
        vec![CacheRecord { identifier: 10, created_at: 111 }]
    );
}

#[test]
fn nearest_two_picks_the_two_closest_by_distance() {
    let mut store = CacheStore::new();
    store.insert(10, 111).unwrap();
    store.insert(95, 222).unwrap();
    store.insert(120, 333).unwrap();
    store.insert(400, 444).unwrap();
    // Distances from 100: 90, 5, 20, 300.
    assert_eq!(
        store.nearest_two(100),
        vec![
            CacheRecord { identifier: 95, created_at: 222 },
            CacheRecord { identifier: 120, created_at: 333 },
        ]
    );
}

#[test]
fn nearest_two_orders_by_distance_not_by_identifier() {
    let mut store = CacheStore::new();
    store.insert(80, 111).unwrap();
    store.insert(101, 222).unwrap();
    // Distances from 100: 20 and 1; the higher identifier is nearer.
    assert_eq!(
        store.nearest_two(100),
        vec![
            CacheRecord { identifier: 101, created_at: 222 },
            CacheRecord { identifier: 80, created_at: 111 },
        ]
    );
}

#[test]
fn nearest_two_breaks_distance_ties_toward_lower_identifier() {
    let mut store = CacheStore::new();
    store.insert(110, 222).unwrap();
    store.insert(90, 111).unwrap();
    // Both are at distance 10 from 100.
    assert_eq!(
        store.nearest_two(100),
        vec![
            CacheRecord { identifier: 90, created_at: 111 },
            CacheRecord { identifier: 110, created_at: 222 },
        ]
    );
}

#[test]
fn nearest_two_may_sit_on_one_side_of_the_target() {
    let mut store = CacheStore::new();
    store.insert(1000, 111).unwrap();
    store.insert(2000, 222).unwrap();
    store.insert(3000, 333).unwrap();
    // The target lies below every record: no bracketing required.
    assert_eq!(
        store.nearest_two(5),
        vec![
            CacheRecord { identifier: 1000, created_at: 111 },
            CacheRecord { identifier: 2000, created_at: 222 },
        ]
    );
}
