use staleness_cache::Cache;
use staleness_cache::CacheInvalidError;

/// The full concrete scenario with TTL = 100.
#[test]
fn scenario_ttl_100() {
    let mut c: Cache<u64, 100> = Cache::new(5, 1000);
    assert!(c.validate_fresh(1000).is_ok());
    assert!(c.validate_fresh(1100).is_ok());
    assert!(matches!(
        c.validate_fresh(1101),
        Err(CacheInvalidError::Expired { .. })
    ));
    assert!(matches!(
        c.validate_fresh(999),
        Err(CacheInvalidError::TooNew { .. })
    ));
    c.invalidate();
    assert!(matches!(
        c.validate_fresh(1000),
        Err(CacheInvalidError::Invalidated)
    ));
    c.refresh_to(1050);
    assert!(c.validate_fresh(1050).is_ok());
    assert!(matches!(
        c.validate_fresh(1151),
        Err(CacheInvalidError::Expired { .. })
    ));
}

/// A new cache is fresh at every timestamp of its window and expired just
/// past it.
#[test]
fn new_cache_window_edges() {
    let c: Cache<u32, 7> = Cache::new(42, 50);
    for t in 50..=57u64 {
        assert!(c.validate_fresh(t).is_ok());
    }
    assert!(matches!(
        c.validate_fresh(58),
        Err(CacheInvalidError::Expired { .. })
    ));
}

/// A zero TTL means the cache is fresh only at the refresh timestamp itself.
#[test]
fn zero_ttl_window() {
    let c: Cache<u8, 0> = Cache::new(1, 5);
    assert!(c.validate_fresh(5).is_ok());
    assert!(matches!(
        c.validate_fresh(6),
        Err(CacheInvalidError::Expired { .. })
    ));
}

/// Querying before the last refresh fails with TooNew, however small the gap.
#[test]
fn query_before_refresh_is_too_new() {
    let c: Cache<u64, 100> = Cache::new(5, 1000);
    assert!(matches!(
        c.validate_fresh(999),
        Err(CacheInvalidError::TooNew { .. })
    ));
    assert!(matches!(
        c.validate_fresh(0),
        Err(CacheInvalidError::TooNew { .. })
    ));
}

/// The diagnostic message of a TooNew error names the three timing values.
#[test]
fn too_new_diagnostic_message() {
    let c: Cache<u64, 100> = Cache::new(5, 1000);
    match c.validate_fresh(999) {
        Err(CacheInvalidError::TooNew { msg }) => {
            assert_eq!(msg, "last_updated = 1000, time_to_live = 100, current_slot = 999");
        }
        _ => panic!("expected TooNew"),
    }
}

/// The diagnostic message of an Expired error names the three timing values.
#[test]
fn expired_diagnostic_message() {
    let c: Cache<u64, 100> = Cache::new(5, 1000);
    match c.validate_fresh(1101) {
        Err(CacheInvalidError::Expired { msg }) => {
            assert_eq!(msg, "last_updated = 1000, time_to_live = 100, current_slot = 1101");
        }
        _ => panic!("expected Expired"),
    }
}

/// Timestamps at the top of the u64 range render and compare correctly.
#[test]
fn largest_timestamp() {
    let c: Cache<u8, 3> = Cache::new(9, u64::MAX);
    assert!(c.validate_fresh(u64::MAX).is_ok());
    match c.validate_fresh(u64::MAX - 1) {
        Err(CacheInvalidError::TooNew { msg }) => {
            assert_eq!(
                msg,
                "last_updated = 18446744073709551615, time_to_live = 3, \
                 current_slot = 18446744073709551614"
            );
        }
        _ => panic!("expected TooNew"),
    }
}

/// Invalidation wins inside the window; outside it the age checks win.
#[test]
fn invalidation_within_window() {
    let mut c: Cache<u64, 100> = Cache::new(5, 1000);
    c.invalidate();
    assert!(matches!(
        c.validate_fresh(1000),
        Err(CacheInvalidError::Invalidated)
    ));
    assert!(matches!(
        c.validate_fresh(1100),
        Err(CacheInvalidError::Invalidated)
    ));
    assert!(matches!(
        c.validate_fresh(999),
        Err(CacheInvalidError::TooNew { .. })
    ));
    assert!(matches!(
        c.validate_fresh(1101),
        Err(CacheInvalidError::Expired { .. })
    ));
}

/// Both refresh_as and refresh_to clear a manual invalidation.
#[test]
fn refresh_clears_invalidation() {
    let mut c: Cache<u64, 100> = Cache::new(5, 1000);
    c.invalidate();
    c.refresh_as(6, 1010);
    assert!(c.validate_fresh(1010).is_ok());
    assert_eq!(*c.get_stale(), 6);

    c.invalidate();
    c.refresh_to(1020);
    assert!(c.validate_fresh(1020).is_ok());
    assert_eq!(*c.get_stale(), 6);
}

/// refresh_additional(d) leaves the same state as refresh_to(last_updated + d).
#[test]
fn refresh_additional_matches_refresh_to() {
    let mut a: Cache<u64, 100> = Cache::new(5, 1000);
    let mut b: Cache<u64, 100> = Cache::new(5, 1000);
    a.invalidate();
    b.invalidate();

    a.refresh_additional(30);
    let target: u64 = b.last_updated() + 30;
    b.refresh_to(target);

    assert_eq!(a.last_updated(), b.last_updated());
    assert_eq!(a.last_updated(), 1030);
    assert_eq!(*a.get_stale(), *b.get_stale());
    assert!(a.validate_fresh(1030).is_ok());
    assert!(b.validate_fresh(1030).is_ok());
    assert!(matches!(
        a.validate_fresh(1131),
        Err(CacheInvalidError::Expired { .. })
    ));
    assert!(matches!(
        b.validate_fresh(1131),
        Err(CacheInvalidError::Expired { .. })
    ));
}

/// Stale reads never fail and reflect the most recent stored value.
#[test]
fn stale_reads_reflect_last_stored_value() {
    let mut c: Cache<u64, 10> = Cache::new(5, 1000);
    assert_eq!(*c.get_stale(), 5);

    c.refresh_as(8, 1005);
    c.invalidate();
    assert_eq!(*c.get_stale(), 8);

    // Long past expiry the checked accessors fail, the stale ones do not.
    c.refresh_as(13, 1010);
    assert!(matches!(
        c.try_get(2000),
        Err(CacheInvalidError::Expired { .. })
    ));
    assert_eq!(*c.get_stale(), 13);
    assert_eq!(*c.get_stale_mut(), 13);
}

/// Round trip: refresh_as(v, t) followed by try_get(t) returns v.
#[test]
fn refresh_as_round_trip() {
    let mut c: Cache<u64, 100> = Cache::new(5, 1000);
    c.refresh_as(77, 1234);
    assert_eq!(c.try_get(1234).unwrap(), &77);
    assert_eq!(c.last_updated(), 1234);
}

/// Refreshing to the same timestamp twice is the same as doing it once.
#[test]
fn refresh_to_is_idempotent() {
    let mut once: Cache<u64, 100> = Cache::new(5, 1000);
    let mut twice: Cache<u64, 100> = Cache::new(5, 1000);
    once.refresh_to(1042);
    twice.refresh_to(1042);
    twice.refresh_to(1042);

    assert_eq!(once.last_updated(), twice.last_updated());
    assert_eq!(*once.get_stale(), *twice.get_stale());
    assert!(once.validate_fresh(1042).is_ok());
    assert!(twice.validate_fresh(1042).is_ok());
    assert!(matches!(
        once.validate_fresh(1143),
        Err(CacheInvalidError::Expired { .. })
    ));
    assert!(matches!(
        twice.validate_fresh(1143),
        Err(CacheInvalidError::Expired { .. })
    ));
}

/// refresh and refresh_to behave identically.
#[test]
fn refresh_matches_refresh_to() {
    let mut a: Cache<u64, 100> = Cache::new(5, 1000);
    let mut b: Cache<u64, 100> = Cache::new(5, 1000);
    a.invalidate();
    b.invalidate();
    a.refresh(1060);
    b.refresh_to(1060);
    assert_eq!(a.last_updated(), b.last_updated());
    assert_eq!(*a.get_stale(), *b.get_stale());
    assert!(a.validate_fresh(1060).is_ok());
    assert!(b.validate_fresh(1060).is_ok());
}

/// Mutating through try_get_mut changes the value but not the freshness
/// bookkeeping.
#[test]
fn mutation_does_not_refresh() {
    let mut c: Cache<u64, 10> = Cache::new(5, 1000);
    *c.try_get_mut(1004).unwrap() = 9;
    assert_eq!(c.last_updated(), 1000);
    assert_eq!(*c.get_stale(), 9);
    // The expiry clock still runs from the original refresh.
    assert!(matches!(
        c.try_get(1011),
        Err(CacheInvalidError::Expired { .. })
    ));

    *c.get_stale_mut() = 11;
    assert_eq!(c.last_updated(), 1000);
    assert_eq!(*c.get_stale(), 11);
}

/// try_get_mut fails with the same reasons as validate_fresh.
#[test]
fn try_get_mut_reports_staleness() {
    let mut c: Cache<u64, 10> = Cache::new(5, 1000);
    assert!(matches!(
        c.try_get_mut(999),
        Err(CacheInvalidError::TooNew { .. })
    ));
    assert!(matches!(
        c.try_get_mut(1011),
        Err(CacheInvalidError::Expired { .. })
    ));
    c.invalidate();
    assert!(matches!(
        c.try_get_mut(1005),
        Err(CacheInvalidError::Invalidated)
    ));
}

/// The expect accessors return the value when the caller has guaranteed
/// freshness.
#[test]
fn expect_on_fresh_cache() {
    let mut c: Cache<u64, 100> = Cache::new(5, 1000);
    assert_eq!(*c.expect(1050, "value known fresh"), 5);
    *c.expect_mut(1050, "value known fresh") = 6;
    assert_eq!(*c.get_stale(), 6);
    assert_eq!(c.last_updated(), 1000);
}
