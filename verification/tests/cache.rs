use std::cell::Cell;

use nagoya_api::cache::ReferenceDataCache;
use nagoya_api::models::{FetchError, ImplementingCountries};

fn set_of(codes: &[&str]) -> ImplementingCountries {
    let owned: Vec<String> = codes.iter().map(|c| c.to_string()).collect();
    ImplementingCountries::from_codes(&owned)
}

#[test]
fn fresh_entry_is_served_without_fetching() {
    let calls = Cell::new(0u32);
    let mut cache = ReferenceDataCache::new(set_of(&["DEU", "AUS"]), 10, 0);
    let (d1, m1) = cache.get(5, || {
        calls.set(calls.get() + 1);
        Err(FetchError { message: "unexpected".to_string() })
    });
    let (d2, m2) = cache.get(10, || {
        calls.set(calls.get() + 1);
        Err(FetchError { message: "unexpected".to_string() })
    });
    assert_eq!(calls.get(), 0);
    assert!(m1.is_none());
    assert!(m2.is_none());
    assert!(d1.contains_str("DEU"));
    assert!(d2.contains_str("DEU"));
}

#[test]
fn stale_entry_is_refreshed_once() {
    let calls = Cell::new(0u32);
    let mut cache = ReferenceDataCache::new(set_of(&["DEU"]), 10, 0);
    assert!(!cache.is_fresh(11));
    let (d1, m1) = cache.get(11, || {
        calls.set(calls.get() + 1);
        Ok(set_of(&["AUS", "FRA"]))
    });
    assert_eq!(calls.get(), 1);
    assert!(m1.is_none());
    assert!(d1.contains_str("AUS"));
    assert!(d1.contains_str("FRA"));
    assert!(!d1.contains_str("DEU"));

    // the refresh reset freshness: an immediate second get does not refetch
    assert!(cache.is_fresh(11));
    let (d2, m2) = cache.get(11, || {
        calls.set(calls.get() + 1);
        Ok(set_of(&["ZMB"]))
    });
    assert_eq!(calls.get(), 1);
    assert!(m2.is_none());
    assert!(d2.contains_str("AUS"));
    assert!(!d2.contains_str("ZMB"));
}

#[test]
fn failed_refresh_serves_stale_snapshot() {
    let mut cache = ReferenceDataCache::new(set_of(&["DEU", "AUS"]), 10, 0);
    assert!(!cache.is_fresh(42));
    let (d, m) = cache.get(42, || {
        Err(FetchError { message: "registry unreachable".to_string() })
    });
    assert!(d.contains_str("DEU"));
    assert!(d.contains_str("AUS"));
    assert_eq!(
        m,
        Some(FetchError { message: "registry unreachable".to_string() })
    );
    // the entry stays stale: the next get tries again, and a recovered
    // registry then takes over
    assert!(!cache.is_fresh(42));
    let (d2, m2) = cache.get(42, || Ok(set_of(&["FRA"])));
    assert!(m2.is_none());
    assert!(d2.contains_str("FRA"));
    assert!(!d2.contains_str("DEU"));
}

#[test]
fn freshness_follows_the_ttl() {
    let cache = ReferenceDataCache::new(set_of(&["DEU"]), 10, 100);
    assert!(cache.is_fresh(100));
    assert!(cache.is_fresh(110));
    assert!(!cache.is_fresh(111));
    // a timestamp before the last refresh still counts as fresh
    assert!(cache.is_fresh(99));
}
