use link_sanitizer::cache::ConfigCache;
use link_sanitizer::models::{SanitizerMode, ServerConfig};

fn fetch(cache: &mut ConfigCache, id: u64, reads: &mut u32) -> ServerConfig {
    match cache.get_cached(id) {
        Some(c) => c,
        None => {
            *reads += 1;
            cache.fill(id, None)
        }
    }
}

#[test]
fn lru_evicts_least_recent() {
    let mut cache = ConfigCache::with_capacity(3);
    let mut reads = 0;
    for id in [10, 20, 30] {
        fetch(&mut cache, id, &mut reads);
    }
    assert_eq!(reads, 3);
    // Touch 10, so 20 becomes the least recent.
    fetch(&mut cache, 10, &mut reads);
    assert_eq!(reads, 3);
    fetch(&mut cache, 40, &mut reads);
    assert_eq!(reads, 4);
    assert!(cache.get_cached(20).is_none());
    assert!(cache.get_cached(10).is_some());
    assert!(cache.get_cached(30).is_some());
    assert!(cache.get_cached(40).is_some());
}

#[test]
fn capacity_plus_one_evicts_first() {
    let mut cache = ConfigCache::new();
    let mut reads = 0;
    for id in 0..1001u64 {
        fetch(&mut cache, id, &mut reads);
    }
    assert_eq!(reads, 1001);
    for id in 1..1001u64 {
        assert!(cache.get_cached(id).is_some());
    }
    fetch(&mut cache, 0, &mut reads);
    assert_eq!(reads, 1002);
}

#[test]
fn update_and_stored_rows() {
    let mut cache = ConfigCache::with_capacity(2);
    let stored = ServerConfig::from_row(5, 1, 0, false);
    assert_eq!(cache.fill(5, Some(stored)), stored);
    let mut changed = stored;
    changed.sanitizer_mode = SanitizerMode::ManualBoth;
    cache.update_config(5, changed);
    assert_eq!(cache.get_cached(5), Some(changed));
    assert_eq!(cache.fill(6, None), ServerConfig::new(6));
}

#[test]
fn recovery_keeps_entries() {
    let mut cache = ConfigCache::with_capacity(2);
    cache.fill(1, None);
    cache.fill(2, None);
    cache.recover(3);
    // The cached configurations stay; only the recency order restarts.
    assert!(cache.get_cached(1).is_some());
    assert!(cache.get_cached(2).is_some());
    assert!(cache.get_cached(3).is_none());
    cache.fill(3, None);
    cache.fill(4, None);
    cache.fill(5, None);
    // 3 was the least recent tracked guild, so it is the one evicted.
    assert!(cache.get_cached(3).is_none());
    assert!(cache.get_cached(4).is_some());
    assert!(cache.get_cached(5).is_some());
}
