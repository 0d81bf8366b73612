use aptosdb::{CachedExecutable, ExecutableStore};

fn executable(code: u64, size_bytes: usize) -> CachedExecutable {
    CachedExecutable { code, size_bytes }
}

#[test]
fn test_insert_get_remove() {
    let mut store = ExecutableStore::default();
    assert_eq!(store.get(&1), None);

    store.insert(1, executable(11, 100));
    store.insert(2, executable(22, 50));
    assert_eq!(store.get(&1), Some(executable(11, 100)));
    assert_eq!(store.get(&2), Some(executable(22, 50)));
    assert_eq!(store.get(&3), None);

    // Displacing an entry replaces it.
    store.insert(1, executable(99, 70));
    assert_eq!(store.get(&1), Some(executable(99, 70)));

    store.remove(&1);
    assert_eq!(store.get(&1), None);
    assert_eq!(store.get(&2), Some(executable(22, 50)));
}

#[test]
fn test_prune_reports_size_and_clears_over_threshold() {
    let mut store = ExecutableStore::default();
    store.insert(1, executable(1, 100));
    store.insert(2, executable(2, 50));

    store.mark_updated();
    // 150 bytes cached, threshold 200: nothing is evicted.
    let size = store.prune(200);
    assert_eq!(size, 150);
    assert_eq!(store.get(&1), Some(executable(1, 100)));

    store.mark_ready(7);
    store.mark_updated();
    // 150 bytes cached, threshold 100: everything is evicted.
    let size = store.prune(100);
    assert_eq!(size, 150);
    assert_eq!(store.get(&1), None);
    assert_eq!(store.get(&2), None);
    // After the eviction the tracked size is back at zero.
    store.mark_ready(8);
    store.mark_updated();
    assert_eq!(store.prune(0), 0);
}

#[test]
fn test_size_accounting_tracks_replacements() {
    let mut store = ExecutableStore::default();
    store.insert(1, executable(1, 100));
    store.insert(1, executable(2, 30)); // replaces 100 bytes with 30
    store.insert(2, executable(3, 5));
    store.remove(&2);
    store.mark_updated();
    assert_eq!(store.prune(usize::MAX), 30);
}

#[test]
fn test_check_ready_clears_on_parent_mismatch() {
    let mut store = ExecutableStore::default();
    store.insert(1, executable(1, 10));

    // A fresh store records no block, so any parent is acceptable.
    store.check_ready(Some(123));
    assert_eq!(store.get(&1), Some(executable(1, 10)));

    // Full circle: update, prune, record the executed block.
    store.mark_updated();
    store.prune(usize::MAX);
    store.mark_ready(5);

    // The matching parent keeps the cache.
    store.check_ready(Some(5));
    assert_eq!(store.get(&1), Some(executable(1, 10)));

    // A mismatching parent clears it: out-of-order execution reads nothing
    // stale.
    store.check_ready(Some(6));
    assert_eq!(store.get(&1), None);
}

#[test]
fn test_out_of_order_status_voids_and_resets() {
    let mut store = ExecutableStore::default();
    store.insert(1, executable(1, 10));

    // Pruning without updating first is out of order: the status voids.
    store.prune(usize::MAX);
    // mark_ready on a voided status clears the cache instead of recording
    // the block id.
    store.mark_ready(9);
    assert_eq!(store.get(&1), None);
    // With no recorded block the cleared cache accepts any parent.
    store.check_ready(None);
    store.check_ready(Some(42));
}
