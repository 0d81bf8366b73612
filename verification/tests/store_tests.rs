use aptosdb::{MetaKey, SchemaBatch, StateKvDb, Store};

#[test]
fn test_put_get_delete() {
    let mut store = Store::new();
    assert_eq!(store.get(1, 0), None);

    store.put(1, 0, 11);
    store.put(2, 0, 22);
    store.put(1, 5, 15);
    assert_eq!(store.get(1, 0), Some(11));
    assert_eq!(store.get(2, 0), Some(22));
    assert_eq!(store.get(1, 5), Some(15));
    assert_eq!(store.get(3, 0), None);

    // Overwriting replaces the value under the same (key, version).
    store.put(1, 0, 99);
    assert_eq!(store.get(1, 0), Some(99));

    store.delete(1, 0);
    assert_eq!(store.get(1, 0), None);
    assert_eq!(store.get(1, 5), Some(15));
}

#[test]
fn test_meta_markers() {
    let mut store = Store::new();
    assert_eq!(store.get_meta(MetaKey::OverallCommitProgress), None);

    store.put_meta(MetaKey::OverallCommitProgress, 7);
    store.put_meta(MetaKey::ShardCommitProgress(3), 6);
    store.put_meta(MetaKey::PrunerProgress, 2);
    assert_eq!(store.get_meta(MetaKey::OverallCommitProgress), Some(7));
    assert_eq!(store.get_meta(MetaKey::ShardCommitProgress(3)), Some(6));
    assert_eq!(store.get_meta(MetaKey::ShardCommitProgress(4)), None);
    assert_eq!(store.get_meta(MetaKey::PrunerProgress), Some(2));

    store.put_meta(MetaKey::OverallCommitProgress, 8);
    assert_eq!(store.get_meta(MetaKey::OverallCommitProgress), Some(8));
}

#[test]
fn test_delete_version_range() {
    let mut store = Store::new();
    for version in 0..10 {
        store.put(100 + version, version, version);
    }
    store.delete_version_range(3, 7);
    for version in 0..10 {
        let expected = if (3..7).contains(&version) {
            None
        } else {
            Some(version)
        };
        assert_eq!(store.get(100 + version, version), expected);
    }
}

#[test]
fn test_truncate_versions_above() {
    let mut store = Store::new();
    for version in 0..10 {
        store.put(1, version, version * 10);
    }
    store.truncate_versions_above(4);
    for version in 0..10 {
        let expected = if version <= 4 { Some(version * 10) } else { None };
        assert_eq!(store.get(1, version), expected);
    }
}

#[test]
fn test_write_schemas_applies_all_ops_in_order() {
    let mut store = Store::new();
    store.put(9, 9, 9);

    let mut batch = SchemaBatch::new();
    batch.put(1, 1, 10);
    batch.put(1, 1, 20); // later op wins
    batch.put(2, 2, 30);
    batch.delete(9, 9);
    batch.put_meta(MetaKey::ShardCommitProgress(0), 3);
    store.write_schemas(batch);

    assert_eq!(store.get(1, 1), Some(20));
    assert_eq!(store.get(2, 2), Some(30));
    assert_eq!(store.get(9, 9), None);
    assert_eq!(store.get_meta(MetaKey::ShardCommitProgress(0)), Some(3));
}

#[test]
fn test_store_checkpoint_is_identical() {
    let mut store = Store::new();
    store.put(1, 1, 100);
    store.put(2, 2, 200);
    store.put_meta(MetaKey::OverallCommitProgress, 2);

    let checkpoint = store.create_checkpoint();
    assert_eq!(checkpoint.get(1, 1), Some(100));
    assert_eq!(checkpoint.get(2, 2), Some(200));
    assert_eq!(checkpoint.get_meta(MetaKey::OverallCommitProgress), Some(2));

    // The copy is independent: writing to the source leaves it untouched.
    let mut store = store;
    store.put(1, 1, 999);
    assert_eq!(store.get(1, 1), Some(999));
    assert_eq!(checkpoint.get(1, 1), Some(100));
}

#[test]
fn test_on_disk_paths() {
    assert_eq!(StateKvDb::db_shard_path(0), "state_kv_db/shard_0");
    assert_eq!(StateKvDb::db_shard_path(7), "state_kv_db/shard_7");
    assert_eq!(StateKvDb::db_shard_path(15), "state_kv_db/shard_15");
    assert_eq!(StateKvDb::db_shard_path(255), "state_kv_db/shard_255");
    assert_eq!(StateKvDb::metadata_db_path(), "state_kv_db/metadata");
}
