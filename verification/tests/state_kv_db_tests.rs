use aptosdb::{MetaKey, SchemaBatch, StateKvDb, Store, NUM_STATE_SHARDS};

fn empty_shards() -> Vec<Store> {
    let mut shards = Vec::new();
    for _ in 0..NUM_STATE_SHARDS {
        shards.push(Store::new());
    }
    shards
}

fn empty_batches() -> Vec<SchemaBatch> {
    let mut batches = Vec::new();
    for _ in 0..NUM_STATE_SHARDS {
        batches.push(SchemaBatch::new());
    }
    batches
}

#[test]
fn test_crash_recovery_truncates_shard_that_ran_ahead() {
    // Simulated mid-commit crash: shard 0's marker is v, every other
    // shard's marker is v - 1, and the overall metadata progress is v - 1.
    let v = 5;
    let mut metadata = Store::new();
    metadata.put_meta(MetaKey::OverallCommitProgress, v - 1);

    let mut shards = Vec::new();
    for shard_id in 0..NUM_STATE_SHARDS as u8 {
        let mut shard = Store::new();
        if shard_id == 0 {
            // Shard 0's write of version v landed before the crash.
            shard.put(100, v, 500);
            shard.put(100, v - 1, 400);
            shard.put_meta(MetaKey::ShardCommitProgress(0), v);
        } else {
            shard.put(200 + shard_id as u64, v - 1, 400);
            shard.put_meta(MetaKey::ShardCommitProgress(shard_id), v - 1);
        }
        shards.push(shard);
    }

    let db = StateKvDb::open(metadata, shards);

    // Opening truncated shard 0 back down to v - 1 ...
    assert_eq!(db.db_shard(0).get(100, v), None);
    assert_eq!(db.db_shard(0).get(100, v - 1), Some(400));
    // ... and every shard and the metadata store report progress v - 1.
    for shard_id in 0..NUM_STATE_SHARDS as u8 {
        assert_eq!(
            db.db_shard(shard_id).get_meta(MetaKey::ShardCommitProgress(shard_id)),
            Some(v - 1)
        );
    }
    assert_eq!(
        db.metadata_db().get_meta(MetaKey::OverallCommitProgress),
        Some(v - 1)
    );
}

#[test]
fn test_open_without_progress_recovers_nothing() {
    let mut shards = empty_shards();
    shards[3].put(7, 9, 70);
    shards[3].put_meta(MetaKey::ShardCommitProgress(3), 9);
    let db = StateKvDb::open(Store::new(), shards);
    assert_eq!(db.db_shard(3).get(7, 9), Some(70));
    assert_eq!(
        db.db_shard(3).get_meta(MetaKey::ShardCommitProgress(3)),
        Some(9)
    );
}

#[test]
fn test_commit_writes_shards_then_metadata_then_progress() {
    let mut db = StateKvDb::open(Store::new(), empty_shards());

    let mut shard_batches = empty_batches();
    for (shard_id, batch) in shard_batches.iter_mut().enumerate() {
        batch.put(shard_id as u64, 7, 1000 + shard_id as u64);
    }
    let mut metadata_batch = SchemaBatch::new();
    metadata_batch.put(9999, 7, 42);

    db.commit(7, metadata_batch, shard_batches);

    for shard_id in 0..NUM_STATE_SHARDS as u8 {
        let shard = db.db_shard(shard_id);
        assert_eq!(shard.get(shard_id as u64, 7), Some(1000 + shard_id as u64));
        // Each shard's own marker was embedded atomically with its batch.
        assert_eq!(
            shard.get_meta(MetaKey::ShardCommitProgress(shard_id)),
            Some(7)
        );
    }
    assert_eq!(db.metadata_db().get(9999, 7), Some(42));
    assert_eq!(
        db.metadata_db().get_meta(MetaKey::OverallCommitProgress),
        Some(7)
    );
}

#[test]
fn test_unsharded_mode_routes_everything_to_the_shared_store() {
    let mut shared = Store::new();
    shared.put(1, 1, 11);
    let mut db = StateKvDb::new_unsharded(shared);
    assert!(!db.enabled_sharding());
    assert_eq!(db.num_shards() as usize, NUM_STATE_SHARDS);

    let mut shard_batches = empty_batches();
    shard_batches[5].put(55, 2, 550);
    db.commit(2, SchemaBatch::new(), shard_batches);

    // Every shard slot aliases the single shared store.
    assert_eq!(db.db_shard(5).get(55, 2), Some(550));
    assert_eq!(db.db_shard(0).get(55, 2), Some(550));
    assert_eq!(db.metadata_db().get(1, 1), Some(11));
    assert_eq!(
        db.metadata_db().get_meta(MetaKey::ShardCommitProgress(5)),
        Some(2)
    );
    assert_eq!(
        db.metadata_db().get_meta(MetaKey::OverallCommitProgress),
        Some(2)
    );
}

#[test]
fn test_new_dispatches_on_sharding_config() {
    let mut ledger = Store::new();
    ledger.put(1, 1, 1);
    let db = StateKvDb::new(false, ledger, Store::new(), empty_shards());
    assert!(!db.enabled_sharding());
    assert_eq!(db.metadata_db().get(1, 1), Some(1));

    let mut metadata = Store::new();
    metadata.put_meta(MetaKey::OverallCommitProgress, 3);
    let mut shards = empty_shards();
    shards[2].put(5, 9, 50);
    shards[2].put_meta(MetaKey::ShardCommitProgress(2), 9);
    let db = StateKvDb::new(true, Store::new(), metadata, shards);
    assert!(db.enabled_sharding());
    // Recovery ran: shard 2 had committed version 9 past the overall
    // progress 3, so it was truncated back down.
    assert_eq!(db.db_shard(2).get(5, 9), None);
    assert_eq!(
        db.db_shard(2).get_meta(MetaKey::ShardCommitProgress(2)),
        Some(3)
    );
}

#[test]
fn test_commit_raw_batch_and_pruner_progress() {
    let mut db = StateKvDb::open(Store::new(), empty_shards());
    let mut batch = SchemaBatch::new();
    batch.put(1, 3, 13);
    db.commit_raw_batch(batch);
    assert_eq!(db.metadata_db().get(1, 3), Some(13));
    // A raw batch records no overall progress.
    assert_eq!(db.metadata_db().get_meta(MetaKey::OverallCommitProgress), None);

    db.write_pruner_progress(4);
    assert_eq!(db.metadata_db().get_meta(MetaKey::PrunerProgress), Some(4));
}

#[test]
fn test_checkpoint_fidelity() {
    // A checkpoint taken when overall progress is v, opened independently,
    // reports progress v and identical values for every tested key.
    let v = 9;
    let mut db = StateKvDb::open(Store::new(), empty_shards());
    let mut shard_batches = empty_batches();
    for (shard_id, batch) in shard_batches.iter_mut().enumerate() {
        batch.put(shard_id as u64, v, shard_id as u64 * 2);
    }
    let mut metadata_batch = SchemaBatch::new();
    metadata_batch.put(777, v, 7777);
    db.commit(v, metadata_batch, shard_batches);

    let checkpoint = db.create_checkpoint();
    assert_eq!(
        checkpoint.metadata_db().get_meta(MetaKey::OverallCommitProgress),
        Some(v)
    );
    assert_eq!(checkpoint.metadata_db().get(777, v), Some(7777));
    for shard_id in 0..NUM_STATE_SHARDS as u8 {
        assert_eq!(
            checkpoint.db_shard(shard_id).get(shard_id as u64, v),
            db.db_shard(shard_id).get(shard_id as u64, v)
        );
        assert_eq!(
            checkpoint.db_shard(shard_id).get_meta(MetaKey::ShardCommitProgress(shard_id)),
            Some(v)
        );
    }

    // The checkpoint is independent of later writes to the source.
    db.write_progress(v + 1);
    assert_eq!(
        checkpoint.metadata_db().get_meta(MetaKey::OverallCommitProgress),
        Some(v)
    );
}
