use aptosdb::{LedgerPruner, SchemaBatch, Store, SubPruner, SubPrunerKind};

fn store_with_versions(key_base: u64, versions: std::ops::Range<u64>) -> Store {
    let mut store = Store::new();
    let mut batch = SchemaBatch::new();
    for version in versions {
        batch.put(key_base + version, version, version);
    }
    store.write_schemas(batch);
    store
}

fn pruner_over(
    metadata_versions: std::ops::Range<u64>,
    data_versions: std::ops::Range<u64>,
) -> LedgerPruner {
    LedgerPruner::new(
        store_with_versions(0, metadata_versions),
        store_with_versions(10_000, data_versions.clone()),
        store_with_versions(20_000, data_versions.clone()),
        store_with_versions(30_000, data_versions.clone()),
        store_with_versions(40_000, data_versions.clone()),
        store_with_versions(50_000, data_versions),
    )
}

#[test]
fn test_prune_is_idempotent() {
    // Invoking prune(a, b) twice in sequence leaves the store identical to
    // invoking it once.
    let mut pruner = SubPruner::new(
        SubPrunerKind::EventStore,
        store_with_versions(0, 0..10),
    );
    pruner.prune(2, 5);
    let progress_once = pruner.progress();
    pruner.prune(2, 5);
    assert_eq!(pruner.progress(), progress_once);
    assert_eq!(progress_once, 5);
}

#[test]
fn test_sub_pruner_removes_exactly_the_range() {
    let mut pruner = SubPruner::new(
        SubPrunerKind::WriteSet,
        store_with_versions(0, 0..10),
    );
    assert_eq!(pruner.progress(), 0);
    pruner.prune(0, 4);
    assert_eq!(pruner.progress(), 4);
    // A smaller, already pruned range never drags the marker backwards.
    pruner.prune(0, 2);
    assert_eq!(pruner.progress(), 4);
}

#[test]
fn test_pruner_name() {
    let pruner = pruner_over(0..0, 0..0);
    assert_eq!(pruner.name(), "ledger_pruner");
}

#[test]
fn test_orchestrator_starts_at_metadata_baseline() {
    let mut metadata_store = Store::new();
    let metadata_pruner = SubPruner::new(SubPrunerKind::LedgerMetadata, metadata_store);
    assert_eq!(metadata_pruner.progress(), 0);

    metadata_store = Store::new();
    metadata_store.put_meta(aptosdb::MetaKey::PrunerProgress, 42);
    let pruner = LedgerPruner::new(
        metadata_store,
        Store::new(),
        Store::new(),
        Store::new(),
        Store::new(),
        Store::new(),
    );
    assert_eq!(pruner.progress(), 42);
    assert_eq!(pruner.target_version(), 42);
}

#[test]
fn test_lagging_sub_pruner_catches_up_to_baseline() {
    // The metadata sub-pruner has already pruned to 50; a sub-pruner whose
    // own marker lags catches up to that baseline at construction time.
    let mut metadata_store = Store::new();
    metadata_store.put_meta(aptosdb::MetaKey::PrunerProgress, 50);
    let event_store = store_with_versions(10_000, 0..100);

    let pruner = LedgerPruner::new(
        metadata_store,
        event_store,
        Store::new(),
        Store::new(),
        Store::new(),
        Store::new(),
    );
    assert_eq!(pruner.progress(), 50);
    let event_pruner = pruner.sub_pruner(0);
    assert_eq!(event_pruner.progress(), 50);
    for version in 0..50 {
        assert_eq!(event_pruner.get(10_000 + version, version), None);
    }
    for version in 50..100 {
        assert_eq!(event_pruner.get(10_000 + version, version), Some(version));
    }
}

#[test]
fn test_progress_is_monotonic_and_bounded_by_target() {
    let mut pruner = pruner_over(0..0, 0..600);
    let mut last_progress = pruner.progress();
    assert!(last_progress <= pruner.target_version());

    pruner.set_target_version(250);
    assert!(pruner.progress() >= last_progress);
    last_progress = pruner.progress();

    for _ in 0..4 {
        pruner.prune_batch(100);
        assert!(pruner.progress() >= last_progress);
        assert!(pruner.progress() <= pruner.target_version());
        last_progress = pruner.progress();
    }
    assert_eq!(pruner.progress(), 250);

    // Lowering the target is clamped: the target never moves backwards.
    pruner.set_target_version(10);
    assert_eq!(pruner.target_version(), 250);
    assert!(pruner.progress() <= pruner.target_version());

    pruner.set_target_version(600);
    let reached = pruner.prune(128);
    assert_eq!(reached, 600);
    assert_eq!(pruner.progress(), 600);
}

#[test]
fn test_batch_stepping() {
    // With target = progress + K * max_versions, repeated bounded batches
    // advance progress in exact steps of max_versions until the last step
    // lands on the target.
    let mut pruner = pruner_over(0..0, 0..1000);
    pruner.set_target_version(1000);
    for step in 1..=10u64 {
        pruner.prune_batch(100);
        assert_eq!(pruner.progress(), step * 100);
    }
    assert_eq!(pruner.progress(), 1000);

    // A target that is not a whole multiple ends with one shorter step.
    let mut pruner = pruner_over(0..0, 0..250);
    pruner.set_target_version(250);
    pruner.prune_batch(100);
    assert_eq!(pruner.progress(), 100);
    pruner.prune_batch(100);
    assert_eq!(pruner.progress(), 200);
    pruner.prune_batch(100);
    assert_eq!(pruner.progress(), 250);
    pruner.prune_batch(100);
    assert_eq!(pruner.progress(), 250);
}

#[test]
fn test_end_to_end_prune_to_target() {
    // Orchestrator with target 1000, progress 0, three stores holding
    // version-tagged entries in disjoint key ranges: after ten calls to
    // prune(100), progress is 1000 and no store retains an entry tagged
    // with a version below 1000.
    let event_store = store_with_versions(10_000, 0..1000);
    let accumulator_store = store_with_versions(20_000, 0..1000);
    let write_set_store = store_with_versions(50_000, 0..1000);
    let mut pruner = LedgerPruner::new(
        Store::new(),
        event_store,
        accumulator_store,
        Store::new(),
        Store::new(),
        write_set_store,
    );
    pruner.set_target_version(1000);

    for _ in 0..10 {
        let reached = pruner.prune(100);
        assert_eq!(reached, 1000);
    }
    assert_eq!(pruner.progress(), 1000);

    // No sub-pruner's store retains any entry tagged with version < 1000.
    for (index, key_base) in [(0, 10_000u64), (1, 20_000u64), (4, 50_000u64)] {
        let sub_pruner = pruner.sub_pruner(index);
        for version in 0..1000 {
            assert_eq!(sub_pruner.get(key_base + version, version), None);
        }
        assert_eq!(sub_pruner.progress(), 1000);
    }
}
