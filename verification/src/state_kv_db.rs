//! The sharded versioned key-value store.
//!
//! A [`StateKvDb`] partitions a versioned key-value namespace across
//! [`NUM_STATE_SHARDS`] independent physical shards plus one metadata store.
//! Every shard write embeds that shard's own commit-progress marker
//! atomically with its data; the overall committed version is recorded in
//! the metadata store only after every shard write has finished. Opening a
//! sharded store runs crash recovery: any shard whose own marker ran ahead
//! of the overall committed version (a multi-shard commit interrupted
//! mid-flight) is truncated back down, restoring the atomicity of the
//! logical multi-shard transaction.

use vstd::prelude::*;
use vstd::string::StringExecFns;

use crate::decimal::{decimal_digits, push_decimal};
use crate::store::{apply_ops_data, apply_ops_meta, truncate_data_map, MetaKey, SchemaBatch, Store};
use crate::Version;

verus! {

/// The number of physical shards of a sharded store.
pub const NUM_STATE_SHARDS: usize = 16;

/// The shard commit-progress marker recorded in `m` for `shard_id`, taken
/// as 0 when the shard has never committed.
pub open spec fn shard_marker_of(m: Map<MetaKey, u64>, shard_id: u8) -> Version {
    if m.dom().contains(MetaKey::ShardCommitProgress(shard_id)) {
        m[MetaKey::ShardCommitProgress(shard_id)]
    } else {
        0
    }
}

/// Whether the metadata store records an overall committed version.
pub open spec fn has_overall_progress(m: Map<MetaKey, u64>) -> bool {
    m.dom().contains(MetaKey::OverallCommitProgress)
}

/// The overall committed version recorded in the metadata store.
pub open spec fn overall_progress_of(m: Map<MetaKey, u64>) -> Version {
    m[MetaKey::OverallCommitProgress]
}

/// The records of shard `shard_id` after recovery against the overall
/// committed version `overall`: a shard whose own marker ran ahead is
/// truncated back down to `overall`, any other shard is left untouched.
pub open spec fn recovered_shard_data(shard: Store, overall: Version, shard_id: u8) -> Map<
    (u64, u64),
    u64,
> {
    if shard_marker_of(shard.meta_view(), shard_id) > overall {
        truncate_data_map(shard.data_view(), overall)
    } else {
        shard.data_view()
    }
}

/// The markers of shard `shard_id` after recovery against `overall`.
pub open spec fn recovered_shard_meta(shard: Store, overall: Version, shard_id: u8) -> Map<
    MetaKey,
    u64,
> {
    if shard_marker_of(shard.meta_view(), shard_id) > overall {
        shard.meta_view().insert(MetaKey::ShardCommitProgress(shard_id), overall)
    } else {
        shard.meta_view()
    }
}

/// The records of the single shared store after committing every shard's
/// batch in shard order, in sharding-disabled mode.
pub open spec fn unsharded_commit_data(
    m: Map<(u64, u64), u64>,
    batches: Seq<SchemaBatch>,
) -> Map<(u64, u64), u64>
    decreases batches.len(),
{
    if batches.len() == 0 {
        m
    } else {
        apply_ops_data(
            unsharded_commit_data(m, batches.drop_last()),
            batches.last().ops_view(),
        )
    }
}

/// The markers of the single shared store after committing every shard's
/// batch (shard `i` taking the `i`-th batch) in sharding-disabled mode.
pub open spec fn unsharded_commit_meta(
    m: Map<MetaKey, u64>,
    batches: Seq<SchemaBatch>,
    version: Version,
) -> Map<MetaKey, u64>
    decreases batches.len(),
{
    if batches.len() == 0 {
        m
    } else {
        apply_ops_meta(
            unsharded_commit_meta(m, batches.drop_last(), version),
            batches.last().ops_view(),
        ).insert(MetaKey::ShardCommitProgress((batches.len() - 1) as u8), version)
    }
}

/// The sharded store: one metadata store plus the physical shards.
///
/// In sharding-disabled mode every shard slot aliases the single shared
/// store, so all reads and writes route to it and there is no extra
/// footprint.
pub struct StateKvDb {
    state_kv_metadata_db: Store,
    state_kv_db_shards: Vec<Store>,
    enabled_sharding: bool,
}

impl StateKvDb {
    /// The metadata store.
    pub closed spec fn metadata_spec(self) -> Store {
        self.state_kv_metadata_db
    }

    /// The physical shards, in shard-id order (empty with sharding
    /// disabled: every slot aliases the shared store).
    pub closed spec fn shards_view(self) -> Seq<Store> {
        self.state_kv_db_shards@
    }

    /// Whether the store runs in sharded mode.
    pub closed spec fn enabled_sharding_spec(self) -> bool {
        self.enabled_sharding
    }

    pub open spec fn wf(self) -> bool {
        &&& self.metadata_spec().wf()
        &&& forall|i: int|
            0 <= i < self.shards_view().len() ==> (#[trigger] self.shards_view()[i]).wf()
        &&& self.enabled_sharding_spec() ==> self.shards_view().len() == NUM_STATE_SHARDS
        &&& !self.enabled_sharding_spec() ==> self.shards_view().len() == 0
    }

    /// Creates the store with sharding disabled: every shard slot and the
    /// metadata slot alias the one already-open shared store.
    pub fn new_unsharded(ledger_db: Store) -> (db: StateKvDb)
        requires
            ledger_db.wf(),
        ensures
            db.wf(),
            !db.enabled_sharding_spec(),
            db.metadata_spec() == ledger_db,
    {
        StateKvDb {
            state_kv_metadata_db: ledger_db,
            state_kv_db_shards: Vec::new(),
            enabled_sharding: false,
        }
    }

    /// Creates the store: with `split_ledger_db` unset, sharding is
    /// disabled and everything routes to the already-open shared ledger
    /// store; otherwise the store opens in sharded mode over its own
    /// metadata store and shards, running crash recovery once.
    pub fn new(
        split_ledger_db: bool,
        ledger_db: Store,
        state_kv_metadata_db: Store,
        shards: Vec<Store>,
    ) -> (db: StateKvDb)
        requires
            ledger_db.wf(),
            state_kv_metadata_db.wf(),
            shards@.len() == NUM_STATE_SHARDS,
            forall|i: int| 0 <= i < shards@.len() ==> (#[trigger] shards@[i]).wf(),
        ensures
            db.wf(),
            db.enabled_sharding_spec() == split_ledger_db,
            !split_ledger_db ==> db.metadata_spec() == ledger_db,
            split_ledger_db ==> {
                &&& db.metadata_spec() == state_kv_metadata_db
                &&& !has_overall_progress(state_kv_metadata_db.meta_view()) ==> db.shards_view()
                    == shards@
                &&& has_overall_progress(state_kv_metadata_db.meta_view()) ==> {
                    let overall = overall_progress_of(state_kv_metadata_db.meta_view());
                    forall|i: int|
                        0 <= i < NUM_STATE_SHARDS ==> {
                            &&& (#[trigger] db.shards_view()[i]).data_view()
                                == recovered_shard_data(shards@[i], overall, i as u8)
                            &&& db.shards_view()[i].meta_view() == recovered_shard_meta(
                                shards@[i],
                                overall,
                                i as u8,
                            )
                        }
                }
            },
    {
        if !split_ledger_db {
            return Self::new_unsharded(ledger_db);
        }
        Self::open(state_kv_metadata_db, shards)
    }

    /// Opens the store in sharded mode over the metadata store and the
    /// shards, and runs crash recovery once: with an overall committed
    /// version `v` on record, every shard whose own marker exceeds `v`
    /// (its write landed but the encompassing multi-shard commit never
    /// finished) has its data and marker truncated back down to `v`. This
    /// is an expected post-crash state, not an error.
    #[verifier::loop_isolation(false)]
    pub fn open(state_kv_metadata_db: Store, shards: Vec<Store>) -> (db: StateKvDb)
        requires
            state_kv_metadata_db.wf(),
            shards@.len() == NUM_STATE_SHARDS,
            forall|i: int| 0 <= i < shards@.len() ==> (#[trigger] shards@[i]).wf(),
        ensures
            db.wf(),
            db.enabled_sharding_spec(),
            db.metadata_spec() == state_kv_metadata_db,
            db.shards_view().len() == NUM_STATE_SHARDS,
            !has_overall_progress(state_kv_metadata_db.meta_view()) ==> db.shards_view()
                == shards@,
            has_overall_progress(state_kv_metadata_db.meta_view()) ==> {
                let overall = overall_progress_of(state_kv_metadata_db.meta_view());
                forall|i: int|
                    0 <= i < NUM_STATE_SHARDS ==> {
                        &&& (#[trigger] db.shards_view()[i]).data_view() == recovered_shard_data(
                            shards@[i],
                            overall,
                            i as u8,
                        )
                        &&& db.shards_view()[i].meta_view() == recovered_shard_meta(
                            shards@[i],
                            overall,
                            i as u8,
                        )
                        &&& shard_marker_of(db.shards_view()[i].meta_view(), i as u8) <= overall
                    }
            },
    {
        let mut shards = shards;
        let overall = state_kv_metadata_db.get_meta(MetaKey::OverallCommitProgress);
        match overall {
            Some(v) => {
                let ghost shards0 = shards@;
                let mut shard_id: usize = 0;
                while shard_id < NUM_STATE_SHARDS
                    invariant
                        shard_id <= NUM_STATE_SHARDS,
                        shards@.len() == NUM_STATE_SHARDS,
                        forall|i: int|
                            0 <= i < shard_id ==> {
                                &&& (#[trigger] shards@[i]).wf()
                                &&& shards@[i].data_view() == recovered_shard_data(
                                    shards0[i],
                                    v,
                                    i as u8,
                                )
                                &&& shards@[i].meta_view() == recovered_shard_meta(
                                    shards0[i],
                                    v,
                                    i as u8,
                                )
                            },
                        forall|i: int|
                            shard_id <= i < NUM_STATE_SHARDS ==> shards@[i] == shards0[i],
                        forall|i: int|
                            shard_id <= i < NUM_STATE_SHARDS ==> (#[trigger] shards@[i]).wf(),
                    decreases NUM_STATE_SHARDS - shard_id,
                {
                    proof {
                        assert(shards@[shard_id as int].wf());
                    }
                    let marker = shards[shard_id].get_meta(
                        MetaKey::ShardCommitProgress(shard_id as u8),
                    );
                    let ahead = match marker {
                        Some(m) => m > v,
                        None => false,
                    };
                    if ahead {
                        shards[shard_id].truncate_versions_above(v);
                        shards[shard_id].put_meta(MetaKey::ShardCommitProgress(shard_id as u8), v);
                    }
                    shard_id = shard_id + 1;
                }
            },
            None => {},
        }
        StateKvDb {
            state_kv_metadata_db,
            state_kv_db_shards: shards,
            enabled_sharding: true,
        }
    }

    /// Commits `version`: writes each shard's batch (each embedding that
    /// shard's own progress marker atomically), then the non-sharded
    /// metadata batch, then durably records the overall committed version.
    /// No store operation of the in-memory model can fail half-way, so the
    /// mid-commit states that recovery repairs after a crash are never
    /// observable through this call.
    #[verifier::loop_isolation(false)]
    pub fn commit(
        &mut self,
        version: Version,
        state_kv_metadata_batch: SchemaBatch,
        sharded_state_kv_batches: Vec<SchemaBatch>,
    )
        requires
            old(self).wf(),
            sharded_state_kv_batches@.len() == NUM_STATE_SHARDS,
        ensures
            final(self).wf(),
            final(self).enabled_sharding_spec() == old(self).enabled_sharding_spec(),
            final(self).shards_view().len() == old(self).shards_view().len(),
            old(self).enabled_sharding_spec() ==> {
                &&& forall|i: int|
                    0 <= i < NUM_STATE_SHARDS ==> {
                        &&& (#[trigger] final(self).shards_view()[i]).data_view() == apply_ops_data(
                            old(self).shards_view()[i].data_view(),
                            sharded_state_kv_batches@[i].ops_view(),
                        )
                        &&& final(self).shards_view()[i].meta_view() == apply_ops_meta(
                            old(self).shards_view()[i].meta_view(),
                            sharded_state_kv_batches@[i].ops_view(),
                        ).insert(MetaKey::ShardCommitProgress(i as u8), version)
                    }
                &&& final(self).metadata_spec().data_view() == apply_ops_data(
                    old(self).metadata_spec().data_view(),
                    state_kv_metadata_batch.ops_view(),
                )
                &&& final(self).metadata_spec().meta_view() == apply_ops_meta(
                    old(self).metadata_spec().meta_view(),
                    state_kv_metadata_batch.ops_view(),
                ).insert(MetaKey::OverallCommitProgress, version)
            },
            !old(self).enabled_sharding_spec() ==> {
                &&& final(self).metadata_spec().data_view() == apply_ops_data(
                    unsharded_commit_data(
                        old(self).metadata_spec().data_view(),
                        sharded_state_kv_batches@,
                    ),
                    state_kv_metadata_batch.ops_view(),
                )
                &&& final(self).metadata_spec().meta_view() == apply_ops_meta(
                    unsharded_commit_meta(
                        old(self).metadata_spec().meta_view(),
                        sharded_state_kv_batches@,
                        version,
                    ),
                    state_kv_metadata_batch.ops_view(),
                ).insert(MetaKey::OverallCommitProgress, version)
            },
    {
        let ghost batches = sharded_state_kv_batches@;
        let mut remaining = sharded_state_kv_batches;
        let mut shard_id: usize = 0;
        while shard_id < NUM_STATE_SHARDS
            invariant
                shard_id <= NUM_STATE_SHARDS,
                remaining@ == batches.skip(shard_id as int),
                self.wf(),
                self.enabled_sharding == old(self).enabled_sharding_spec(),
                self.state_kv_db_shards@.len() == old(self).shards_view().len(),
                self.enabled_sharding ==> {
                    &&& forall|i: int|
                        0 <= i < shard_id ==> {
                            &&& (#[trigger] self.state_kv_db_shards@[i]).data_view()
                                == apply_ops_data(
                                old(self).shards_view()[i].data_view(),
                                batches[i].ops_view(),
                            )
                            &&& self.state_kv_db_shards@[i].meta_view() == apply_ops_meta(
                                old(self).shards_view()[i].meta_view(),
                                batches[i].ops_view(),
                            ).insert(MetaKey::ShardCommitProgress(i as u8), version)
                        }
                    &&& forall|i: int|
                        shard_id <= i < NUM_STATE_SHARDS ==> self.state_kv_db_shards@[i] == old(
                            self,
                        ).shards_view()[i]
                    &&& self.state_kv_metadata_db == old(self).metadata_spec()
                },
                !self.enabled_sharding ==> {
                    &&& self.state_kv_metadata_db.data_view() == unsharded_commit_data(
                        old(self).metadata_spec().data_view(),
                        batches.take(shard_id as int),
                    )
                    &&& self.state_kv_metadata_db.meta_view() == unsharded_commit_meta(
                        old(self).metadata_spec().meta_view(),
                        batches.take(shard_id as int),
                        version,
                    )
                },
            decreases NUM_STATE_SHARDS - shard_id,
        {
            let batch = remaining.remove(0);
            proof {
                assert(batches.take(shard_id + 1).drop_last() =~= batches.take(shard_id as int));
                assert(batches.take(shard_id + 1).last() == batches[shard_id as int]);
                assert(remaining@ =~= batches.skip(shard_id + 1));
            }
            self.commit_single_shard(version, shard_id as u8, batch);
            shard_id = shard_id + 1;
        }
        proof {
            assert(batches.take(NUM_STATE_SHARDS as int) =~= batches);
        }
        self.state_kv_metadata_db.write_schemas(state_kv_metadata_batch);
        self.write_progress(version);
    }

    /// Writes a batch directly to the metadata store, bypassing shard
    /// partitioning: for schema elements that are not sharded.
    pub fn commit_raw_batch(&mut self, state_kv_batch: SchemaBatch)
        requires
            old(self).wf(),
        ensures
            final(self).wf(),
            final(self).enabled_sharding_spec() == old(self).enabled_sharding_spec(),
            final(self).shards_view() == old(self).shards_view(),
            final(self).metadata_spec().data_view() == apply_ops_data(
                old(self).metadata_spec().data_view(),
                state_kv_batch.ops_view(),
            ),
            final(self).metadata_spec().meta_view() == apply_ops_meta(
                old(self).metadata_spec().meta_view(),
                state_kv_batch.ops_view(),
            ),
    {
        self.state_kv_metadata_db.write_schemas(state_kv_batch);
    }

    /// Durably records the overall committed version.
    pub fn write_progress(&mut self, version: Version)
        requires
            old(self).wf(),
        ensures
            final(self).wf(),
            final(self).enabled_sharding_spec() == old(self).enabled_sharding_spec(),
            final(self).shards_view() == old(self).shards_view(),
            final(self).metadata_spec().data_view() == old(self).metadata_spec().data_view(),
            final(self).metadata_spec().meta_view() == old(self).metadata_spec().meta_view().insert(
                MetaKey::OverallCommitProgress,
                version,
            ),
    {
        self.state_kv_metadata_db.put_meta(MetaKey::OverallCommitProgress, version);
    }

    /// Durably records the pruner progress for this store category.
    pub fn write_pruner_progress(&mut self, version: Version)
        requires
            old(self).wf(),
        ensures
            final(self).wf(),
            final(self).enabled_sharding_spec() == old(self).enabled_sharding_spec(),
            final(self).shards_view() == old(self).shards_view(),
            final(self).metadata_spec().data_view() == old(self).metadata_spec().data_view(),
            final(self).metadata_spec().meta_view() == old(self).metadata_spec().meta_view().insert(
                MetaKey::PrunerProgress,
                version,
            ),
    {
        self.state_kv_metadata_db.put_meta(MetaKey::PrunerProgress, version);
    }

    /// Writes one shard's batch, embedding that shard's own commit-progress
    /// marker atomically with the data. With sharding disabled the write
    /// routes to the single shared store.
    pub fn commit_single_shard(&mut self, version: Version, shard_id: u8, batch: SchemaBatch)
        requires
            old(self).wf(),
            old(self).enabled_sharding_spec() ==> (shard_id as int) < NUM_STATE_SHARDS,
        ensures
            final(self).wf(),
            final(self).enabled_sharding_spec() == old(self).enabled_sharding_spec(),
            final(self).shards_view().len() == old(self).shards_view().len(),
            old(self).enabled_sharding_spec() ==> {
                &&& final(self).shards_view()[shard_id as int].data_view() == apply_ops_data(
                    old(self).shards_view()[shard_id as int].data_view(),
                    batch.ops_view(),
                )
                &&& final(self).shards_view()[shard_id as int].meta_view() == apply_ops_meta(
                    old(self).shards_view()[shard_id as int].meta_view(),
                    batch.ops_view(),
                ).insert(MetaKey::ShardCommitProgress(shard_id), version)
                &&& forall|i: int|
                    0 <= i < NUM_STATE_SHARDS && i != shard_id as int
                        ==> final(self).shards_view()[i] == old(self).shards_view()[i]
                &&& final(self).metadata_spec() == old(self).metadata_spec()
            },
            !old(self).enabled_sharding_spec() ==> {
                &&& final(self).metadata_spec().data_view() == apply_ops_data(
                    old(self).metadata_spec().data_view(),
                    batch.ops_view(),
                )
                &&& final(self).metadata_spec().meta_view() == apply_ops_meta(
                    old(self).metadata_spec().meta_view(),
                    batch.ops_view(),
                ).insert(MetaKey::ShardCommitProgress(shard_id), version)
                &&& final(self).shards_view() == old(self).shards_view()
            },
    {
        let ghost ops0 = batch.ops_view();
        let mut batch = batch;
        batch.put_meta(MetaKey::ShardCommitProgress(shard_id), version);
        proof {
            assert(batch.ops_view().drop_last() =~= ops0);
        }
        if self.enabled_sharding {
            self.state_kv_db_shards[shard_id as usize].write_schemas(batch);
        } else {
            self.state_kv_metadata_db.write_schemas(batch);
        }
    }

    /// Produces an independent, point-in-time copy of the metadata store
    /// and every shard: an independently openable checkpoint.
    #[verifier::loop_isolation(false)]
    pub fn create_checkpoint(&self) -> (cp: StateKvDb)
        requires
            self.wf(),
        ensures
            cp.wf(),
            cp.enabled_sharding_spec() == self.enabled_sharding_spec(),
            cp.metadata_spec().data_view() == self.metadata_spec().data_view(),
            cp.metadata_spec().meta_view() == self.metadata_spec().meta_view(),
            cp.shards_view().len() == self.shards_view().len(),
            forall|i: int|
                0 <= i < self.shards_view().len() ==> {
                    &&& (#[trigger] cp.shards_view()[i]).data_view()
                        == self.shards_view()[i].data_view()
                    &&& cp.shards_view()[i].meta_view() == self.shards_view()[i].meta_view()
                },
    {
        let metadata_cp = self.state_kv_metadata_db.create_checkpoint();
        let mut shard_cps: Vec<Store> = Vec::new();
        let mut i: usize = 0;
        while i < self.state_kv_db_shards.len()
            invariant
                i <= self.state_kv_db_shards@.len(),
                shard_cps@.len() == i,
                forall|j: int|
                    0 <= j < i ==> {
                        &&& (#[trigger] shard_cps@[j]).wf()
                        &&& shard_cps@[j].data_view() == self.shards_view()[j].data_view()
                        &&& shard_cps@[j].meta_view() == self.shards_view()[j].meta_view()
                    },
            decreases self.state_kv_db_shards@.len() - i,
        {
            let cp = self.state_kv_db_shards[i].create_checkpoint();
            shard_cps.push(cp);
            i = i + 1;
        }
        StateKvDb {
            state_kv_metadata_db: metadata_cp,
            state_kv_db_shards: shard_cps,
            enabled_sharding: self.enabled_sharding,
        }
    }

    /// The metadata store.
    pub fn metadata_db(&self) -> (r: &Store)
        ensures
            *r == self.metadata_spec(),
    {
        &self.state_kv_metadata_db
    }

    /// The store holding shard `shard_id`'s partition. With sharding
    /// disabled every shard slot aliases the single shared store.
    pub fn db_shard(&self, shard_id: u8) -> (r: &Store)
        requires
            self.wf(),
            self.enabled_sharding_spec() ==> (shard_id as int) < NUM_STATE_SHARDS,
        ensures
            self.enabled_sharding_spec() ==> *r == self.shards_view()[shard_id as int],
            !self.enabled_sharding_spec() ==> *r == self.metadata_spec(),
    {
        if self.enabled_sharding {
            &self.state_kv_db_shards[shard_id as usize]
        } else {
            &self.state_kv_metadata_db
        }
    }

    /// Whether the store runs in sharded mode.
    pub fn enabled_sharding(&self) -> (r: bool)
        ensures
            r == self.enabled_sharding_spec(),
    {
        self.enabled_sharding
    }

    /// The number of shard slots.
    pub fn num_shards(&self) -> (r: u8)
        ensures
            r as int == NUM_STATE_SHARDS,
    {
        16
    }

    /// The stable on-disk directory of shard `shard_id`:
    /// `state_kv_db/shard_<id>`.
    pub fn db_shard_path(shard_id: u8) -> (r: String)
        ensures
            r@ == "state_kv_db/shard_"@ + decimal_digits(shard_id as nat),
    {
        let mut path = String::from_str("state_kv_db/shard_");
        push_decimal(&mut path, shard_id as u64);
        path
    }

    /// The stable on-disk directory of the metadata store:
    /// `state_kv_db/metadata`.
    pub fn metadata_db_path() -> (r: String)
        ensures
            r@ == "state_kv_db/metadata"@,
    {
        String::from_str("state_kv_db/metadata")
    }
}

} // verus!
