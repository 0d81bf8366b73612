//! Background pruning of historical versioned data.
//!
//! A [`SubPruner`] binds one durable progress marker to one physical store
//! and deletes that store's records over half-open version ranges,
//! idempotently. The [`LedgerPruner`] orchestrator owns the fixed set of
//! sub-pruners (headed by the ledger-metadata sub-pruner), drives them in
//! bounded batches towards an externally supplied target version, and
//! records its own progress only at whole-batch boundaries.

use vstd::prelude::*;

use crate::store::{prune_data_map, MetaKey, Store};
use crate::Version;

verus! {

/// The larger of two versions.
pub open spec fn max_version(a: Version, b: Version) -> Version {
    if a >= b {
        a
    } else {
        b
    }
}

/// The pruner progress marker recorded in `m`, taken as 0 when the store has
/// never recorded one.
pub open spec fn marker_of(m: Map<MetaKey, u64>) -> Version {
    if m.dom().contains(MetaKey::PrunerProgress) {
        m[MetaKey::PrunerProgress]
    } else {
        0
    }
}

/// The progress reached by one batch: from `progress`, at most
/// `max_versions` further, never past `target`.
pub open spec fn batch_target(progress: Version, max_versions: u64, target: Version) -> Version {
    if progress >= target {
        progress
    } else if progress + max_versions <= target {
        (progress + max_versions) as Version
    } else {
        target
    }
}

/// The fixed set of logical stores pruned together, each over its own
/// disjoint physical store.
#[derive(Clone, Copy, Debug, PartialEq, Eq, Structural)]
pub enum SubPrunerKind {
    LedgerMetadata,
    EventStore,
    TransactionAccumulator,
    TransactionInfo,
    Transaction,
    WriteSet,
}

/// One sub-pruner: a durable progress marker bound to one physical store,
/// stateless otherwise.
pub struct SubPruner {
    kind: SubPrunerKind,
    store: Store,
}

impl SubPruner {
    /// The records of the underlying store.
    pub closed spec fn data_view(self) -> Map<(u64, u64), u64> {
        self.store.data_view()
    }

    /// The markers of the underlying store.
    pub closed spec fn meta_view(self) -> Map<MetaKey, u64> {
        self.store.meta_view()
    }

    /// The durably persisted progress marker.
    pub closed spec fn progress_spec(self) -> Version {
        marker_of(self.store.meta_view())
    }

    pub closed spec fn wf(self) -> bool {
        self.store.wf()
    }

    pub closed spec fn kind_spec(self) -> SubPrunerKind {
        self.kind
    }

    /// Binds a sub-pruner to its store, initializing the progress marker to
    /// 0 when the store has never recorded one.
    pub fn new(kind: SubPrunerKind, store: Store) -> (p: SubPruner)
        requires
            store.wf(),
        ensures
            p.wf(),
            p.kind_spec() == kind,
            p.data_view() == store.data_view(),
            p.progress_spec() == marker_of(store.meta_view()),
            p.meta_view() == store.meta_view().insert(
                MetaKey::PrunerProgress,
                marker_of(store.meta_view()),
            ),
    {
        let mut store = store;
        let current = store.get_meta(MetaKey::PrunerProgress);
        match current {
            Some(v) => {
                store.put_meta(MetaKey::PrunerProgress, v);
            },
            None => {
                store.put_meta(MetaKey::PrunerProgress, 0);
            },
        }
        SubPruner { kind, store }
    }

    /// Removes all records with versions in `[start, end)` from this store
    /// and advances the durable progress marker to `end` (never backwards).
    /// Re-invoking on a range already fully pruned deletes nothing and is
    /// never an error, so a failed batch can be retried with the same range.
    pub fn prune(&mut self, start: Version, end: Version)
        requires
            old(self).wf(),
        ensures
            final(self).wf(),
            final(self).kind_spec() == old(self).kind_spec(),
            final(self).data_view() == prune_data_map(old(self).data_view(), start, end),
            final(self).progress_spec() == max_version(old(self).progress_spec(), end),
            final(self).meta_view() == old(self).meta_view().insert(
                MetaKey::PrunerProgress,
                max_version(old(self).progress_spec(), end),
            ),
    {
        self.store.delete_version_range(start, end);
        let current = self.store.get_meta(MetaKey::PrunerProgress);
        let recorded: Version = match current {
            Some(v) => if v >= end {
                v
            } else {
                end
            },
            None => end,
        };
        self.store.put_meta(MetaKey::PrunerProgress, recorded);
    }

    /// Reads one record of the underlying store.
    pub fn get(&self, key: u64, version: u64) -> (r: Option<u64>)
        requires
            self.wf(),
        ensures
            r == if self.data_view().dom().contains((key, version)) {
                Some(self.data_view()[(key, version)])
            } else {
                None::<u64>
            },
    {
        self.store.get(key, version)
    }

    /// Returns the durably persisted progress marker; the orchestrator reads
    /// it only at construction time to compute the shared starting baseline.
    pub fn progress(&self) -> (v: Version)
        requires
            self.wf(),
        ensures
            v == self.progress_spec(),
    {
        match self.store.get_meta(MetaKey::PrunerProgress) {
            Some(v) => v,
            None => 0,
        }
    }
}

/// Orchestrates batched pruning of the ledger stores: everything except the
/// state tree.
///
/// The orchestrator owns the target and progress markers and the fixed set
/// of sub-pruners, headed by the ledger-metadata sub-pruner. Exactly one
/// driver calls [`LedgerPruner::prune`] at a time; the `&mut` receiver makes
/// the caller serialize invocations.
pub struct LedgerPruner {
    /// The version up to which the pruner is currently permitted to prune.
    target_version: Version,
    /// The last version fully pruned; advances only in whole batches.
    progress: Version,
    ledger_metadata_pruner: SubPruner,
    sub_pruners: Vec<SubPruner>,
}

impl LedgerPruner {
    /// The version up to which pruning is currently permitted.
    pub closed spec fn target_spec(self) -> Version {
        self.target_version
    }

    /// The last version fully pruned.
    pub closed spec fn progress_spec(self) -> Version {
        self.progress
    }

    /// The designated metadata sub-pruner, pruned first in every batch.
    pub closed spec fn metadata_pruner_spec(self) -> SubPruner {
        self.ledger_metadata_pruner
    }

    /// The remaining sub-pruners, pruned after the metadata sub-pruner over
    /// the same range; they own disjoint stores, so their order is
    /// irrelevant.
    pub closed spec fn sub_pruners_view(self) -> Seq<SubPruner> {
        self.sub_pruners@
    }

    /// Progress never exceeds the target, and every sub-pruner's store is
    /// well-formed.
    pub closed spec fn wf(self) -> bool {
        &&& self.progress <= self.target_version
        &&& self.ledger_metadata_pruner.wf()
        &&& forall|i: int|
            0 <= i < self.sub_pruners@.len() ==> (#[trigger] self.sub_pruners@[i]).wf()
    }

    /// Creates the orchestrator over the six disjoint ledger stores.
    ///
    /// All sub-pruners start from one consistent baseline: the progress
    /// durably recorded by the designated metadata sub-pruner. A sub-pruner
    /// whose own marker lags the baseline catches up by pruning the gap at
    /// construction time.
    pub fn new(
        ledger_metadata_store: Store,
        event_store: Store,
        transaction_accumulator_store: Store,
        transaction_info_store: Store,
        transaction_store: Store,
        write_set_store: Store,
    ) -> (p: LedgerPruner)
        requires
            ledger_metadata_store.wf(),
            event_store.wf(),
            transaction_accumulator_store.wf(),
            transaction_info_store.wf(),
            transaction_store.wf(),
            write_set_store.wf(),
        ensures
            p.wf(),
            p.progress_spec() == marker_of(ledger_metadata_store.meta_view()),
            p.target_spec() == p.progress_spec(),
            p.metadata_pruner_spec().data_view() == ledger_metadata_store.data_view(),
            p.metadata_pruner_spec().progress_spec() == p.progress_spec(),
            p.sub_pruners_view().len() == 5,
            p.sub_pruners_view()[0].data_view() == prune_data_map(
                event_store.data_view(),
                marker_of(event_store.meta_view()),
                p.progress_spec(),
            ),
            p.sub_pruners_view()[1].data_view() == prune_data_map(
                transaction_accumulator_store.data_view(),
                marker_of(transaction_accumulator_store.meta_view()),
                p.progress_spec(),
            ),
            p.sub_pruners_view()[2].data_view() == prune_data_map(
                transaction_info_store.data_view(),
                marker_of(transaction_info_store.meta_view()),
                p.progress_spec(),
            ),
            p.sub_pruners_view()[3].data_view() == prune_data_map(
                transaction_store.data_view(),
                marker_of(transaction_store.meta_view()),
                p.progress_spec(),
            ),
            p.sub_pruners_view()[4].data_view() == prune_data_map(
                write_set_store.data_view(),
                marker_of(write_set_store.meta_view()),
                p.progress_spec(),
            ),
            forall|i: int|
                0 <= i < 5 ==> (#[trigger] p.sub_pruners_view()[i]).progress_spec()
                    >= p.progress_spec(),
    {
        let ledger_metadata_pruner = SubPruner::new(
            SubPrunerKind::LedgerMetadata,
            ledger_metadata_store,
        );
        let metadata_progress = ledger_metadata_pruner.progress();

        let mut event_store_pruner = SubPruner::new(SubPrunerKind::EventStore, event_store);
        let from = event_store_pruner.progress();
        event_store_pruner.prune(from, metadata_progress);

        let mut transaction_accumulator_pruner = SubPruner::new(
            SubPrunerKind::TransactionAccumulator,
            transaction_accumulator_store,
        );
        let from = transaction_accumulator_pruner.progress();
        transaction_accumulator_pruner.prune(from, metadata_progress);

        let mut transaction_info_pruner = SubPruner::new(
            SubPrunerKind::TransactionInfo,
            transaction_info_store,
        );
        let from = transaction_info_pruner.progress();
        transaction_info_pruner.prune(from, metadata_progress);

        let mut transaction_pruner = SubPruner::new(SubPrunerKind::Transaction, transaction_store);
        let from = transaction_pruner.progress();
        transaction_pruner.prune(from, metadata_progress);

        let mut write_set_pruner = SubPruner::new(SubPrunerKind::WriteSet, write_set_store);
        let from = write_set_pruner.progress();
        write_set_pruner.prune(from, metadata_progress);

        let mut sub_pruners: Vec<SubPruner> = Vec::new();
        sub_pruners.push(event_store_pruner);
        sub_pruners.push(transaction_accumulator_pruner);
        sub_pruners.push(transaction_info_pruner);
        sub_pruners.push(transaction_pruner);
        sub_pruners.push(write_set_pruner);

        LedgerPruner {
            target_version: metadata_progress,
            progress: metadata_progress,
            ledger_metadata_pruner,
            sub_pruners,
        }
    }

    /// The name of this pruner category.
    pub fn name(&self) -> (r: &'static str)
        ensures
            r@ == "ledger_pruner"@,
    {
        "ledger_pruner"
    }

    /// The last version fully pruned. Always safe to read; only the single
    /// driver of `prune` writes it.
    pub fn progress(&self) -> (v: Version)
        ensures
            v == self.progress_spec(),
    {
        self.progress
    }

    /// The version up to which pruning is currently permitted.
    pub fn target_version(&self) -> (v: Version)
        ensures
            v == self.target_spec(),
    {
        self.target_version
    }

    /// The designated metadata sub-pruner.
    pub fn metadata_pruner(&self) -> (r: &SubPruner)
        ensures
            *r == self.metadata_pruner_spec(),
    {
        &self.ledger_metadata_pruner
    }

    /// One of the non-metadata sub-pruners, by position.
    pub fn sub_pruner(&self, index: usize) -> (r: &SubPruner)
        requires
            index < self.sub_pruners_view().len(),
        ensures
            *r == self.sub_pruners_view()[index as int],
    {
        &self.sub_pruners[index]
    }

    /// Stores a new target version. Does not itself trigger any pruning
    /// work; the periodic driver picks the new target up on its next call.
    ///
    /// The target never moves backwards: a value below the current target is
    /// clamped to it, so `progress <= target_version` keeps holding.
    pub fn set_target_version(&mut self, target_version: Version)
        requires
            old(self).wf(),
        ensures
            final(self).wf(),
            final(self).target_spec() == max_version(old(self).target_spec(), target_version),
            final(self).progress_spec() == old(self).progress_spec(),
            final(self).metadata_pruner_spec() == old(self).metadata_pruner_spec(),
            final(self).sub_pruners_view() == old(self).sub_pruners_view(),
    {
        if target_version > self.target_version {
            self.target_version = target_version;
        }
    }

    /// Durably records progress at a whole-batch boundary.
    pub fn record_progress(&mut self, progress: Version)
        requires
            old(self).wf(),
            old(self).progress_spec() <= progress <= old(self).target_spec(),
        ensures
            final(self).wf(),
            final(self).progress_spec() == progress,
            final(self).target_spec() == old(self).target_spec(),
            final(self).metadata_pruner_spec() == old(self).metadata_pruner_spec(),
            final(self).sub_pruners_view() == old(self).sub_pruners_view(),
    {
        self.progress = progress;
    }

    /// Prunes one bounded batch: at most `max_versions` versions starting at
    /// the current progress, never past the target. Progress is recorded
    /// only after every sub-pruner has finished the whole range, so it is
    /// non-decreasing and advances only in whole batches. A bound of zero
    /// would never advance, so callers pass at least one.
    #[verifier::loop_isolation(false)]
    pub fn prune_batch(&mut self, max_versions: usize) -> (reached: Version)
        requires
            old(self).wf(),
            max_versions >= 1,
        ensures
            final(self).wf(),
            reached == final(self).progress_spec(),
            final(self).target_spec() == old(self).target_spec(),
            final(self).progress_spec() == batch_target(
                old(self).progress_spec(),
                max_versions as u64,
                old(self).target_spec(),
            ),
            final(self).progress_spec() >= old(self).progress_spec(),
            final(self).sub_pruners_view().len() == old(self).sub_pruners_view().len(),
            final(self).metadata_pruner_spec().data_view() == prune_data_map(
                old(self).metadata_pruner_spec().data_view(),
                old(self).progress_spec(),
                final(self).progress_spec(),
            ),
            forall|j: int|
                0 <= j < old(self).sub_pruners_view().len()
                    ==> (#[trigger] final(self).sub_pruners_view()[j]).data_view()
                    == prune_data_map(
                    old(self).sub_pruners_view()[j].data_view(),
                    old(self).progress_spec(),
                    final(self).progress_spec(),
                ),
            old(self).progress_spec() < old(self).target_spec() ==> {
                &&& final(self).metadata_pruner_spec().progress_spec() == max_version(
                    old(self).metadata_pruner_spec().progress_spec(),
                    final(self).progress_spec(),
                )
                &&& forall|j: int|
                    0 <= j < old(self).sub_pruners_view().len()
                        ==> (#[trigger] final(self).sub_pruners_view()[j]).progress_spec()
                        == max_version(
                        old(self).sub_pruners_view()[j].progress_spec(),
                        final(self).progress_spec(),
                    )
            },
            old(self).progress_spec() >= old(self).target_spec() ==> *final(self) == *old(self),
    {
        if self.progress >= self.target_version {
            return self.progress;
        }
        let start = self.progress;
        let max64 = max_versions as u64;
        let remaining = self.target_version - self.progress;
        let batch_end = if remaining > max64 {
            self.progress + max64
        } else {
            self.target_version
        };

        self.ledger_metadata_pruner.prune(start, batch_end);

        let ghost subs0 = old(self).sub_pruners_view();
        let ghost md1 = self.ledger_metadata_pruner;
        let mut i: usize = 0;
        while i < self.sub_pruners.len()
            invariant
                i <= subs0.len(),
                self.sub_pruners@.len() == subs0.len(),
                self.progress == old(self).progress_spec(),
                self.target_version == old(self).target_spec(),
                self.ledger_metadata_pruner == md1,
                forall|j: int|
                    0 <= j < i ==> (#[trigger] self.sub_pruners@[j]).data_view() == prune_data_map(
                        subs0[j].data_view(),
                        start,
                        batch_end,
                    ),
                forall|j: int|
                    0 <= j < i ==> (#[trigger] self.sub_pruners@[j]).progress_spec() == max_version(
                        subs0[j].progress_spec(),
                        batch_end,
                    ),
                forall|j: int| 0 <= j < i ==> (#[trigger] self.sub_pruners@[j]).wf(),
                forall|j: int| i <= j < subs0.len() ==> self.sub_pruners@[j] == subs0[j],
            decreases subs0.len() - i,
        {
            proof {
                assert(self.sub_pruners@[i as int] == subs0[i as int]);
                assert((old(self).sub_pruners_view()[i as int]).wf());
            }
            self.sub_pruners[i].prune(start, batch_end);
            i = i + 1;
        }

        self.record_progress(batch_end);
        batch_end
    }

    /// Prunes batch by batch until progress reaches the target version
    /// observed over the whole call, and returns it. On return, every store
    /// holds no record with a version in `[old progress, target)`.
    #[verifier::loop_isolation(false)]
    pub fn prune(&mut self, max_versions: usize) -> (v: Version)
        requires
            old(self).wf(),
            max_versions >= 1,
        ensures
            final(self).wf(),
            v == old(self).target_spec(),
            final(self).target_spec() == old(self).target_spec(),
            final(self).progress_spec() == old(self).target_spec(),
            final(self).progress_spec() >= old(self).progress_spec(),
            final(self).sub_pruners_view().len() == old(self).sub_pruners_view().len(),
            final(self).metadata_pruner_spec().data_view() == prune_data_map(
                old(self).metadata_pruner_spec().data_view(),
                old(self).progress_spec(),
                old(self).target_spec(),
            ),
            forall|j: int|
                0 <= j < old(self).sub_pruners_view().len()
                    ==> (#[trigger] final(self).sub_pruners_view()[j]).data_view()
                    == prune_data_map(
                    old(self).sub_pruners_view()[j].data_view(),
                    old(self).progress_spec(),
                    old(self).target_spec(),
                ),
            old(self).progress_spec() < old(self).target_spec() ==> {
                &&& final(self).metadata_pruner_spec().progress_spec() == max_version(
                    old(self).metadata_pruner_spec().progress_spec(),
                    old(self).target_spec(),
                )
                &&& forall|j: int|
                    0 <= j < old(self).sub_pruners_view().len()
                        ==> (#[trigger] final(self).sub_pruners_view()[j]).progress_spec()
                        == max_version(
                        old(self).sub_pruners_view()[j].progress_spec(),
                        old(self).target_spec(),
                    )
            },
            old(self).progress_spec() == old(self).target_spec() ==> *final(self) == *old(self),
    {
        while self.progress < self.target_version
            invariant
                self.wf(),
                self.target_version == old(self).target_spec(),
                old(self).progress_spec() <= self.progress,
                self.sub_pruners@.len() == old(self).sub_pruners_view().len(),
                self.ledger_metadata_pruner.data_view() == prune_data_map(
                    old(self).metadata_pruner_spec().data_view(),
                    old(self).progress_spec(),
                    self.progress,
                ),
                forall|j: int|
                    0 <= j < self.sub_pruners@.len() ==> (#[trigger] self.sub_pruners@[j]).data_view()
                        == prune_data_map(
                        old(self).sub_pruners_view()[j].data_view(),
                        old(self).progress_spec(),
                        self.progress,
                    ),
                self.progress == old(self).progress_spec() ==> *self == *old(self),
                self.progress > old(self).progress_spec() ==> {
                    &&& self.ledger_metadata_pruner.progress_spec() == max_version(
                        old(self).metadata_pruner_spec().progress_spec(),
                        self.progress,
                    )
                    &&& forall|j: int|
                        0 <= j < self.sub_pruners@.len()
                            ==> (#[trigger] self.sub_pruners@[j]).progress_spec() == max_version(
                            old(self).sub_pruners_view()[j].progress_spec(),
                            self.progress,
                        )
                },
            decreases self.target_version - self.progress,
        {
            let ghost p1 = self.progress;
            self.prune_batch(max_versions);
            proof {
                lemma_prune_compose(
                    old(self).metadata_pruner_spec().data_view(),
                    old(self).progress_spec(),
                    p1,
                    self.progress,
                );
                assert forall|j: int| 0 <= j < self.sub_pruners@.len() implies (
                #[trigger] self.sub_pruners@[j]).data_view() == prune_data_map(
                    old(self).sub_pruners_view()[j].data_view(),
                    old(self).progress_spec(),
                    self.progress,
                ) by {
                    lemma_prune_compose(
                        old(self).sub_pruners_view()[j].data_view(),
                        old(self).progress_spec(),
                        p1,
                        self.progress,
                    );
                }
            }
        }
        self.target_version
    }
}

/// The progress reached after `n` repeated bounded batches that start at
/// `progress` and drive towards `target`: what `n` calls of
/// [`LedgerPruner::prune_batch`] record.
pub open spec fn iterate_batches(progress: Version, max_versions: u64, target: Version, n: nat) -> Version
    decreases n,
{
    if n == 0 {
        progress
    } else {
        batch_target(iterate_batches(progress, max_versions, target, (n - 1) as nat), max_versions, target)
    }
}

/// Batch stepping: when the target stands exactly `k` whole batches ahead of
/// the starting progress, each of the first `k` batches advances progress by
/// exactly `max_versions`, and the `k`-th one lands exactly on the target.
pub proof fn lemma_batch_stepping(progress: Version, max_versions: u64, k: nat, n: nat)
    requires
        max_versions >= 1,
        k >= 1,
        progress + k * max_versions <= u64::MAX,
        n <= k,
    ensures
        iterate_batches(progress, max_versions, (progress + k * max_versions) as Version, n)
            == progress + n * max_versions,
    decreases n,
{
    let m = max_versions as int;
    assert(0 * m == 0) by (nonlinear_arith);
    if n > 0 {
        lemma_batch_stepping(progress, max_versions, k, (n - 1) as nat);
        assert((n - 1) * m + m == n * m) by (nonlinear_arith);
        assert(n * m <= k * m) by (nonlinear_arith)
            requires
                n <= k,
                m >= 0,
        ;
    }
}

/// Pruning one range twice leaves the store exactly as pruning it once:
/// the records pruned of the range once are pruned of it already, and the
/// progress marker a second invocation records is the one already standing.
/// A retry of a partially failed batch is therefore harmless.
pub proof fn lemma_prune_idempotent(
    d: Map<(u64, u64), u64>,
    meta: Map<MetaKey, u64>,
    start: Version,
    end: Version,
)
    ensures
        prune_data_map(prune_data_map(d, start, end), start, end) == prune_data_map(d, start, end),
        ({
            let once = meta.insert(MetaKey::PrunerProgress, max_version(marker_of(meta), end));
            once.insert(MetaKey::PrunerProgress, max_version(marker_of(once), end)) == once
        }),
{
    assert(prune_data_map(prune_data_map(d, start, end), start, end) =~= prune_data_map(
        d,
        start,
        end,
    ));
    let once = meta.insert(MetaKey::PrunerProgress, max_version(marker_of(meta), end));
    assert(once.insert(MetaKey::PrunerProgress, max_version(marker_of(once), end)) =~= once);
}

/// Pruning two adjacent ranges one after the other prunes their union: the
/// orchestrator's whole-batch steps compose.
pub proof fn lemma_prune_compose(d: Map<(u64, u64), u64>, lo: Version, mid: Version, hi: Version)
    requires
        lo <= mid <= hi,
    ensures
        prune_data_map(prune_data_map(d, lo, mid), mid, hi) == prune_data_map(d, lo, hi),
{
    assert(prune_data_map(prune_data_map(d, lo, mid), mid, hi) =~= prune_data_map(d, lo, hi));
}

} // verus!
