//! An in-memory model of one physical ordered key-value store.
//!
//! A [`Store`] holds version-tagged data records together with durable
//! metadata markers (commit and pruner progress). It offers point reads and
//! writes, atomic multi-key batch writes, deletion of whole version ranges
//! (the primitive behind pruning), truncation (the primitive behind crash
//! recovery) and checkpointing (an independent copy).

use vstd::prelude::*;

verus! {

/// A logical metadata key, mapping to a version each.
#[derive(Clone, Copy, Debug, PartialEq, Eq, Structural)]
pub enum MetaKey {
    /// The last version whose multi-shard commit fully finished.
    OverallCommitProgress,
    /// The last version a single shard has committed, embedded atomically
    /// with that shard's data writes.
    ShardCommitProgress(u8),
    /// The last version up to which this store has been pruned.
    PrunerProgress,
}

/// One version-tagged data record.
#[derive(Clone, Copy, Debug, PartialEq, Eq, Structural)]
pub struct DataEntry {
    pub key: u64,
    pub version: u64,
    pub value: u64,
}

/// One durable metadata marker.
#[derive(Clone, Copy, Debug, PartialEq, Eq, Structural)]
pub struct MetaEntry {
    pub key: MetaKey,
    pub version: u64,
}

impl DataEntry {
    /// The lookup key of a data record: its key together with the version tag.
    pub open spec fn ident(self) -> (u64, u64) {
        (self.key, self.version)
    }
}

/// The data records of a store, as a map from (key, version) to value.
pub open spec fn data_map_of(s: Seq<DataEntry>) -> Map<(u64, u64), u64>
    decreases s.len(),
{
    if s.len() == 0 {
        Map::empty()
    } else {
        data_map_of(s.drop_last()).insert(s.last().ident(), s.last().value)
    }
}

/// The metadata markers of a store, as a map from key to version.
pub open spec fn meta_map_of(s: Seq<MetaEntry>) -> Map<MetaKey, u64>
    decreases s.len(),
{
    if s.len() == 0 {
        Map::empty()
    } else {
        meta_map_of(s.drop_last()).insert(s.last().key, s.last().version)
    }
}

/// No two records share a lookup key.
pub open spec fn distinct_data(s: Seq<DataEntry>) -> bool {
    forall|i: int, j: int| 0 <= i < j < s.len() ==> s[i].ident() != s[j].ident()
}

/// No two markers share a key.
pub open spec fn distinct_meta(s: Seq<MetaEntry>) -> bool {
    forall|i: int, j: int| 0 <= i < j < s.len() ==> s[i].key != s[j].key
}

/// The records of `m` whose version lies outside the half-open range
/// `[start, end)`: what a store holds after pruning that range.
pub open spec fn prune_data_map(m: Map<(u64, u64), u64>, start: u64, end: u64) -> Map<
    (u64, u64),
    u64,
> {
    Map::new(|k: (u64, u64)| m.dom().contains(k) && !(start <= k.1 < end), |k: (u64, u64)| m[k])
}

/// The records of `m` with version at most `limit`: what a store holds after
/// being truncated back down to `limit`.
pub open spec fn truncate_data_map(m: Map<(u64, u64), u64>, limit: u64) -> Map<(u64, u64), u64> {
    Map::new(|k: (u64, u64)| m.dom().contains(k) && k.1 <= limit, |k: (u64, u64)| m[k])
}

pub proof fn lemma_data_take_step(s: Seq<DataEntry>, i: int)
    requires
        0 <= i < s.len(),
    ensures
        data_map_of(s.take(i + 1)) == data_map_of(s.take(i)).insert(s[i].ident(), s[i].value),
{
    assert(s.take(i + 1).drop_last() =~= s.take(i));
    assert(s.take(i + 1).last() == s[i]);
}

pub proof fn lemma_meta_take_step(s: Seq<MetaEntry>, i: int)
    requires
        0 <= i < s.len(),
    ensures
        meta_map_of(s.take(i + 1)) == meta_map_of(s.take(i)).insert(s[i].key, s[i].version),
{
    assert(s.take(i + 1).drop_last() =~= s.take(i));
    assert(s.take(i + 1).last() == s[i]);
}

/// A record map contains a lookup key exactly when some record carries it.
pub proof fn lemma_data_contains(s: Seq<DataEntry>, k: (u64, u64))
    ensures
        data_map_of(s).dom().contains(k) <==> exists|i: int| 0 <= i < s.len() && s[i].ident() == k,
    decreases s.len(),
{
    if s.len() > 0 {
        lemma_data_contains(s.drop_last(), k);
        if s.last().ident() == k {
            assert(s[s.len() - 1].ident() == k);
        } else if data_map_of(s).dom().contains(k) {
            let i = choose|i: int| 0 <= i < s.len() - 1 && s.drop_last()[i].ident() == k;
            assert(s[i].ident() == k);
        } else if exists|i: int| 0 <= i < s.len() && s[i].ident() == k {
            let i = choose|i: int| 0 <= i < s.len() && s[i].ident() == k;
            assert(i < s.len() - 1 && s.drop_last()[i].ident() == k);
        }
    }
}

/// A marker map contains a key exactly when some marker carries it.
pub proof fn lemma_meta_contains(s: Seq<MetaEntry>, k: MetaKey)
    ensures
        meta_map_of(s).dom().contains(k) <==> exists|i: int| 0 <= i < s.len() && s[i].key == k,
    decreases s.len(),
{
    if s.len() > 0 {
        lemma_meta_contains(s.drop_last(), k);
        if s.last().key == k {
            assert(s[s.len() - 1].key == k);
        } else if meta_map_of(s).dom().contains(k) {
            let i = choose|i: int| 0 <= i < s.len() - 1 && s.drop_last()[i].key == k;
            assert(s[i].key == k);
        } else if exists|i: int| 0 <= i < s.len() && s[i].key == k {
            let i = choose|i: int| 0 <= i < s.len() && s[i].key == k;
            assert(i < s.len() - 1 && s.drop_last()[i].key == k);
        }
    }
}

/// With distinct lookup keys, the record map sends each record's key to its
/// value.
pub proof fn lemma_data_index(s: Seq<DataEntry>, i: int)
    requires
        distinct_data(s),
        0 <= i < s.len(),
    ensures
        data_map_of(s).dom().contains(s[i].ident()),
        data_map_of(s)[s[i].ident()] == s[i].value,
    decreases s.len(),
{
    if i < s.len() - 1 {
        assert(distinct_data(s.drop_last())) by {
            assert(forall|x: int, y: int|
                0 <= x < y < s.len() - 1 ==> s.drop_last()[x] == s[x] && s.drop_last()[y] == s[y]);
        }
        assert(s.drop_last()[i] == s[i]);
        lemma_data_index(s.drop_last(), i);
        assert(s.last().ident() != s[i].ident());
    }
}

/// With distinct keys, the marker map sends each marker's key to its version.
pub proof fn lemma_meta_index(s: Seq<MetaEntry>, i: int)
    requires
        distinct_meta(s),
        0 <= i < s.len(),
    ensures
        meta_map_of(s).dom().contains(s[i].key),
        meta_map_of(s)[s[i].key] == s[i].version,
    decreases s.len(),
{
    if i < s.len() - 1 {
        assert(distinct_meta(s.drop_last())) by {
            assert(forall|x: int, y: int|
                0 <= x < y < s.len() - 1 ==> s.drop_last()[x] == s[x] && s.drop_last()[y] == s[y]);
        }
        assert(s.drop_last()[i] == s[i]);
        lemma_meta_index(s.drop_last(), i);
        assert(s.last().key != s[i].key);
    }
}

/// One write of an atomic batch.
#[derive(Clone, Copy, Debug, PartialEq, Eq, Structural)]
pub enum WriteOp {
    /// Insert or overwrite one version-tagged record.
    PutData { key: u64, version: u64, value: u64 },
    /// Remove one version-tagged record, if present.
    DeleteData { key: u64, version: u64 },
    /// Insert or overwrite one metadata marker.
    PutMeta { meta_key: MetaKey, version: u64 },
}

/// The data records after applying the writes of `ops`, in order, to `m`.
pub open spec fn apply_ops_data(m: Map<(u64, u64), u64>, ops: Seq<WriteOp>) -> Map<(u64, u64), u64>
    decreases ops.len(),
{
    if ops.len() == 0 {
        m
    } else {
        let prior = apply_ops_data(m, ops.drop_last());
        match ops.last() {
            WriteOp::PutData { key, version, value } => prior.insert((key, version), value),
            WriteOp::DeleteData { key, version } => prior.remove((key, version)),
            WriteOp::PutMeta { .. } => prior,
        }
    }
}

/// The metadata markers after applying the writes of `ops`, in order, to `m`.
pub open spec fn apply_ops_meta(m: Map<MetaKey, u64>, ops: Seq<WriteOp>) -> Map<MetaKey, u64>
    decreases ops.len(),
{
    if ops.len() == 0 {
        m
    } else {
        let prior = apply_ops_meta(m, ops.drop_last());
        match ops.last() {
            WriteOp::PutMeta { meta_key, version } => prior.insert(meta_key, version),
            _ => prior,
        }
    }
}

/// An atomic multi-key batch of writes: the store applies either all of its
/// writes or none of them.
pub struct SchemaBatch {
    ops: Vec<WriteOp>,
}

impl SchemaBatch {
    /// The writes of this batch, in application order.
    pub closed spec fn ops_view(self) -> Seq<WriteOp> {
        self.ops@
    }

    /// Creates an empty batch.
    pub fn new() -> (b: SchemaBatch)
        ensures
            b.ops_view() == Seq::<WriteOp>::empty(),
    {
        SchemaBatch { ops: Vec::new() }
    }

    /// Schedules an insert-or-overwrite of one record.
    pub fn put(&mut self, key: u64, version: u64, value: u64)
        ensures
            final(self).ops_view() == old(self).ops_view().push(
                WriteOp::PutData { key, version, value },
            ),
    {
        self.ops.push(WriteOp::PutData { key, version, value });
    }

    /// Schedules a removal of one record.
    pub fn delete(&mut self, key: u64, version: u64)
        ensures
            final(self).ops_view() == old(self).ops_view().push(WriteOp::DeleteData { key, version }),
    {
        self.ops.push(WriteOp::DeleteData { key, version });
    }

    /// Schedules an insert-or-overwrite of one metadata marker.
    pub fn put_meta(&mut self, key: MetaKey, version: u64)
        ensures
            final(self).ops_view() == old(self).ops_view().push(
                WriteOp::PutMeta { meta_key: key, version },
            ),
    {
        self.ops.push(WriteOp::PutMeta { meta_key: key, version });
    }
}

/// One independent physical store.
pub struct Store {
    data: Vec<DataEntry>,
    meta: Vec<MetaEntry>,
}

impl Store {
    /// The data records, as a map from (key, version) to value.
    pub closed spec fn data_view(self) -> Map<(u64, u64), u64> {
        data_map_of(self.data@)
    }

    /// The metadata markers, as a map from key to version.
    pub closed spec fn meta_view(self) -> Map<MetaKey, u64> {
        meta_map_of(self.meta@)
    }

    /// Internal representation invariant: lookup keys are unique.
    pub closed spec fn wf(self) -> bool {
        distinct_data(self.data@) && distinct_meta(self.meta@)
    }

    /// Creates an empty store.
    pub fn new() -> (s: Store)
        ensures
            s.wf(),
            s.data_view() == Map::<(u64, u64), u64>::empty(),
            s.meta_view() == Map::<MetaKey, u64>::empty(),
    {
        Store { data: Vec::new(), meta: Vec::new() }
    }

    /// Inserts or overwrites one version-tagged record.
    #[verifier::loop_isolation(false)]
    pub fn put(&mut self, key: u64, version: u64, value: u64)
        requires
            old(self).wf(),
        ensures
            final(self).wf(),
            final(self).data_view() == old(self).data_view().insert((key, version), value),
            final(self).meta_view() == old(self).meta_view(),
    {
        let ghost orig = self.data@;
        let ghost k = (key, version);
        let mut kept: Vec<DataEntry> = Vec::new();
        let mut i: usize = 0;
        while i < self.data.len()
            invariant
                i <= orig.len(),
                distinct_data(kept@),
                forall|j: int| 0 <= j < kept@.len() ==> kept@[j].ident() != k,
                data_map_of(kept@) == data_map_of(orig.take(i as int)).remove(k),
            decreases orig.len() - i,
        {
            let e = self.data[i];
            proof {
                lemma_data_take_step(orig, i as int);
                lemma_data_contains(kept@, e.ident());
                lemma_data_contains(orig.take(i as int), e.ident());
            }
            if !(e.key == key && e.version == version) {
                let ghost prev = kept@;
                kept.push(e);
                proof {
                    assert(kept@.drop_last() =~= prev);
                    assert(data_map_of(kept@) =~= data_map_of(orig.take(i + 1)).remove(k));
                }
            } else {
                proof {
                    assert(data_map_of(kept@) =~= data_map_of(orig.take(i + 1)).remove(k));
                }
            }
            i = i + 1;
        }
        proof {
            assert(orig.take(orig.len() as int) =~= orig);
        }
        let ghost prev = kept@;
        kept.push(DataEntry { key, version, value });
        proof {
            assert(kept@.drop_last() =~= prev);
            assert(data_map_of(kept@) =~= data_map_of(orig).insert(k, value));
        }
        self.data = kept;
    }

    /// Reads the value of one version-tagged record, if present.
    #[verifier::loop_isolation(false)]
    pub fn get(&self, key: u64, version: u64) -> (r: Option<u64>)
        requires
            self.wf(),
        ensures
            r == if self.data_view().dom().contains((key, version)) {
                Some(self.data_view()[(key, version)])
            } else {
                None::<u64>
            },
    {
        let ghost k = (key, version);
        let mut i: usize = 0;
        while i < self.data.len()
            invariant
                i <= self.data@.len(),
                forall|j: int| 0 <= j < i ==> self.data@[j].ident() != k,
            decreases self.data@.len() - i,
        {
            let e = self.data[i];
            if e.key == key && e.version == version {
                proof {
                    lemma_data_index(self.data@, i as int);
                }
                return Some(e.value);
            }
            i = i + 1;
        }
        proof {
            lemma_data_contains(self.data@, k);
        }
        None
    }

    /// Removes one version-tagged record, if present.
    #[verifier::loop_isolation(false)]
    pub fn delete(&mut self, key: u64, version: u64)
        requires
            old(self).wf(),
        ensures
            final(self).wf(),
            final(self).data_view() == old(self).data_view().remove((key, version)),
            final(self).meta_view() == old(self).meta_view(),
    {
        let ghost orig = self.data@;
        let ghost k = (key, version);
        let mut kept: Vec<DataEntry> = Vec::new();
        let mut i: usize = 0;
        while i < self.data.len()
            invariant
                i <= orig.len(),
                distinct_data(kept@),
                forall|j: int| 0 <= j < kept@.len() ==> kept@[j].ident() != k,
                data_map_of(kept@) == data_map_of(orig.take(i as int)).remove(k),
            decreases orig.len() - i,
        {
            let e = self.data[i];
            proof {
                lemma_data_take_step(orig, i as int);
                lemma_data_contains(kept@, e.ident());
                lemma_data_contains(orig.take(i as int), e.ident());
            }
            if !(e.key == key && e.version == version) {
                let ghost prev = kept@;
                kept.push(e);
                proof {
                    assert(kept@.drop_last() =~= prev);
                    assert(data_map_of(kept@) =~= data_map_of(orig.take(i + 1)).remove(k));
                }
            } else {
                proof {
                    assert(data_map_of(kept@) =~= data_map_of(orig.take(i + 1)).remove(k));
                }
            }
            i = i + 1;
        }
        proof {
            assert(orig.take(orig.len() as int) =~= orig);
        }
        self.data = kept;
    }

    /// Inserts or overwrites one metadata marker.
    #[verifier::loop_isolation(false)]
    pub fn put_meta(&mut self, key: MetaKey, version: u64)
        requires
            old(self).wf(),
        ensures
            final(self).wf(),
            final(self).meta_view() == old(self).meta_view().insert(key, version),
            final(self).data_view() == old(self).data_view(),
    {
        let ghost orig = self.meta@;
        let mut kept: Vec<MetaEntry> = Vec::new();
        let mut i: usize = 0;
        while i < self.meta.len()
            invariant
                i <= orig.len(),
                distinct_meta(kept@),
                forall|j: int| 0 <= j < kept@.len() ==> kept@[j].key != key,
                meta_map_of(kept@) == meta_map_of(orig.take(i as int)).remove(key),
            decreases orig.len() - i,
        {
            let e = self.meta[i];
            proof {
                lemma_meta_take_step(orig, i as int);
                lemma_meta_contains(kept@, e.key);
                lemma_meta_contains(orig.take(i as int), e.key);
            }
            if !(e.key == key) {
                let ghost prev = kept@;
                kept.push(e);
                proof {
                    assert(kept@.drop_last() =~= prev);
                    assert(meta_map_of(kept@) =~= meta_map_of(orig.take(i + 1)).remove(key));
                }
            } else {
                proof {
                    assert(meta_map_of(kept@) =~= meta_map_of(orig.take(i + 1)).remove(key));
                }
            }
            i = i + 1;
        }
        proof {
            assert(orig.take(orig.len() as int) =~= orig);
        }
        let ghost prev = kept@;
        kept.push(MetaEntry { key, version });
        proof {
            assert(kept@.drop_last() =~= prev);
            assert(meta_map_of(kept@) =~= meta_map_of(orig).insert(key, version));
        }
        self.meta = kept;
    }

    /// Reads one metadata marker, if present.
    #[verifier::loop_isolation(false)]
    pub fn get_meta(&self, key: MetaKey) -> (r: Option<u64>)
        requires
            self.wf(),
        ensures
            r == if self.meta_view().dom().contains(key) {
                Some(self.meta_view()[key])
            } else {
                None::<u64>
            },
    {
        let mut i: usize = 0;
        while i < self.meta.len()
            invariant
                i <= self.meta@.len(),
                forall|j: int| 0 <= j < i ==> self.meta@[j].key != key,
            decreases self.meta@.len() - i,
        {
            let e = self.meta[i];
            if e.key == key {
                proof {
                    lemma_meta_index(self.meta@, i as int);
                }
                return Some(e.version);
            }
            i = i + 1;
        }
        proof {
            lemma_meta_contains(self.meta@, key);
        }
        None
    }

    /// Removes every record whose version lies in the half-open range
    /// `[start, end)`. Re-running on a range already fully pruned deletes
    /// nothing.
    #[verifier::loop_isolation(false)]
    pub fn delete_version_range(&mut self, start: u64, end: u64)
        requires
            old(self).wf(),
        ensures
            final(self).wf(),
            final(self).data_view() == prune_data_map(old(self).data_view(), start, end),
            final(self).meta_view() == old(self).meta_view(),
    {
        let ghost orig = self.data@;
        let mut kept: Vec<DataEntry> = Vec::new();
        let mut i: usize = 0;
        while i < self.data.len()
            invariant
                i <= orig.len(),
                distinct_data(kept@),
                data_map_of(kept@) == prune_data_map(data_map_of(orig.take(i as int)), start, end),
            decreases orig.len() - i,
        {
            let e = self.data[i];
            proof {
                lemma_data_take_step(orig, i as int);
                lemma_data_contains(kept@, e.ident());
                lemma_data_contains(orig.take(i as int), e.ident());
            }
            if !(start <= e.version && e.version < end) {
                let ghost prev = kept@;
                kept.push(e);
                proof {
                    assert(kept@.drop_last() =~= prev);
                    assert(data_map_of(kept@) =~= prune_data_map(
                        data_map_of(orig.take(i + 1)),
                        start,
                        end,
                    ));
                }
            } else {
                proof {
                    assert(data_map_of(kept@) =~= prune_data_map(
                        data_map_of(orig.take(i + 1)),
                        start,
                        end,
                    ));
                }
            }
            i = i + 1;
        }
        proof {
            assert(orig.take(orig.len() as int) =~= orig);
        }
        self.data = kept;
    }

    /// Removes every record whose version exceeds `limit`: the truncation
    /// primitive used by crash recovery.
    #[verifier::loop_isolation(false)]
    pub fn truncate_versions_above(&mut self, limit: u64)
        requires
            old(self).wf(),
        ensures
            final(self).wf(),
            final(self).data_view() == truncate_data_map(old(self).data_view(), limit),
            final(self).meta_view() == old(self).meta_view(),
    {
        let ghost orig = self.data@;
        let mut kept: Vec<DataEntry> = Vec::new();
        let mut i: usize = 0;
        while i < self.data.len()
            invariant
                i <= orig.len(),
                distinct_data(kept@),
                data_map_of(kept@) == truncate_data_map(data_map_of(orig.take(i as int)), limit),
            decreases orig.len() - i,
        {
            let e = self.data[i];
            proof {
                lemma_data_take_step(orig, i as int);
                lemma_data_contains(kept@, e.ident());
                lemma_data_contains(orig.take(i as int), e.ident());
            }
            if e.version <= limit {
                let ghost prev = kept@;
                kept.push(e);
                proof {
                    assert(kept@.drop_last() =~= prev);
                    assert(data_map_of(kept@) =~= truncate_data_map(
                        data_map_of(orig.take(i + 1)),
                        limit,
                    ));
                }
            } else {
                proof {
                    assert(data_map_of(kept@) =~= truncate_data_map(
                        data_map_of(orig.take(i + 1)),
                        limit,
                    ));
                }
            }
            i = i + 1;
        }
        proof {
            assert(orig.take(orig.len() as int) =~= orig);
        }
        self.data = kept;
    }

    /// Applies every write of a batch, in order. The in-memory store makes
    /// the batch atomic by construction: no intermediate state is observable.
    #[verifier::loop_isolation(false)]
    pub fn write_schemas(&mut self, batch: SchemaBatch)
        requires
            old(self).wf(),
        ensures
            final(self).wf(),
            final(self).data_view() == apply_ops_data(old(self).data_view(), batch.ops_view()),
            final(self).meta_view() == apply_ops_meta(old(self).meta_view(), batch.ops_view()),
    {
        let ghost ops = batch.ops@;
        let ghost data0 = self.data_view();
        let ghost meta0 = self.meta_view();
        let mut i: usize = 0;
        while i < batch.ops.len()
            invariant
                i <= ops.len(),
                self.wf(),
                self.data_view() == apply_ops_data(data0, ops.take(i as int)),
                self.meta_view() == apply_ops_meta(meta0, ops.take(i as int)),
            decreases ops.len() - i,
        {
            proof {
                assert(ops.take(i + 1).drop_last() =~= ops.take(i as int));
                assert(ops.take(i + 1).last() == ops[i as int]);
            }
            let op = batch.ops[i];
            match op {
                WriteOp::PutData { key, version, value } => {
                    self.put(key, version, value);
                },
                WriteOp::DeleteData { key, version } => {
                    self.delete(key, version);
                },
                WriteOp::PutMeta { meta_key, version } => {
                    self.put_meta(meta_key, version);
                },
            }
            i = i + 1;
        }
        proof {
            assert(ops.take(ops.len() as int) =~= ops);
        }
    }

    /// Produces an independent, point-in-time copy of this store, with the
    /// same records and markers.
    #[verifier::loop_isolation(false)]
    pub fn create_checkpoint(&self) -> (cp: Store)
        requires
            self.wf(),
        ensures
            cp.wf(),
            cp.data_view() == self.data_view(),
            cp.meta_view() == self.meta_view(),
    {
        let mut data: Vec<DataEntry> = Vec::new();
        let mut i: usize = 0;
        while i < self.data.len()
            invariant
                i <= self.data@.len(),
                data@ == self.data@.take(i as int),
            decreases self.data@.len() - i,
        {
            data.push(self.data[i]);
            proof {
                assert(data@ =~= self.data@.take(i + 1));
            }
            i = i + 1;
        }
        let mut meta: Vec<MetaEntry> = Vec::new();
        let mut j: usize = 0;
        while j < self.meta.len()
            invariant
                j <= self.meta@.len(),
                meta@ == self.meta@.take(j as int),
            decreases self.meta@.len() - j,
        {
            meta.push(self.meta[j]);
            proof {
                assert(meta@ =~= self.meta@.take(j + 1));
            }
            j = j + 1;
        }
        proof {
            assert(self.data@.take(self.data@.len() as int) =~= self.data@);
            assert(self.meta@.take(self.meta@.len() as int) =~= self.meta@);
        }
        Store { data, meta }
    }
}

} // verus!
