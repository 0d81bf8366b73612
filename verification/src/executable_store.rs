//! A bounded cache of compiled executables, keyed by module, shared by the
//! parallel executor between block executions.
//!
//! The cache contents live in a concurrent map of an outside crate; its
//! status field is a small state machine that catches out-of-order use
//! between blocks (Ready -> Updated -> Pruned -> Ready), falling back to a
//! cleared cache whenever the order is violated.

use vstd::prelude::*;

verus! {

/// The block identity the cache was aligned to.
pub type BlockId = u64;

/// One cached executable: an opaque code descriptor and its size in bytes.
#[derive(Clone, Copy, Debug, PartialEq, Eq, Structural)]
pub struct CachedExecutable {
    pub code: u64,
    pub size_bytes: usize,
}

#[verifier::external_type_specification]
#[verifier::external_body]
#[verifier::reject_recursive_types(K)]
#[verifier::reject_recursive_types(V)]
#[verifier::reject_recursive_types(S)]
pub struct ExDashMap<K, V, S>(dashmap::DashMap<K, V, S>);

/// An empty cache contents map.
pub open spec fn empty_executables() -> Map<u64, (u64, usize)> {
    Map::empty()
}

/// What the concurrent map holds: each key's (code, size) pair.
pub uninterp spec fn executable_map_of(m: dashmap::DashMap<u64, (u64, usize)>) -> Map<
    u64,
    (u64, usize),
>;

/// Relies on dashmap::DashMap::new: creates an empty map.
#[verifier::external_body]
fn cache_new() -> (m: dashmap::DashMap<u64, (u64, usize)>)
    ensures
        executable_map_of(m) == empty_executables(),
{
    dashmap::DashMap::new()
}

/// Relies on dashmap::DashMap::insert: stores the value under the key and
/// returns the value previously stored there, if any.
#[verifier::external_body]
fn cache_insert(
    m: &mut dashmap::DashMap<u64, (u64, usize)>,
    key: u64,
    value: (u64, usize),
) -> (prev: Option<(u64, usize)>)
    ensures
        executable_map_of(*final(m)) == executable_map_of(*old(m)).insert(key, value),
        prev == if executable_map_of(*old(m)).dom().contains(key) {
            Some(executable_map_of(*old(m))[key])
        } else {
            None::<(u64, usize)>
        },
{
    m.insert(key, value)
}

/// Relies on dashmap::DashMap::get: returns the value stored under the
/// key, if any.
#[verifier::external_body]
fn cache_get(m: &dashmap::DashMap<u64, (u64, usize)>, key: u64) -> (r: Option<(u64, usize)>)
    ensures
        r == if executable_map_of(*m).dom().contains(key) {
            Some(executable_map_of(*m)[key])
        } else {
            None::<(u64, usize)>
        },
{
    m.get(&key).map(|v| *v)
}

/// Relies on dashmap::DashMap::remove: removes the entry under the key and
/// returns its value, if it existed.
#[verifier::external_body]
fn cache_remove(m: &mut dashmap::DashMap<u64, (u64, usize)>, key: u64) -> (prev: Option<
    (u64, usize),
>)
    ensures
        executable_map_of(*final(m)) == executable_map_of(*old(m)).remove(key),
        prev == if executable_map_of(*old(m)).dom().contains(key) {
            Some(executable_map_of(*old(m))[key])
        } else {
            None::<(u64, usize)>
        },
{
    m.remove(&key).map(|kv| kv.1)
}

/// Relies on dashmap::DashMap::clear: removes every entry.
#[verifier::external_body]
fn cache_clear(m: &mut dashmap::DashMap<u64, (u64, usize)>)
    ensures
        executable_map_of(*final(m)) == empty_executables(),
{
    m.clear()
}

/// Represents the state of the cache between block executions. The goal is
/// to catch errors in intended use, and to reset the cache to an empty
/// state whenever its status cannot guarantee that it matches the state
/// after the parent block.
#[derive(Clone, Copy, Debug, PartialEq, Eq, Structural)]
pub enum ExecutableStoreStatus {
    /// Ready to use, at a state after the recorded block id.
    Ready,
    /// Updated / synchronized after a block execution.
    Updated,
    /// Pruned; recording the executed block id makes it ready again.
    Pruned,
    /// An unexpected status-update order was observed.
    Void,
}

/// The total size tracked from its origin offset. The live system adjusts
/// the total with relaxed atomics around an origin in the middle of the
/// range so that out-of-order subtractions cannot wrap; this sequential
/// model saturates at the ends of the range instead.
pub open spec fn sat_add(a: usize, b: nat) -> usize {
    if a + b <= usize::MAX {
        (a + b) as usize
    } else {
        usize::MAX
    }
}

pub open spec fn sat_sub(a: usize, b: nat) -> usize {
    if a >= b {
        (a - b) as usize
    } else {
        0
    }
}

/// The size of all cached executables implied by a tracked total.
pub open spec fn cache_size(total: usize, origin: usize) -> usize {
    sat_sub(total, origin as nat)
}

/// The cache of executables, with its status state machine.
pub struct ExecutableStore {
    executables: dashmap::DashMap<u64, (u64, usize)>,
    total_size: usize,
    status: ExecutableStoreStatus,
    block_id: Option<BlockId>,
}

impl ExecutableStore {
    /// The origin the total size is tracked from.
    pub open spec fn size_origin() -> usize {
        usize::MAX / 2
    }

    /// The cached executables.
    pub closed spec fn executables_view(self) -> Map<u64, (u64, usize)> {
        executable_map_of(self.executables)
    }

    /// The tracked total size, origin offset included.
    pub closed spec fn total_size_spec(self) -> usize {
        self.total_size
    }

    /// The status of the state machine.
    pub closed spec fn status_spec(self) -> ExecutableStoreStatus {
        self.status
    }

    /// The block the cache was last aligned to.
    pub closed spec fn block_id_spec(self) -> Option<BlockId> {
        self.block_id
    }

    /// Whether the cache is empty with its bookkeeping reset.
    pub open spec fn is_reset(self) -> bool {
        &&& self.executables_view() == empty_executables()
        &&& self.total_size_spec() == Self::size_origin()
        &&& self.block_id_spec() is None
    }

    /// Flushes the cache: drops every executable and the recorded block id.
    /// Used when an empty cache is enough to proceed despite an error.
    fn reset(&mut self)
        ensures
            final(self).is_reset(),
            final(self).status_spec() == old(self).status_spec(),
    {
        cache_clear(&mut self.executables);
        self.total_size = usize::MAX / 2;
        self.block_id = None;
    }

    /// If the status is `expected_status`, moves to `new_status`; any other
    /// status order is an error and voids the cache status.
    fn set_status(
        &mut self,
        expected_status: ExecutableStoreStatus,
        new_status: ExecutableStoreStatus,
    )
        ensures
            final(self).status_spec() == if old(self).status_spec() == expected_status {
                new_status
            } else {
                ExecutableStoreStatus::Void
            },
            final(self).executables_view() == old(self).executables_view(),
            final(self).total_size_spec() == old(self).total_size_spec(),
            final(self).block_id_spec() == old(self).block_id_spec(),
    {
        self.status = if self.status == expected_status {
            new_status
        } else {
            ExecutableStoreStatus::Void
        };
    }

    /// Records the executed block and marks the cache ready for the next
    /// block. When the statuses were not updated in the proper order
    /// (Ready -> Updated -> Pruned), the cache is cleared instead of
    /// recording the block id.
    pub fn mark_ready(&mut self, block_id: BlockId)
        ensures
            final(self).status_spec() == ExecutableStoreStatus::Ready,
            old(self).status_spec() == ExecutableStoreStatus::Void ==> final(self).is_reset(),
            old(self).status_spec() != ExecutableStoreStatus::Void ==> {
                &&& final(self).executables_view() == old(self).executables_view()
                &&& final(self).total_size_spec() == old(self).total_size_spec()
                &&& final(self).block_id_spec() == Some(block_id)
            },
    {
        let prev_status = self.status;
        self.status = ExecutableStoreStatus::Ready;

        if prev_status == ExecutableStoreStatus::Void {
            self.reset();
        } else {
            self.block_id = Some(block_id);
        }
    }

    /// Checks that the cache may serve the block whose parent is
    /// `maybe_parent_block_id`: the status must be Ready (the caller
    /// guarantees it, via `mark_ready` or a fresh store), and either no
    /// block is recorded (an empty cache) or the recorded block must match
    /// the provided parent. On a mismatch the cache is cleared, so an
    /// out-of-order execution reads nothing stale.
    pub fn check_ready(&mut self, maybe_parent_block_id: Option<BlockId>)
        requires
            old(self).status_spec() == ExecutableStoreStatus::Ready,
        ensures
            final(self).status_spec() == ExecutableStoreStatus::Ready,
            old(self).block_id_spec() is None ==> *final(self) == *old(self),
            old(self).block_id_spec() matches Some(block_id) ==> {
                if maybe_parent_block_id == Some(block_id) {
                    *final(self) == *old(self)
                } else {
                    final(self).is_reset()
                }
            },
    {
        let block_id = self.block_id;

        if let Some(block_id) = block_id {
            let matches_parent = match maybe_parent_block_id {
                Some(id) => id == block_id,
                None => false,
            };
            if !matches_parent {
                self.reset();
            }
        }
    }

    /// Marks the cache updated, aligned with the state after a block
    /// execution. Voids the status when the previous status was not Ready.
    pub fn mark_updated(&mut self)
        ensures
            final(self).status_spec() == if old(self).status_spec()
                == ExecutableStoreStatus::Ready {
                ExecutableStoreStatus::Updated
            } else {
                ExecutableStoreStatus::Void
            },
            final(self).executables_view() == old(self).executables_view(),
            final(self).total_size_spec() == old(self).total_size_spec(),
            final(self).block_id_spec() == old(self).block_id_spec(),
    {
        self.set_status(ExecutableStoreStatus::Ready, ExecutableStoreStatus::Updated);
    }

    /// Bounds the cache: when the total size of all executables exceeds the
    /// threshold, everything is cleared. Returns the size before pruning.
    /// Voids the status when the previous status was not Updated.
    pub fn prune(&mut self, size_threshold: usize) -> (size: usize)
        ensures
            size == cache_size(old(self).total_size_spec(), Self::size_origin()),
            final(self).status_spec() == if old(self).status_spec()
                == ExecutableStoreStatus::Updated {
                ExecutableStoreStatus::Pruned
            } else {
                ExecutableStoreStatus::Void
            },
            size > size_threshold ==> final(self).is_reset(),
            size <= size_threshold ==> {
                &&& final(self).executables_view() == old(self).executables_view()
                &&& final(self).total_size_spec() == old(self).total_size_spec()
                &&& final(self).block_id_spec() == old(self).block_id_spec()
            },
    {
        let origin: usize = usize::MAX / 2;
        let size = if self.total_size >= origin {
            self.total_size - origin
        } else {
            0
        };
        if size > size_threshold {
            self.reset();
        }

        self.set_status(ExecutableStoreStatus::Updated, ExecutableStoreStatus::Pruned);

        size
    }

    /// Reads one cached executable.
    pub fn get(&self, key: &u64) -> (r: Option<CachedExecutable>)
        ensures
            r == if self.executables_view().dom().contains(*key) {
                Some(
                    CachedExecutable {
                        code: self.executables_view()[*key].0,
                        size_bytes: self.executables_view()[*key].1,
                    },
                )
            } else {
                None::<CachedExecutable>
            },
    {
        match cache_get(&self.executables, *key) {
            Some(pair) => Some(CachedExecutable { code: pair.0, size_bytes: pair.1 }),
            None => None,
        }
    }

    /// Caches one executable and adjusts the tracked total size by the
    /// difference with any executable it displaces.
    pub fn insert(&mut self, key: u64, executable: CachedExecutable)
        ensures
            final(self).executables_view() == old(self).executables_view().insert(
                key,
                (executable.code, executable.size_bytes),
            ),
            final(self).total_size_spec() == ({
                let sub = if old(self).executables_view().dom().contains(key) {
                    old(self).executables_view()[key].1 as nat
                } else {
                    0
                };
                if executable.size_bytes as nat >= sub {
                    sat_add(old(self).total_size_spec(), (executable.size_bytes as nat - sub) as nat)
                } else {
                    sat_sub(old(self).total_size_spec(), (sub - executable.size_bytes as nat) as nat)
                }
            }),
            final(self).status_spec() == old(self).status_spec(),
            final(self).block_id_spec() == old(self).block_id_spec(),
    {
        let add_size = executable.size_bytes;
        let prev = cache_insert(
            &mut self.executables,
            key,
            (executable.code, executable.size_bytes),
        );
        let sub_size = match prev {
            Some(pair) => pair.1,
            None => 0,
        };

        if add_size >= sub_size {
            let delta = add_size - sub_size;
            self.total_size = if self.total_size <= usize::MAX - delta {
                self.total_size + delta
            } else {
                usize::MAX
            };
        } else {
            let delta = sub_size - add_size;
            self.total_size = if self.total_size >= delta {
                self.total_size - delta
            } else {
                0
            };
        }
    }

    /// Drops one cached executable, returning its size to the tracked
    /// total.
    pub fn remove(&mut self, key: &u64)
        ensures
            final(self).executables_view() == old(self).executables_view().remove(*key),
            final(self).total_size_spec() == if old(self).executables_view().dom().contains(*key) {
                sat_sub(old(self).total_size_spec(), old(self).executables_view()[*key].1 as nat)
            } else {
                old(self).total_size_spec()
            },
            final(self).status_spec() == old(self).status_spec(),
            final(self).block_id_spec() == old(self).block_id_spec(),
    {
        if let Some(pair) = cache_remove(&mut self.executables, *key) {
            self.total_size = if self.total_size >= pair.1 {
                self.total_size - pair.1
            } else {
                0
            };
        }
    }
}

impl Default for ExecutableStore {
    /// An empty, ready cache.
    fn default() -> (s: ExecutableStore)
        ensures
            s.is_reset(),
            s.status_spec() == ExecutableStoreStatus::Ready,
    {
        ExecutableStore {
            executables: cache_new(),
            total_size: usize::MAX / 2,
            status: ExecutableStoreStatus::Ready,
            block_id: None,
        }
    }
}

} // verus!
