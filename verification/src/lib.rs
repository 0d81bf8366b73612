//! Background pruning and sharded persistence for a versioned ledger store.
//!
//! The crate models a ledger database's storage layer: an ordered key-value
//! store holding version-tagged records and durable progress markers, a set
//! of sub-pruners that delete historical data in bounded batches while
//! staying version-aligned, and a sharded store with crash-consistent commit
//! tracking, startup recovery and checkpointing.

use vstd::prelude::*;

mod api_config;
mod decimal;
mod executable_store;
mod network_sim;
mod peer_states;
mod pruner;
mod state_kv_db;
mod store;
mod token_standard;
mod transaction_args;

pub use api_config::{
    default_disabled, default_enabled, ApiConfig, ChainId, ConfigError, NodeConfig, NodeType,
};
pub use executable_store::{CachedExecutable, ExecutableStore, ExecutableStoreStatus};
pub use network_sim::{
    create_bandwidth_limit, create_three_region_swarm_network_delay, GroupNetworkBandwidth,
    GroupNetworkDelay, PeerId, SwarmNetworkBandwidth, SwarmNetworkDelay,
    ThreeRegionSameCloudSimulationTest,
};
pub use peer_states::PeerStateKey;
pub use pruner::{LedgerPruner, SubPruner, SubPrunerKind};
pub use state_kv_db::{StateKvDb, NUM_STATE_SHARDS};
pub use store::{MetaKey, SchemaBatch, Store};
pub use token_standard::TokenStandard;
pub use transaction_args::{EntryPoints, TransactionType, TransactionTypeArg};

verus! {

/// Monotonically increasing integer identifying one committed ledger state
/// transition; the universal ordering key for pruning and commits.
pub type Version = u64;

} // verus!
