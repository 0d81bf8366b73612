//! The kinds of state tracked per peer by the peer monitoring client.

use vstd::prelude::*;

verus! {

/// A simple enum representing the different types of
/// states held for each peer.
#[derive(Clone, Copy, Debug, Eq, Hash, PartialEq)]
pub enum PeerStateKey {
    LatencyInfo,
    NetworkInfo,
    NodeInfo,
}

impl PeerStateKey {
    /// A utility function for getting all peer state keys.
    pub fn get_all_keys() -> (keys: Vec<PeerStateKey>)
        ensures
            keys@.len() == 3,
            keys@[0] == PeerStateKey::LatencyInfo,
            keys@[1] == PeerStateKey::NetworkInfo,
            keys@[2] == PeerStateKey::NodeInfo,
    {
        let mut keys: Vec<PeerStateKey> = Vec::new();
        keys.push(PeerStateKey::LatencyInfo);
        keys.push(PeerStateKey::NetworkInfo);
        keys.push(PeerStateKey::NodeInfo);
        keys
    }

    /// Returns the label for the peer state key.
    pub fn get_label(&self) -> (label: &str)
        ensures
            *self == PeerStateKey::LatencyInfo ==> label@ == "latency_info"@,
            *self == PeerStateKey::NetworkInfo ==> label@ == "network_info"@,
            *self == PeerStateKey::NodeInfo ==> label@ == "node_info"@,
    {
        match self {
            PeerStateKey::LatencyInfo => "latency_info",
            PeerStateKey::NetworkInfo => "network_info",
            PeerStateKey::NodeInfo => "node_info",
        }
    }
}

} // verus!
