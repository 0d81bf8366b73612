//! The three-region network simulation: its delay topology and bandwidth
//! limit, computed over plain validator ids. Injecting the resulting chaos
//! into a running swarm is the harness's job, outside this library.

use vstd::prelude::*;
use vstd::string::StringExecFns;

verus! {

/// One validator's identity in the simulated network.
pub type PeerId = u64;

/// A network delay applied between one group of nodes and another.
pub struct GroupNetworkDelay {
    pub name: String,
    pub source_nodes: Vec<PeerId>,
    pub target_nodes: Vec<PeerId>,
    pub latency_ms: u64,
    pub jitter_ms: u64,
    pub correlation_percentage: u64,
}

/// The delay topology injected into the whole swarm.
pub struct SwarmNetworkDelay {
    pub group_network_delays: Vec<GroupNetworkDelay>,
}

/// A bandwidth limit applied to one group of nodes.
pub struct GroupNetworkBandwidth {
    pub name: String,
    pub rate: u64,
    pub limit: u64,
    pub buffer: u64,
}

/// The bandwidth limits injected into the whole swarm.
pub struct SwarmNetworkBandwidth {
    pub group_network_bandwidths: Vec<GroupNetworkBandwidth>,
}

/// Represents a test that simulates a network with 3 regions, all in the
/// same cloud.
pub struct ThreeRegionSameCloudSimulationTest;

impl ThreeRegionSameCloudSimulationTest {
    /// The name of this test.
    pub fn name(&self) -> (r: &'static str)
        ensures
            r@ == "network::three-region-simulation"@,
    {
        "network::three-region-simulation"
    }
}

/// Creates a delay topology with three equal-size groups of validators,
/// each standing for one region: minimal delay within a region, and an
/// estimated inter-region delay between each pair of regions.
pub fn create_three_region_swarm_network_delay(all_validators: Vec<PeerId>) -> (delay:
    SwarmNetworkDelay)
    ensures
        ({
            let n = all_validators@.len() as int;
            let region_size = n / 3;
            let us_west = all_validators@.take(region_size);
            let af_south = all_validators@.subrange(region_size, 2 * region_size);
            let eu_north = all_validators@.skip(2 * region_size);
            &&& delay.group_network_delays@.len() == 3
            &&& delay.group_network_delays@[0].name@ == "us-west-to-af-south"@
            &&& delay.group_network_delays@[0].source_nodes@ == us_west
            &&& delay.group_network_delays@[0].target_nodes@ == af_south
            &&& delay.group_network_delays@[0].latency_ms == 300
            &&& delay.group_network_delays@[1].name@ == "us-west-to-eu-north"@
            &&& delay.group_network_delays@[1].source_nodes@ == us_west
            &&& delay.group_network_delays@[1].target_nodes@ == eu_north
            &&& delay.group_network_delays@[1].latency_ms == 150
            &&& delay.group_network_delays@[2].name@ == "eu-north-to-af-south"@
            &&& delay.group_network_delays@[2].source_nodes@ == eu_north
            &&& delay.group_network_delays@[2].target_nodes@ == af_south
            &&& delay.group_network_delays@[2].latency_ms == 200
            &&& forall|i: int|
                0 <= i < 3 ==> (#[trigger] delay.group_network_delays@[i]).jitter_ms == 50
                    && delay.group_network_delays@[i].correlation_percentage == 50
        }),
{
    // each region has 1/3 of the validators
    let region_size = all_validators.len() / 3;
    let mut us_west = all_validators;
    let mut af_south = us_west.split_off(region_size);
    let eu_north = af_south.split_off(region_size);

    let us_west_copy = copy_peers(&us_west);
    let af_south_copy = copy_peers(&af_south);
    let eu_north_copy = copy_peers(&eu_north);

    let mut group_network_delays: Vec<GroupNetworkDelay> = Vec::new();
    group_network_delays.push(
        GroupNetworkDelay {
            name: String::from_str("us-west-to-af-south"),
            source_nodes: us_west,
            target_nodes: af_south,
            latency_ms: 300,
            jitter_ms: 50,
            correlation_percentage: 50,
        },
    );
    group_network_delays.push(
        GroupNetworkDelay {
            name: String::from_str("us-west-to-eu-north"),
            source_nodes: us_west_copy,
            target_nodes: eu_north,
            latency_ms: 150,
            jitter_ms: 50,
            correlation_percentage: 50,
        },
    );
    group_network_delays.push(
        GroupNetworkDelay {
            name: String::from_str("eu-north-to-af-south"),
            source_nodes: eu_north_copy,
            target_nodes: af_south_copy,
            latency_ms: 200,
            jitter_ms: 50,
            correlation_percentage: 50,
        },
    );

    SwarmNetworkDelay { group_network_delays }
}

/// 1000 mbps network bandwidth simulation between all regions within the
/// same cloud with a dedicated backbone.
pub fn create_bandwidth_limit() -> (bandwidth: SwarmNetworkBandwidth)
    ensures
        bandwidth.group_network_bandwidths@.len() == 1,
        bandwidth.group_network_bandwidths@[0].name@ == "forge-namespace-1000mbps-bandwidth"@,
        bandwidth.group_network_bandwidths@[0].rate == 1000,
        bandwidth.group_network_bandwidths@[0].limit == 20971520,
        bandwidth.group_network_bandwidths@[0].buffer == 10000,
{
    let mut group_network_bandwidths: Vec<GroupNetworkBandwidth> = Vec::new();
    group_network_bandwidths.push(
        GroupNetworkBandwidth {
            name: String::from_str("forge-namespace-1000mbps-bandwidth"),
            rate: 1000,
            limit: 20971520,
            buffer: 10000,
        },
    );
    SwarmNetworkBandwidth { group_network_bandwidths }
}

/// An independent copy of a validator list.
fn copy_peers(peers: &Vec<PeerId>) -> (r: Vec<PeerId>)
    ensures
        r@ == peers@,
{
    let mut out: Vec<PeerId> = Vec::new();
    let mut i: usize = 0;
    while i < peers.len()
        invariant
            i <= peers@.len(),
            out@ == peers@.take(i as int),
        decreases peers@.len() - i,
    {
        out.push(peers[i]);
        proof {
            assert(out@ =~= peers@.take(i + 1));
        }
        i = i + 1;
    }
    proof {
        assert(peers@.take(peers@.len() as int) =~= peers@);
    }
    out
}

} // verus!
