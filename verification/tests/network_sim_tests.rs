use aptosdb::{
    create_bandwidth_limit, create_three_region_swarm_network_delay,
    ThreeRegionSameCloudSimulationTest,
};

#[test]
fn test_three_region_delay_partitions_validators() {
    let validators: Vec<u64> = (0..9).collect();
    let delay = create_three_region_swarm_network_delay(validators);
    let groups = &delay.group_network_delays;
    assert_eq!(groups.len(), 3);

    // us-west -> af-south
    assert_eq!(groups[0].name, "us-west-to-af-south");
    assert_eq!(groups[0].source_nodes, vec![0, 1, 2]);
    assert_eq!(groups[0].target_nodes, vec![3, 4, 5]);
    assert_eq!(groups[0].latency_ms, 300);

    // us-west -> eu-north
    assert_eq!(groups[1].name, "us-west-to-eu-north");
    assert_eq!(groups[1].source_nodes, vec![0, 1, 2]);
    assert_eq!(groups[1].target_nodes, vec![6, 7, 8]);
    assert_eq!(groups[1].latency_ms, 150);

    // eu-north -> af-south
    assert_eq!(groups[2].name, "eu-north-to-af-south");
    assert_eq!(groups[2].source_nodes, vec![6, 7, 8]);
    assert_eq!(groups[2].target_nodes, vec![3, 4, 5]);
    assert_eq!(groups[2].latency_ms, 200);

    for group in groups {
        assert_eq!(group.jitter_ms, 50);
        assert_eq!(group.correlation_percentage, 50);
    }
}

#[test]
fn test_three_region_delay_with_remainder() {
    // 10 validators: two regions of 3 and the rest in the third.
    let validators: Vec<u64> = (0..10).collect();
    let delay = create_three_region_swarm_network_delay(validators);
    let groups = &delay.group_network_delays;
    assert_eq!(groups[0].source_nodes.len(), 3);
    assert_eq!(groups[0].target_nodes.len(), 3);
    assert_eq!(groups[1].target_nodes.len(), 4);
}

#[test]
fn test_bandwidth_limit() {
    let bandwidth = create_bandwidth_limit();
    assert_eq!(bandwidth.group_network_bandwidths.len(), 1);
    let group = &bandwidth.group_network_bandwidths[0];
    assert_eq!(group.name, "forge-namespace-1000mbps-bandwidth");
    assert_eq!(group.rate, 1000);
    assert_eq!(group.limit, 20971520);
    assert_eq!(group.buffer, 10000);
}

#[test]
fn test_simulation_test_name() {
    assert_eq!(
        ThreeRegionSameCloudSimulationTest.name(),
        "network::three-region-simulation"
    );
}
