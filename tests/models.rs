use ecoblock_api::models::{NetworkInfo, SimulationConfig};

#[test]
fn standard_simulation_config() {
    let c = SimulationConfig::standard();
    assert_eq!(c.topology, "mesh");
    assert_eq!(c.node_count, 10);
    assert_eq!(c.block_count, 100);
    assert_eq!(c.interval_ms, 1000);
}

#[test]
fn active_mesh_info() {
    let i = NetworkInfo::active_mesh("n1".to_string(), 3, 7, 42);
    assert_eq!(i.node_id, "n1");
    assert_eq!(i.peer_count, 3);
    assert_eq!(i.block_count, 7);
    assert_eq!(i.uptime, 42);
    assert_eq!(i.status, "active");
    assert_eq!(i.version, "0.1.0");
    assert_eq!(i.network_type, "mesh");
}

#[test]
fn initial_info() {
    let i = NetworkInfo::initial();
    assert_eq!(i.node_id, "test-node");
    assert_eq!(i.peer_count, 0);
    assert_eq!(i.network_type, "test");
}
