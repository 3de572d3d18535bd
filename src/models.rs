//! Plain values exchanged with the routing layer.
use vstd::prelude::*;

verus! {

/// Identity and size of the local node.
pub struct NetworkInfo {
    pub node_id: String,
    pub peer_count: usize,
    pub block_count: usize,
    pub uptime: u64,
    pub status: String,
    pub version: String,
    pub network_type: String,
}

/// One known peer.
pub struct PeerInfo {
    pub id: String,
    pub address: String,
    pub last_seen: u64,
    pub is_connected: bool,
    pub latency: Option<u64>,
}

/// A request to propagate a stored block to peers.
pub struct SendBlockRequest {
    pub block_hash: String,
    pub target_peers: Option<Vec<String>>,
}

/// Parameters of a traffic simulation.
pub struct SimulationConfig {
    pub topology: String,
    pub node_count: usize,
    pub block_count: usize,
    pub interval_ms: u64,
}

impl NetworkInfo {
    /// The node information reported for a running node of a mesh network.
    pub fn active_mesh(node_id: String, peer_count: usize, block_count: usize, uptime: u64) -> (r:
        NetworkInfo)
        ensures
            r.node_id == node_id,
            r.peer_count == peer_count,
            r.block_count == block_count,
            r.uptime == uptime,
            r.status@ == "active"@,
            r.version@ == "0.1.0"@,
            r.network_type@ == "mesh"@,
    {
        NetworkInfo {
            node_id,
            peer_count,
            block_count,
            uptime,
            status: String::from_str("active"),
            version: String::from_str("0.1.0"),
            network_type: String::from_str("mesh"),
        }
    }

    /// The telemetry identity published before the node has reported.
    pub fn initial() -> (r: NetworkInfo)
        ensures
            r.node_id@ == "test-node"@,
            r.peer_count == 0,
            r.block_count == 0,
            r.uptime == 0,
            r.status@ == "active"@,
            r.version@ == "0.1.0"@,
            r.network_type@ == "test"@,
    {
        NetworkInfo {
            node_id: String::from_str("test-node"),
            peer_count: 0,
            block_count: 0,
            uptime: 0,
            status: String::from_str("active"),
            version: String::from_str("0.1.0"),
            network_type: String::from_str("test"),
        }
    }
}

impl SimulationConfig {
    /// The simulation parameters reported when none were set: a mesh of
    /// ten nodes sending a hundred blocks, one per second.
    pub fn standard() -> (r: SimulationConfig)
        ensures
            r.topology@ == "mesh"@,
            r.node_count == 10,
            r.block_count == 100,
            r.interval_ms == 1000,
    {
        SimulationConfig {
            topology: String::from_str("mesh"),
            node_count: 10,
            block_count: 100,
            interval_ms: 1000,
        }
    }
}

} // verus!
