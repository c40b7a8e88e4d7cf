//! The default test profile of a node: its directory, endpoints, and timers
//! and storage sizes small enough for tests.
use vstd::prelude::*;
use crate::endpoint::{
    append_decimal, decimal, node_addr, node_addr_spec, node_status_addr, node_status_addr_spec,
};

verus! {

/// The settings of a node that the test profile fixes.
pub struct TestConfig {
    /// `<base dir>/<node id>`.
    pub data_dir: String,
    pub cluster_id: u64,
    pub addr: String,
    pub status_addr: String,
    /// `memory` selects the in-memory file system.
    pub dfs_s3_endpoint: String,
    pub raft_base_tick_interval_ms: u64,
    pub raft_store_max_leader_lease_ms: u64,
    pub split_region_check_tick_interval_ms: u64,
    pub raft_log_gc_tick_interval_ms: u64,
    pub pd_heartbeat_tick_interval_ms: u64,
    pub pd_store_heartbeat_tick_interval_ms: u64,
    /// Bytes.
    pub writecf_write_buffer_size: u64,
    /// Bytes.
    pub writecf_block_size: u64,
    /// Bytes.
    pub writecf_target_file_size_base: u64,
}

/// The data directory of node `node_id` under `base_dir`.
pub open spec fn data_dir_spec(base_dir: Seq<char>, node_id: u16) -> Seq<char> {
    base_dir.push('/') + decimal(node_id as nat)
}

/// The test profile of node `node_id`, whose data lives under `base_dir`.
pub fn new_test_config(base_dir: &str, node_id: u16) -> (r: TestConfig)
    ensures
        r.data_dir@ == data_dir_spec(base_dir@, node_id),
        r.cluster_id == 1,
        r.addr@ == node_addr_spec(node_id),
        r.status_addr@ == node_status_addr_spec(node_id),
        r.dfs_s3_endpoint@ == seq!['m', 'e', 'm', 'o', 'r', 'y'],
        r.raft_base_tick_interval_ms == 10,
        r.raft_store_max_leader_lease_ms == 20,
        r.split_region_check_tick_interval_ms == 100,
        r.raft_log_gc_tick_interval_ms == 100,
        r.pd_heartbeat_tick_interval_ms == 100,
        r.pd_store_heartbeat_tick_interval_ms == 100,
        r.writecf_write_buffer_size == 16 * 1024,
        r.writecf_block_size == 4 * 1024,
        r.writecf_target_file_size_base == 32 * 1024,
{
    proof {
        reveal_strlit("/");
        reveal_strlit("memory");
    }
    let mut data_dir = String::from_str(base_dir);
    data_dir.append("/");
    append_decimal(&mut data_dir, node_id);
    assert(data_dir@ =~= data_dir_spec(base_dir@, node_id));
    let dfs_s3_endpoint = String::from_str("memory");
    assert(dfs_s3_endpoint@ =~= seq!['m', 'e', 'm', 'o', 'r', 'y']);
    TestConfig {
        data_dir,
        cluster_id: 1,
        addr: node_addr(node_id),
        status_addr: node_status_addr(node_id),
        dfs_s3_endpoint,
        raft_base_tick_interval_ms: 10,
        raft_store_max_leader_lease_ms: 20,
        split_region_check_tick_interval_ms: 100,
        raft_log_gc_tick_interval_ms: 100,
        pd_heartbeat_tick_interval_ms: 100,
        pd_store_heartbeat_tick_interval_ms: 100,
        writecf_write_buffer_size: 16 * 1024,
        writecf_block_size: 4 * 1024,
        writecf_target_file_size_base: 32 * 1024,
    }
}

} // verus!
