use test_cloud_server::config::new_test_config;
use test_cloud_server::endpoint::{node_addr, node_status_addr};

#[test]
fn node_addr_pads_to_four_digits() {
    assert_eq!(node_addr(1), "127.0.0.1:20001");
    assert_eq!(node_addr(0), "127.0.0.1:20000");
    assert_eq!(node_addr(42), "127.0.0.1:20042");
    assert_eq!(node_addr(9999), "127.0.0.1:29999");
}

#[test]
fn node_addr_keeps_five_digit_ids_whole() {
    assert_eq!(node_addr(12345), "127.0.0.1:212345");
    assert_eq!(node_addr(65535), "127.0.0.1:265535");
}

#[test]
fn node_status_addr_uses_prefix_three() {
    assert_eq!(node_status_addr(1), "127.0.0.1:30001");
    assert_eq!(node_status_addr(305), "127.0.0.1:30305");
}

#[test]
fn distinct_nodes_get_distinct_addresses() {
    let mut seen = std::collections::HashSet::new();
    for n in 0..=2000u16 {
        assert!(seen.insert(node_addr(n)));
    }
}

#[test]
fn test_config_fixes_profile() {
    let c = new_test_config("/tmp/abc", 7);
    assert_eq!(c.data_dir, "/tmp/abc/7");
    assert_eq!(c.cluster_id, 1);
    assert_eq!(c.addr, "127.0.0.1:20007");
    assert_eq!(c.status_addr, "127.0.0.1:30007");
    assert_eq!(c.dfs_s3_endpoint, "memory");
    assert_eq!(c.raft_base_tick_interval_ms, 10);
    assert_eq!(c.raft_store_max_leader_lease_ms, 20);
    assert_eq!(c.split_region_check_tick_interval_ms, 100);
    assert_eq!(c.raft_log_gc_tick_interval_ms, 100);
    assert_eq!(c.pd_heartbeat_tick_interval_ms, 100);
    assert_eq!(c.pd_store_heartbeat_tick_interval_ms, 100);
    assert_eq!(c.writecf_write_buffer_size, 16384);
    assert_eq!(c.writecf_block_size, 4096);
    assert_eq!(c.writecf_target_file_size_base, 32768);
}

#[test]
fn test_config_data_dir_is_not_padded() {
    let c = new_test_config("base", 123);
    assert_eq!(c.data_dir, "base/123");
}
