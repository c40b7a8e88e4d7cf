use test_cloud_server::region::{
    drain_step, find_peer, new_rpc_context, plan_region_drain, region_replicated,
    replication_step, split_step, DrainError, DrainPlan, Peer, RegionEpoch, RegionInfo,
    RpcContext,
};
use test_cloud_server::retry::Step;

fn peer(id: u64, store_id: u64) -> Peer {
    Peer { id, store_id }
}

fn region(peers: Vec<Peer>, leader: Option<Peer>) -> RegionInfo {
    RegionInfo { id: 8, epoch: RegionEpoch { conf_ver: 3, version: 5 }, peers, leader }
}

#[test]
fn rpc_context_targets_leader() {
    let r = region(vec![peer(1, 1), peer(2, 2)], Some(peer(2, 2)));
    assert_eq!(
        new_rpc_context(&r),
        Some(RpcContext {
            region_id: 8,
            region_epoch: RegionEpoch { conf_ver: 3, version: 5 },
            peer: peer(2, 2)
        })
    );
    assert_eq!(new_rpc_context(&region(vec![peer(1, 1)], None)), None);
}

#[test]
fn find_peer_picks_first_on_store() {
    let peers = vec![peer(1, 1), peer(2, 2), peer(3, 2)];
    assert_eq!(find_peer(&peers, 2), Some(peer(2, 2)));
    assert_eq!(find_peer(&peers, 9), None);
}

#[test]
fn drain_transfers_leadership_first() {
    let peers = vec![peer(1, 1), peer(2, 2), peer(3, 3)];
    let plan = plan_region_drain(&peers, peer(1, 1), 1).unwrap();
    assert_eq!(plan, DrainPlan { transfer_to: Some(peer(2, 2)), remove: Some(peer(1, 1)) });
}

#[test]
fn drain_follower_is_removed_directly() {
    let peers = vec![peer(1, 1), peer(2, 2), peer(3, 3)];
    let plan = plan_region_drain(&peers, peer(2, 2), 3).unwrap();
    assert_eq!(plan, DrainPlan { transfer_to: None, remove: Some(peer(3, 3)) });
}

#[test]
fn drain_without_peer_on_store_does_nothing() {
    let peers = vec![peer(2, 2), peer(3, 3)];
    let plan = plan_region_drain(&peers, peer(2, 2), 1).unwrap();
    assert_eq!(plan, DrainPlan { transfer_to: None, remove: None });
}

#[test]
fn drain_of_lone_leader_fails() {
    let peers = vec![peer(1, 1)];
    assert_eq!(plan_region_drain(&peers, peer(1, 1), 1), Err(DrainError::NoTransferTarget));
}

#[test]
fn replication_needs_count_and_snapshots() {
    let r = region(vec![peer(1, 1), peer(2, 2), peer(3, 3)], Some(peer(1, 1)));
    assert!(region_replicated(&r, 3, &vec![true, true, true]));
    assert!(!region_replicated(&r, 3, &vec![true, false, true]));
    assert!(!region_replicated(&r, 4, &vec![true, true, true]));
    assert!(!region_replicated(&r, 3, &vec![true, true]));
    assert!(region_replicated(&r, 2, &vec![true, true, true]));
}

#[test]
fn replication_poll_steps() {
    let r = region(vec![peer(1, 1), peer(2, 2), peer(3, 3)], Some(peer(1, 1)));
    assert_eq!(replication_step(&r, 3, &vec![true, true, true], 1), Step::Done);
    assert_eq!(replication_step(&r, 3, &vec![true, true, false], 1), Step::Wait(300));
    assert_eq!(replication_step(&r, 3, &vec![], 10), Step::GiveUp);
}

#[test]
fn drain_poll_steps() {
    assert_eq!(drain_step(0, 1), Step::Done);
    assert_eq!(drain_step(2, 1), Step::Wait(100));
    assert_eq!(drain_step(2, 30), Step::GiveUp);
}

#[test]
fn split_steps() {
    assert_eq!(split_step(1, false), Step::Done);
    assert_eq!(split_step(1, true), Step::Wait(10));
    assert_eq!(split_step(10, true), Step::GiveUp);
}
