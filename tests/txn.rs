use test_cloud_server::region::{Peer, RegionEpoch, RpcContext};
use test_cloud_server::txn::{
    commit_ok, commit_request, plan_put_kv, prewrite_ok, prewrite_request, put_mut, Op, TxnError,
};

fn ctx() -> RpcContext {
    RpcContext {
        region_id: 2,
        region_epoch: RegionEpoch { conf_ver: 1, version: 1 },
        peer: Peer { id: 3, store_id: 1 },
    }
}

#[test]
fn put_mut_builds_put() {
    let m = put_mut("k1", "v1");
    assert_eq!(m.op, Op::Put);
    assert_eq!(m.key, b"k1".to_vec());
    assert_eq!(m.value, b"v1".to_vec());
}

#[test]
fn put_kv_empty_range_plans_nothing() {
    let calls = std::cell::Cell::new(0);
    let key = |i: usize| {
        calls.set(calls.get() + 1);
        format!("k{}", i).into_bytes()
    };
    let val = |i: usize| format!("v{}", i).into_bytes();
    assert!(plan_put_kv(5, 5, &key, &val).is_none());
    assert!(plan_put_kv(7, 3, &key, &val).is_none());
    assert_eq!(calls.get(), 0);
}

#[test]
fn put_kv_plans_one_put_per_index() {
    let key = |i: usize| format!("k{}", i).into_bytes();
    let val = |i: usize| format!("v{}", i).into_bytes();
    let plan = plan_put_kv(0, 10, &key, &val).unwrap();
    assert_eq!(plan.mutations.len(), 10);
    assert_eq!(plan.primary, b"k0".to_vec());
    assert_eq!(plan.mutations[5].key, b"k5".to_vec());
    assert_eq!(plan.mutations[5].value, b"v5".to_vec());
    for (i, m) in plan.mutations.iter().enumerate() {
        assert_eq!(m.op, Op::Put);
        assert_eq!(plan.keys[i], m.key);
    }
}

#[test]
fn put_kv_single_key() {
    let plan = plan_put_kv(0, 1, &|_| b"k".to_vec(), &|_| b"v".to_vec()).unwrap();
    assert_eq!(plan.keys, vec![b"k".to_vec()]);
    assert_eq!(plan.primary, b"k".to_vec());
    assert_eq!(plan.mutations[0].value, b"v".to_vec());
}

#[test]
fn put_kv_offset_range() {
    let plan =
        plan_put_kv(40, 43, &|i| vec![i as u8], &|i| vec![i as u8, 0]).unwrap();
    assert_eq!(plan.keys, vec![vec![40], vec![41], vec![42]]);
    assert_eq!(plan.primary, vec![40]);
    assert_eq!(plan.mutations[2].value, vec![42, 0]);
}

#[test]
fn prewrite_request_fields() {
    let req = prewrite_request(ctx(), vec![put_mut("a", "1"), put_mut("b", "2")], b"b".to_vec(), 41)
        .unwrap();
    assert_eq!(req.context, ctx());
    assert_eq!(req.primary_lock, b"b".to_vec());
    assert_eq!(req.start_version, 41);
    assert_eq!(req.lock_ttl, 3000);
    assert_eq!(req.min_commit_ts, 42);
    assert_eq!(req.mutations.len(), 2);
}

#[test]
fn prewrite_request_needs_primary_among_mutations() {
    let r = prewrite_request(ctx(), vec![put_mut("a", "1")], b"z".to_vec(), 1);
    assert_eq!(r.err(), Some(TxnError::PrimaryNotMutated));
    let r = prewrite_request(ctx(), vec![], b"a".to_vec(), 1);
    assert_eq!(r.err(), Some(TxnError::PrimaryNotMutated));
}

#[test]
fn prewrite_request_needs_room_for_commit_ts() {
    let r = prewrite_request(ctx(), vec![put_mut("a", "1")], b"a".to_vec(), u64::MAX);
    assert_eq!(r.err(), Some(TxnError::StartTsExhausted));
}

#[test]
fn commit_request_fields() {
    let req = commit_request(ctx(), vec![b"a".to_vec()], 10, 11).unwrap();
    assert_eq!(req.keys, vec![b"a".to_vec()]);
    assert_eq!(req.start_version, 10);
    assert_eq!(req.commit_version, 11);
}

#[test]
fn commit_request_errors() {
    assert_eq!(commit_request(ctx(), vec![], 10, 11).err(), Some(TxnError::NoKeys));
    assert_eq!(
        commit_request(ctx(), vec![b"a".to_vec()], 10, 10).err(),
        Some(TxnError::CommitNotAfterStart)
    );
    assert_eq!(
        commit_request(ctx(), vec![b"a".to_vec()], 10, 9).err(),
        Some(TxnError::CommitNotAfterStart)
    );
}

#[test]
fn success_predicates() {
    assert!(prewrite_ok(false, 0));
    assert!(!prewrite_ok(true, 0));
    assert!(!prewrite_ok(false, 2));
    assert!(commit_ok(false, false));
    assert!(!commit_ok(true, false));
    assert!(!commit_ok(false, true));
}
