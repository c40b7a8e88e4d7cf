//! Regions as the metadata service reports them, the request context derived
//! from them, and the administrative decisions taken on them.
use vstd::prelude::*;
use crate::retry::{
    poll_step, poll_step_spec, Step, DRAIN_INTERVAL_MS, DRAIN_POLLS, REPLICATION_INTERVAL_MS,
    REPLICATION_POLLS, SPLIT_ATTEMPTS, SPLIT_INTERVAL_MS,
};

verus! {

/// One replica of a region on one store.
#[derive(Debug, PartialEq, Eq, Structural, Clone, Copy)]
pub struct Peer {
    pub id: u64,
    pub store_id: u64,
}

/// The epoch of a region: configuration version and range version.
#[derive(Debug, PartialEq, Eq, Structural, Clone, Copy)]
pub struct RegionEpoch {
    pub conf_ver: u64,
    pub version: u64,
}

/// A region with its peers and its current leader, if one is known.
pub struct RegionInfo {
    pub id: u64,
    pub epoch: RegionEpoch,
    pub peers: Vec<Peer>,
    pub leader: Option<Peer>,
}

/// What every request keyed by a user key carries: the region, its epoch and
/// the leader peer to send to.
#[derive(Debug, PartialEq, Eq, Structural, Clone, Copy)]
pub struct RpcContext {
    pub region_id: u64,
    pub region_epoch: RegionEpoch,
    pub peer: Peer,
}

/// The context of a request to `region`, addressed to its leader; `None`
/// when the region has no known leader.
pub fn new_rpc_context(region: &RegionInfo) -> (r: Option<RpcContext>)
    ensures
        r is Some <==> region.leader is Some,
        r matches Some(ctx) ==> ctx == (RpcContext {
            region_id: region.id,
            region_epoch: region.epoch,
            peer: region.leader->0,
        }),
{
    match region.leader {
        Some(leader) => Some(RpcContext { region_id: region.id, region_epoch: region.epoch, peer: leader }),
        None => None,
    }
}

/// The first peer of `peers` that lies on store `store_id` (`on_store`), or
/// on another store (`!on_store`).
fn first_peer(peers: &Vec<Peer>, store_id: u64, on_store: bool) -> (r: Option<Peer>)
    ensures
        r is None <==> forall|i: int|
            0 <= i < peers@.len() ==> (#[trigger] peers@[i].store_id == store_id) != on_store,
        r matches Some(p) ==> exists|i: int|
            0 <= i < peers@.len() && peers@[i] == p && (p.store_id == store_id) == on_store
                && forall|j: int| 0 <= j < i ==> (#[trigger] peers@[j].store_id == store_id) != on_store,
{
    let mut i: usize = 0;
    while i < peers.len()
        invariant
            i <= peers@.len(),
            forall|j: int| 0 <= j < i ==> (#[trigger] peers@[j].store_id == store_id) != on_store,
        decreases peers@.len() - i,
    {
        if (peers[i].store_id == store_id) == on_store {
            return Some(peers[i]);
        }
        i = i + 1;
    }
    None
}

/// The first peer of the region that lies on store `store_id`.
pub fn find_peer(peers: &Vec<Peer>, store_id: u64) -> (r: Option<Peer>)
    ensures
        r is None <==> forall|i: int| 0 <= i < peers@.len() ==> #[trigger] peers@[i].store_id != store_id,
        r matches Some(p) ==> exists|i: int|
            0 <= i < peers@.len() && peers@[i] == p && p.store_id == store_id && forall|j: int|
                0 <= j < i ==> #[trigger] peers@[j].store_id != store_id,
{
    first_peer(peers, store_id, true)
}

/// Why a region cannot be drained off a store.
#[derive(Debug, PartialEq, Eq, Structural, Clone, Copy)]
pub enum DrainError {
    /// The store holds the leader and the region has no peer elsewhere.
    NoTransferTarget,
}

/// The steps that take one region off a store.
#[derive(Debug, PartialEq, Eq, Structural, Clone, Copy)]
pub struct DrainPlan {
    /// Move the leadership to this peer first, and wait until it holds it.
    pub transfer_to: Option<Peer>,
    /// Then remove this peer, and wait until it is gone.
    pub remove: Option<Peer>,
}

/// Plans the removal of a region's peer from store `store_id`: when the store
/// holds the leader, leadership first goes to the first peer on another store;
/// then the first peer on the store is removed, if the region has one.
pub fn plan_region_drain(peers: &Vec<Peer>, leader: Peer, store_id: u64) -> (r: Result<
    DrainPlan,
    DrainError,
>)
    ensures
        r is Err <==> leader.store_id == store_id && forall|i: int|
            0 <= i < peers@.len() ==> #[trigger] peers@[i].store_id == store_id,
        r matches Ok(plan) ==> {
            &&& plan.transfer_to is Some <==> leader.store_id == store_id
            &&& plan.transfer_to matches Some(t) ==> exists|i: int|
                0 <= i < peers@.len() && peers@[i] == t && t.store_id != store_id && forall|j: int|
                    0 <= j < i ==> #[trigger] peers@[j].store_id == store_id
            &&& plan.remove is None <==> forall|i: int|
                0 <= i < peers@.len() ==> #[trigger] peers@[i].store_id != store_id
            &&& plan.remove matches Some(p) ==> exists|i: int|
                0 <= i < peers@.len() && peers@[i] == p && p.store_id == store_id && forall|j: int|
                    0 <= j < i ==> #[trigger] peers@[j].store_id != store_id
        },
{
    let transfer_to = if leader.store_id == store_id {
        match first_peer(peers, store_id, false) {
            Some(t) => Some(t),
            None => {
                return Err(DrainError::NoTransferTarget);
            },
        }
    } else {
        None
    };
    Ok(DrainPlan { transfer_to, remove: find_peer(peers, store_id) })
}

/// Whether a region counts as replicated: it has at least `replica_cnt`
/// peers, and for each peer (`applied[i]` for `peers[i]`) the engine of its
/// node can open the region at its current id and version.
pub open spec fn replicated(peer_count: nat, replica_cnt: nat, applied: Seq<bool>) -> bool {
    &&& peer_count >= replica_cnt
    &&& applied.len() == peer_count
    &&& forall|i: int| 0 <= i < applied.len() ==> #[trigger] applied[i]
}

/// Decides whether `region` is replicated, from what each of its peers'
/// engines reported (`applied[i]` for `region.peers[i]`).
pub fn region_replicated(region: &RegionInfo, replica_cnt: usize, applied: &Vec<bool>) -> (r: bool)
    ensures
        r == replicated(region.peers@.len(), replica_cnt as nat, applied@),
{
    if region.peers.len() < replica_cnt || applied.len() != region.peers.len() {
        return false;
    }
    let mut i: usize = 0;
    while i < applied.len()
        invariant
            i <= applied@.len(),
            forall|j: int| 0 <= j < i ==> #[trigger] applied@[j],
        decreases applied@.len() - i,
    {
        if !applied[i] {
            return false;
        }
        i = i + 1;
    }
    true
}

/// After the `made`-th split attempt, which met a region error exactly when
/// `region_error`: stop, retry after `SPLIT_INTERVAL_MS`, or give up after
/// `SPLIT_ATTEMPTS` attempts.
pub fn split_step(made: u32, region_error: bool) -> (r: Step)
    ensures
        r == poll_step_spec(SPLIT_ATTEMPTS, SPLIT_INTERVAL_MS, made, !region_error),
        r == Step::Done <==> !region_error,
{
    poll_step(SPLIT_ATTEMPTS, SPLIT_INTERVAL_MS, made, !region_error)
}

/// After the `made`-th poll of a region's replication: stop only when the
/// region, as just read, is replicated (see `region_replicated`); else poll
/// again after `REPLICATION_INTERVAL_MS`, or give up after
/// `REPLICATION_POLLS` polls.
pub fn replication_step(region: &RegionInfo, replica_cnt: usize, applied: &Vec<bool>, made: u32) -> (r:
    Step)
    ensures
        r == poll_step_spec(
            REPLICATION_POLLS,
            REPLICATION_INTERVAL_MS,
            made,
            replicated(region.peers@.len(), replica_cnt as nat, applied@),
        ),
        r == Step::Done <==> replicated(region.peers@.len(), replica_cnt as nat, applied@),
{
    let ok = region_replicated(region, replica_cnt, applied);
    poll_step(REPLICATION_POLLS, REPLICATION_INTERVAL_MS, made, ok)
}

/// After the `made`-th poll of a drained node: stop only when the node's
/// engine reported no shard; else poll again after `DRAIN_INTERVAL_MS`, or
/// give up after `DRAIN_POLLS` polls.
pub fn drain_step(shard_count: usize, made: u32) -> (r: Step)
    ensures
        r == poll_step_spec(DRAIN_POLLS, DRAIN_INTERVAL_MS, made, shard_count == 0),
        r == Step::Done <==> shard_count == 0,
{
    poll_step(DRAIN_POLLS, DRAIN_INTERVAL_MS, made, shard_count == 0)
}

} // verus!
