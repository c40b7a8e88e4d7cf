//! The two-phase write path: mutations, the prewrite and commit requests,
//! their success predicates, and the plan of a batched put.
use vstd::prelude::*;
use crate::region::RpcContext;
use vstd::string::{StrSliceExecFns, StringSliceAdditionalSpecFns};

verus! {

/// Time to live of the locks a prewrite takes, in milliseconds.
pub const LOCK_TTL_MS: u64 = 3000;

/// The kind of a mutation.
#[derive(Debug, PartialEq, Eq, Structural, Clone, Copy)]
pub enum Op {
    Put,
    Del,
}

/// One mutation of a transaction.
pub struct Mutation {
    pub op: Op,
    pub key: Vec<u8>,
    pub value: Vec<u8>,
}

/// A put of the bytes of `val` under the bytes of `key`.
pub fn put_mut(key: &str, val: &str) -> (r: Mutation)
    ensures
        r.op == Op::Put,
        r.key@ == key.spec_bytes(),
        r.value@ == val.spec_bytes(),
{
    Mutation { op: Op::Put, key: key.as_bytes_vec(), value: val.as_bytes_vec() }
}

/// Why a transactional request cannot be built.
#[derive(Debug, PartialEq, Eq, Structural, Clone, Copy)]
pub enum TxnError {
    /// The primary key is not the key of any mutation.
    PrimaryNotMutated,
    /// The start timestamp leaves no room for a later commit timestamp.
    StartTsExhausted,
    /// A commit names no key.
    NoKeys,
    /// The commit timestamp is not after the start timestamp.
    CommitNotAfterStart,
}

/// A prewrite request.
pub struct PrewriteRequest {
    pub context: RpcContext,
    pub mutations: Vec<Mutation>,
    pub primary_lock: Vec<u8>,
    pub start_version: u64,
    pub lock_ttl: u64,
    pub min_commit_ts: u64,
}

/// A commit request.
pub struct CommitRequest {
    pub context: RpcContext,
    pub keys: Vec<Vec<u8>>,
    pub start_version: u64,
    pub commit_version: u64,
}

/// Whether some mutation of `muts` is keyed by `key`.
pub open spec fn mutates(muts: Seq<Mutation>, key: Seq<u8>) -> bool {
    exists|i: int| 0 <= i < muts.len() && (#[trigger] muts[i]).key@ == key
}

fn bytes_eq(a: &Vec<u8>, b: &Vec<u8>) -> (r: bool)
    ensures
        r == (a@ == b@),
{
    if a.len() != b.len() {
        return false;
    }
    let mut i: usize = 0;
    while i < a.len()
        invariant
            i <= a@.len(),
            a@.len() == b@.len(),
            forall|j: int| 0 <= j < i ==> a@[j] == b@[j],
        decreases a@.len() - i,
    {
        if a[i] != b[i] {
            return false;
        }
        i = i + 1;
    }
    assert(a@ =~= b@);
    true
}

fn contains_key(muts: &Vec<Mutation>, key: &Vec<u8>) -> (r: bool)
    ensures
        r == mutates(muts@, key@),
{
    let mut i: usize = 0;
    while i < muts.len()
        invariant
            i <= muts@.len(),
            forall|j: int| 0 <= j < i ==> (#[trigger] muts@[j]).key@ != key@,
        decreases muts@.len() - i,
    {
        if bytes_eq(&muts[i].key, key) {
            return true;
        }
        i = i + 1;
    }
    false
}

/// The prewrite of `muts` at `start_ts` with primary key `pk`, sent with
/// `ctx`: locks live `LOCK_TTL_MS` and the commit timestamp must exceed
/// `start_ts`. The primary key must be one of the mutated keys.
pub fn prewrite_request(ctx: RpcContext, muts: Vec<Mutation>, pk: Vec<u8>, start_ts: u64) -> (r:
    Result<PrewriteRequest, TxnError>)
    ensures
        !mutates(muts@, pk@) ==> r == Err::<PrewriteRequest, TxnError>(TxnError::PrimaryNotMutated),
        mutates(muts@, pk@) && start_ts == u64::MAX ==> r == Err::<PrewriteRequest, TxnError>(
            TxnError::StartTsExhausted,
        ),
        r is Ok <==> mutates(muts@, pk@) && start_ts < u64::MAX,
        r matches Ok(req) ==> {
            &&& req.context == ctx
            &&& req.mutations@ == muts@
            &&& req.primary_lock@ == pk@
            &&& req.start_version == start_ts
            &&& req.lock_ttl == LOCK_TTL_MS
            &&& req.min_commit_ts == start_ts + 1
        },
{
    if !contains_key(&muts, &pk) {
        return Err(TxnError::PrimaryNotMutated);
    }
    if start_ts == u64::MAX {
        return Err(TxnError::StartTsExhausted);
    }
    Ok(PrewriteRequest {
        context: ctx,
        mutations: muts,
        primary_lock: pk,
        start_version: start_ts,
        lock_ttl: LOCK_TTL_MS,
        min_commit_ts: start_ts + 1,
    })
}

/// The commit of `keys`, prewritten at `start_ts`, at `commit_ts`, sent
/// with `ctx`. There must be a key, and `commit_ts` must exceed `start_ts`.
pub fn commit_request(ctx: RpcContext, keys: Vec<Vec<u8>>, start_ts: u64, commit_ts: u64) -> (r:
    Result<CommitRequest, TxnError>)
    ensures
        keys@.len() == 0 ==> r == Err::<CommitRequest, TxnError>(TxnError::NoKeys),
        keys@.len() > 0 && commit_ts <= start_ts ==> r == Err::<CommitRequest, TxnError>(
            TxnError::CommitNotAfterStart,
        ),
        r is Ok <==> keys@.len() > 0 && commit_ts > start_ts,
        r matches Ok(req) ==> {
            &&& req.context == ctx
            &&& req.keys@ == keys@
            &&& req.start_version == start_ts
            &&& req.commit_version == commit_ts
        },
{
    if keys.len() == 0 {
        return Err(TxnError::NoKeys);
    }
    if commit_ts <= start_ts {
        return Err(TxnError::CommitNotAfterStart);
    }
    Ok(CommitRequest { context: ctx, keys, start_version: start_ts, commit_version: commit_ts })
}

/// A prewrite succeeded: no region error and no error on any key.
pub fn prewrite_ok(has_region_error: bool, key_errors: usize) -> (r: bool)
    ensures
        r == (!has_region_error && key_errors == 0),
{
    !has_region_error && key_errors == 0
}

/// A commit succeeded: no region error and no key error.
pub fn commit_ok(has_region_error: bool, has_error: bool) -> (r: bool)
    ensures
        r == (!has_region_error && !has_error),
{
    !has_region_error && !has_error
}

/// The requests of one batched put: the mutations, the primary key (the key
/// of the first mutation) and the keys to commit, in the same order.
pub struct PutKvPlan {
    pub mutations: Vec<Mutation>,
    pub primary: Vec<u8>,
    pub keys: Vec<Vec<u8>>,
}

/// Plans a batched put over the indices `start..end`: one put of
/// `gen_val(i)` under `gen_key(i)` for each index, in order. An empty range
/// plans nothing (`None`), so that no request is sent.
pub fn plan_put_kv<F, G>(start: usize, end: usize, gen_key: &F, gen_val: &G) -> (r: Option<PutKvPlan>)
    where
        F: Fn(usize) -> Vec<u8>,
        G: Fn(usize) -> Vec<u8>,
    requires
        forall|i: usize| start <= i < end ==> gen_key.requires((i,)) && gen_val.requires((i,)),
    ensures
        r is None <==> start >= end,
        r matches Some(plan) ==> {
            &&& plan.mutations@.len() == end - start
            &&& plan.keys@.len() == end - start
            &&& forall|k: int| 0 <= k < end - start ==> {
                &&& (#[trigger] plan.mutations@[k]).op == Op::Put
                &&& gen_key.ensures(((start + k) as usize,), plan.mutations@[k].key)
                &&& gen_val.ensures(((start + k) as usize,), plan.mutations@[k].value)
                &&& plan.keys@[k]@ == plan.mutations@[k].key@
            }
            &&& plan.primary@ == plan.mutations@[0].key@
        },
{
    if start >= end {
        return None;
    }
    let mut mutations: Vec<Mutation> = Vec::new();
    let mut keys: Vec<Vec<u8>> = Vec::new();
    let mut i: usize = start;
    while i < end
        invariant
            start <= i <= end,
            forall|j: usize| start <= j < end ==> gen_key.requires((j,)) && gen_val.requires((j,)),
            mutations@.len() == i - start,
            keys@.len() == i - start,
            forall|k: int| 0 <= k < i - start ==> {
                &&& (#[trigger] mutations@[k]).op == Op::Put
                &&& gen_key.ensures(((start + k) as usize,), mutations@[k].key)
                &&& gen_val.ensures(((start + k) as usize,), mutations@[k].value)
                &&& keys@[k]@ == mutations@[k].key@
            },
        decreases end - i,
    {
        let key = gen_key(i);
        let value = gen_val(i);
        let copy = key.clone();
        assert(copy@ =~= key@);
        keys.push(copy);
        mutations.push(Mutation { op: Op::Put, key, value });
        i = i + 1;
    }
    let primary = keys[0].clone();
    assert(primary@ =~= keys@[0]@);
    Some(PutKvPlan { mutations, primary, keys })
}

/// The plan of a non-empty batched put can always be sent: its primary key is
/// one of its mutated keys, so the prewrite is accepted at any start timestamp
/// that leaves room for a later one, and its commit names at least one key.
pub proof fn lemma_plan_is_sendable(plan: &PutKvPlan)
    requires
        plan.mutations@.len() > 0,
        plan.keys@.len() == plan.mutations@.len(),
        plan.primary@ == plan.mutations@[0].key@,
    ensures
        mutates(plan.mutations@, plan.primary@),
        plan.keys@.len() > 0,
{
    assert(plan.mutations@[0].key@ == plan.primary@);
}

} // verus!
