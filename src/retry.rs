//! Retry and poll decisions. The caller performs each attempt and each sleep;
//! these functions decide what comes next.
use vstd::prelude::*;

verus! {

/// Attempts of a transactional RPC before giving up is allowed.
pub const RPC_RETRY_ATTEMPTS: u32 = 10;

/// Time, in milliseconds, a transactional RPC is retried at least.
pub const RPC_RETRY_TIMEOUT_MS: u64 = 3000;

/// Pause, in milliseconds, between two attempts of a transactional RPC.
pub const RPC_RETRY_INTERVAL_MS: u64 = 200;

/// Attempts of a region split.
pub const SPLIT_ATTEMPTS: u32 = 10;

/// Pause, in milliseconds, between two split attempts.
pub const SPLIT_INTERVAL_MS: u64 = 10;

/// Polls of the replication state of a region.
pub const REPLICATION_POLLS: u32 = 10;

/// Pause, in milliseconds, between two replication polls.
pub const REPLICATION_INTERVAL_MS: u64 = 300;

/// Polls of a drained node's shard list.
pub const DRAIN_POLLS: u32 = 30;

/// Pause, in milliseconds, between two polls of a drained node.
pub const DRAIN_INTERVAL_MS: u64 = 100;

/// What to do after an attempt.
#[derive(Debug, PartialEq, Eq, Structural, Clone, Copy)]
pub enum Step {
    /// The attempt succeeded: stop.
    Done,
    /// Sleep for the given milliseconds, then attempt again.
    Wait(u64),
    /// The budget is spent: stop and report the last failure.
    GiveUp,
}

/// A retry budget: both the attempts and the time must be spent before
/// giving up.
#[derive(Debug, PartialEq, Eq, Structural, Clone, Copy)]
pub struct RetryBudget {
    pub max_attempts: u32,
    pub timeout_ms: u64,
    pub interval_ms: u64,
}

/// The budget of the transactional RPCs (prewrite and commit).
pub fn rpc_retry_budget() -> (r: RetryBudget)
    ensures
        r == (RetryBudget {
            max_attempts: RPC_RETRY_ATTEMPTS,
            timeout_ms: RPC_RETRY_TIMEOUT_MS,
            interval_ms: RPC_RETRY_INTERVAL_MS,
        }),
{
    RetryBudget {
        max_attempts: RPC_RETRY_ATTEMPTS,
        timeout_ms: RPC_RETRY_TIMEOUT_MS,
        interval_ms: RPC_RETRY_INTERVAL_MS,
    }
}

/// The decision of the retry driver, as a spec.
pub open spec fn retry_step_spec(b: RetryBudget, retried: u32, elapsed_ms: u64, ok: bool) -> Step {
    if ok {
        Step::Done
    } else if retried < b.max_attempts || elapsed_ms < b.timeout_ms {
        Step::Wait(b.interval_ms)
    } else {
        Step::GiveUp
    }
}

/// Decides, after an attempt whose result satisfied the success predicate
/// exactly when `ok`, whether to stop or to retry. `retried` counts the
/// retries made so far and `elapsed_ms` the time since the first attempt.
/// The driver gives up only once the retries reached `max_attempts` and the
/// time reached `timeout_ms`.
pub fn retry_step(b: RetryBudget, retried: u32, elapsed_ms: u64, ok: bool) -> (r: Step)
    ensures
        r == retry_step_spec(b, retried, elapsed_ms, ok),
        r == Step::Done <==> ok,
        r == Step::GiveUp <==> !ok && retried >= b.max_attempts && elapsed_ms >= b.timeout_ms,
{
    if ok {
        Step::Done
    } else if retried < b.max_attempts || elapsed_ms < b.timeout_ms {
        Step::Wait(b.interval_ms)
    } else {
        Step::GiveUp
    }
}

/// The decision of a fixed-count poll, as a spec.
pub open spec fn poll_step_spec(attempts: u32, interval_ms: u64, made: u32, ok: bool) -> Step {
    if ok {
        Step::Done
    } else if made < attempts {
        Step::Wait(interval_ms)
    } else {
        Step::GiveUp
    }
}

/// Decides, after the `made`-th of at most `attempts` polls, whose condition
/// held exactly when `ok`, whether to stop, to sleep `interval_ms` and poll
/// again, or to give up.
pub fn poll_step(attempts: u32, interval_ms: u64, made: u32, ok: bool) -> (r: Step)
    ensures
        r == poll_step_spec(attempts, interval_ms, made, ok),
        r == Step::Done <==> ok,
        r == Step::GiveUp <==> !ok && made >= attempts,
{
    if ok {
        Step::Done
    } else if made < attempts {
        Step::Wait(interval_ms)
    } else {
        Step::GiveUp
    }
}

} // verus!
