use test_cloud_server::retry::{
    poll_step, retry_step, rpc_retry_budget, RetryBudget, Step, RPC_RETRY_ATTEMPTS,
    RPC_RETRY_TIMEOUT_MS,
};

#[test]
fn rpc_budget_values() {
    assert_eq!(
        rpc_retry_budget(),
        RetryBudget { max_attempts: 10, timeout_ms: 3000, interval_ms: 200 }
    );
}

#[test]
fn retry_stops_on_success() {
    assert_eq!(retry_step(rpc_retry_budget(), 0, 0, true), Step::Done);
    assert_eq!(retry_step(rpc_retry_budget(), 50, 99999, true), Step::Done);
}

#[test]
fn retry_tolerates_one_transient_failure() {
    let b = rpc_retry_budget();
    // First attempt met a region error, the retry succeeded.
    assert_eq!(retry_step(b, 0, 5, false), Step::Wait(200));
    assert_eq!(retry_step(b, 1, 210, true), Step::Done);
}

#[test]
fn retry_needs_both_budgets_spent() {
    let b = rpc_retry_budget();
    // Attempts spent, time left: keep going.
    assert_eq!(retry_step(b, RPC_RETRY_ATTEMPTS, 5, false), Step::Wait(200));
    // Time spent, attempts left: keep going.
    assert_eq!(retry_step(b, 3, RPC_RETRY_TIMEOUT_MS, false), Step::Wait(200));
    // Both spent: give up.
    assert_eq!(retry_step(b, RPC_RETRY_ATTEMPTS, RPC_RETRY_TIMEOUT_MS, false), Step::GiveUp);
}

#[test]
fn poll_gives_up_after_attempts() {
    assert_eq!(poll_step(3, 7, 1, false), Step::Wait(7));
    assert_eq!(poll_step(3, 7, 2, false), Step::Wait(7));
    assert_eq!(poll_step(3, 7, 3, false), Step::GiveUp);
    assert_eq!(poll_step(3, 7, 3, true), Step::Done);
}
