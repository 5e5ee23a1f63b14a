use txn_retry::errors::CoreError;
use txn_retry::retry::RunResult;
use txn_retry::transfer::{run_transfer_with_retry, transfer_funds, Balances, TransferError};

#[test]
fn transfer_moves_the_amount() {
    let start = Balances { from_balance: 500, to_balance: 0 };
    let r = transfer_funds(start, 100);
    assert_eq!(
        r,
        Ok(Balances { from_balance: 400, to_balance: 100 })
    );
}

#[test]
fn transfer_of_whole_balance_is_allowed() {
    let start = Balances { from_balance: 100, to_balance: 7 };
    let r = transfer_funds(start, 100);
    assert_eq!(
        r,
        Ok(Balances { from_balance: 0, to_balance: 107 })
    );
}

#[test]
fn transfer_with_insufficient_funds_is_a_business_error() {
    let start = Balances { from_balance: 50, to_balance: 0 };
    assert_eq!(transfer_funds(start, 100), Err(TransferError::InsufficientFunds));
}

#[test]
fn successful_transfer_scenario() {
    // Accounts {1: 500, 2: 0}, amount 100, no injected conflicts.
    let start = Balances { from_balance: 500, to_balance: 0 };
    let r = run_transfer_with_retry(start, 100, 0, 5);
    assert!(matches!(r.outcome.result, RunResult::Committed));
    assert_eq!(r.outcome.attempts, 1);
    assert_eq!(r.outcome.commits, 1);
    assert_eq!(r.outcome.checkpoint_rollbacks, 0);
    assert_eq!(
        r.final_balances,
        Balances { from_balance: 400, to_balance: 100 }
    );
}

#[test]
fn conflict_then_success_scenario() {
    // Same transfer, one forced conflict on the first checkpoint release:
    // exactly two attempts, one rollback, one commit, same final balances.
    let start = Balances { from_balance: 500, to_balance: 0 };
    let r = run_transfer_with_retry(start, 100, 1, 5);
    assert!(matches!(r.outcome.result, RunResult::Committed));
    assert_eq!(r.outcome.attempts, 2);
    assert_eq!(r.outcome.checkpoint_rollbacks, 1);
    assert_eq!(r.outcome.commits, 1);
    assert_eq!(
        r.final_balances,
        Balances { from_balance: 400, to_balance: 100 }
    );
}

#[test]
fn insufficient_funds_scenario() {
    // Accounts {1: 50, 2: 0}, amount 100: a business error on the first
    // attempt, zero retries, balances unchanged after rollback.
    let start = Balances { from_balance: 50, to_balance: 0 };
    let r = run_transfer_with_retry(start, 100, 0, 5);
    assert_eq!(
        r.outcome.result,
        RunResult::Failed(CoreError::BusinessError(TransferError::InsufficientFunds))
    );
    assert_eq!(r.outcome.attempts, 1);
    assert_eq!(r.outcome.commits, 0);
    assert_eq!(r.outcome.txn_rollbacks, 1);
    assert_eq!(r.final_balances, start);
}

#[test]
fn repeated_runs_give_identical_outcomes() {
    // The same call with 0, 1 and 3 forced conflicts (within the budget)
    // commits exactly once each and lands on identical balances.
    let start = Balances { from_balance: 500, to_balance: 0 };
    let baseline = run_transfer_with_retry(start, 100, 0, 5);
    for forced in [1u64, 2, 3] {
        let r = run_transfer_with_retry(start, 100, forced, 5);
        assert_eq!(r.outcome.result, baseline.outcome.result);
        assert_eq!(r.final_balances, baseline.final_balances);
        assert_eq!(r.outcome.commits, 1);
        assert_eq!(r.outcome.attempts, forced + 1);
    }
}

#[test]
fn unlimited_conflicts_exhaust_the_transfer() {
    let start = Balances { from_balance: 500, to_balance: 0 };
    let r = run_transfer_with_retry(start, 100, u64::MAX, 6);
    assert_eq!(
        r.outcome.result,
        RunResult::Failed(CoreError::ConflictRetryExhausted)
    );
    assert_eq!(r.outcome.attempts, 6);
    assert_eq!(r.outcome.checkpoint_rollbacks, 6);
    assert_eq!(r.outcome.commits, 0);
    assert_eq!(r.final_balances, start);
}

#[test]
fn business_error_wins_over_injected_conflicts() {
    // The work fails before any checkpoint release, so the injector never
    // gets to force a conflict: one attempt, the business error surfaces.
    let start = Balances { from_balance: 50, to_balance: 0 };
    let r = run_transfer_with_retry(start, 100, 3, 5);
    assert_eq!(
        r.outcome.result,
        RunResult::Failed(CoreError::BusinessError(TransferError::InsufficientFunds))
    );
    assert_eq!(r.outcome.attempts, 1);
    assert_eq!(r.final_balances, start);
}

#[test]
fn negative_amount_moves_funds_the_other_way() {
    let start = Balances { from_balance: 10, to_balance: 300 };
    let r = transfer_funds(start, -200);
    assert_eq!(
        r,
        Ok(Balances { from_balance: 210, to_balance: 100 })
    );
}
