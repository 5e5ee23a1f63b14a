//! A funds transfer between two accounts: the example unit of work the
//! retry loop wraps.
//!
//! The decision logic works on plain balances; the caller reads them from
//! and writes them back to the database inside the wrapped transaction.
//! A transfer whose debited account holds too little is a business error,
//! never retried; it leaves the balances untouched.

use vstd::prelude::*;

use crate::errors::CoreError;
use crate::retry::{AttemptEvent, Decision, RetryLoop, RunReport, RunResult};

verus! {

/// The balances of the two accounts a transfer touches.
#[derive(Clone, Copy, Debug, PartialEq, Eq, Structural)]
pub struct Balances {
    /// The balance of the debited account.
    pub from_balance: i64,
    /// The balance of the credited account.
    pub to_balance: i64,
}

/// The business errors a transfer can return.
#[derive(Clone, Copy, Debug, PartialEq, Eq, Structural)]
pub enum TransferError {
    /// The debited account's balance is below the transfer amount.
    InsufficientFunds,
}

/// The transfer unit of work: debits `amount` from one account and credits
/// it to the other, provided the debited balance suffices; otherwise it
/// changes nothing and reports the business error.
pub fn transfer_funds(balances: Balances, amount: i64) -> (r: Result<Balances, TransferError>)
    requires
        i64::MIN <= balances.from_balance - amount <= i64::MAX,
        i64::MIN <= balances.to_balance + amount <= i64::MAX,
    ensures
        r matches Ok(b) ==> balances.from_balance >= amount
            && b.from_balance == balances.from_balance - amount
            && b.to_balance == balances.to_balance + amount,
        r matches Err(e) ==> balances.from_balance < amount && e is InsufficientFunds,
{
    if balances.from_balance >= amount {
        Ok(
            Balances {
                from_balance: balances.from_balance - amount,
                to_balance: balances.to_balance + amount,
            },
        )
    } else {
        Err(TransferError::InsufficientFunds)
    }
}

/// What one retry-wrapped transfer did: the loop's report, and the
/// balances after the call — the committed attempt's balances on success,
/// the starting balances (every attempt's effects undone) otherwise.
#[derive(Clone, Copy, Debug, PartialEq, Eq)]
pub struct TransferReport {
    /// The retry loop's report on the run.
    pub outcome: RunReport<TransferError>,
    /// The balances the database holds after the call returns.
    pub final_balances: Balances,
}

/// Runs the transfer unit of work under the retry loop against an
/// in-memory database, with a fault injector that forces a serialization
/// conflict on each of the first `forced_conflicts` checkpoint releases.
/// Each attempt re-runs the work from the rolled-back starting state;
/// exactly the committed attempt's effects survive, so any number of
/// injected conflicts within the attempt budget leaves the same balances
/// as a run with none.
pub fn run_transfer_with_retry(
    start: Balances,
    amount: i64,
    forced_conflicts: u64,
    max_attempts: u64,
) -> (r: TransferReport)
    requires
        1 <= max_attempts,
        i64::MIN <= start.from_balance - amount <= i64::MAX,
        i64::MIN <= start.to_balance + amount <= i64::MAX,
    ensures
        r.outcome.commits == (if r.outcome.result is Committed { 1int } else { 0int }),
        r.outcome.commits + r.outcome.txn_rollbacks == 1,
        !(r.outcome.result is Committed) ==> r.final_balances == start,
        start.from_balance < amount ==> r.outcome.result == RunResult::Failed(
            CoreError::BusinessError(TransferError::InsufficientFunds),
        ) && r.outcome.attempts == 1 && r.outcome.checkpoint_rollbacks == 0,
        start.from_balance >= amount && forced_conflicts < max_attempts ==> (
        r.outcome.result is Committed && r.outcome.attempts == forced_conflicts + 1
            && r.outcome.checkpoint_rollbacks == forced_conflicts
            && r.final_balances.from_balance == start.from_balance - amount
            && r.final_balances.to_balance == start.to_balance + amount),
        start.from_balance >= amount && forced_conflicts >= max_attempts ==> (
        r.outcome.result == RunResult::<TransferError>::Failed(CoreError::ConflictRetryExhausted)
            && r.outcome.attempts == max_attempts
            && r.outcome.checkpoint_rollbacks == max_attempts),
{
    let mut state = RetryLoop::new(max_attempts);
    let mut checkpoint_rollbacks: u64 = 0;
    loop
        invariant
            state.wf(),
            state.limit() == max_attempts,
            state.can_attempt(),
            checkpoint_rollbacks == state.used(),
            start.from_balance < amount ==> state.used() == 0,
            start.from_balance >= amount ==> state.used() <= forced_conflicts,
            i64::MIN <= start.from_balance - amount <= i64::MAX,
            i64::MIN <= start.to_balance + amount <= i64::MAX,
        decreases state.limit() - state.used(),
    {
        // One attempt: establish the checkpoint and run the unit of work
        // against the rolled-back starting state.
        let work = transfer_funds(start, amount);
        let inject_conflict = checkpoint_rollbacks < forced_conflicts;
        let (event, attempt_balances): (AttemptEvent<TransferError>, Balances) = match work {
            // The checkpoint release: the injector may force a conflict
            // there; otherwise release and commit succeed.
            Ok(b) => if inject_conflict {
                (AttemptEvent::Conflict, start)
            } else {
                (AttemptEvent::Committed, b)
            },
            // The work itself failed; the release is never reached, so the
            // injector has nothing to fail.
            Err(e) => (AttemptEvent::BusinessFailure(e), start),
        };
        let d = state.on_event(event);
        match d {
            Decision::Retry => {
                // Roll back to the checkpoint: the attempt's effects are gone.
                checkpoint_rollbacks = checkpoint_rollbacks + 1;
            },
            Decision::Finish(res) => {
                let conflict_exhausted = matches!(event, AttemptEvent::Conflict);
                if conflict_exhausted {
                    checkpoint_rollbacks = checkpoint_rollbacks + 1;
                }
                let committed = matches!(res, RunResult::Committed);
                let attempts = state.attempts_used();
                return TransferReport {
                    outcome: RunReport {
                        result: res,
                        attempts,
                        commits: if committed { 1u64 } else { 0u64 },
                        checkpoint_rollbacks,
                        txn_rollbacks: if committed { 0u64 } else { 1u64 },
                    },
                    final_balances: if committed { attempt_balances } else { start },
                };
            },
        }
    }
}

} // verus!
