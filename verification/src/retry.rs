//! The retry loop's decision logic.
//!
//! One call wraps one database transaction. Each attempt establishes a
//! fresh retry checkpoint, runs the unit of work, releases the checkpoint
//! and, on success, commits the transaction. The caller classifies what
//! happened into an [`AttemptEvent`] and feeds it to [`RetryLoop::on_event`],
//! which decides whether to roll back to the checkpoint and retry, or to
//! finish with a result. A serialization conflict anywhere in the cycle
//! (work, checkpoint release, or commit) re-enters the loop; every other
//! failure, and success, ends it. The attempt cap turns an endless stream
//! of conflicts into `ConflictRetryExhausted` instead of looping forever.

use vstd::prelude::*;

use crate::errors::CoreError;

verus! {

/// The classified outcome of one attempt cycle: checkpoint, unit of work,
/// checkpoint release and, after a successful release, the transaction
/// commit. `E` is the underlying error carried through unchanged.
#[derive(Clone, Copy, Debug, PartialEq, Eq)]
pub enum AttemptEvent<E> {
    /// The work, the checkpoint release and the commit all succeeded.
    Committed,
    /// A serialization conflict from the work, the release or the commit.
    Conflict,
    /// The unit of work failed with a non-retryable business error.
    BusinessFailure(E),
    /// A non-conflict database error from the work or the release.
    DatabaseFailure(E),
    /// The commit failed non-retryably after a successful attempt.
    CommitFailure(E),
}

/// The final result of one wrapped call.
#[derive(Clone, Copy, Debug, PartialEq, Eq)]
pub enum RunResult<E> {
    /// Exactly one attempt's effects were committed.
    Committed,
    /// The transaction was rolled back and this error is surfaced.
    Failed(CoreError<E>),
}

/// What the caller must do next after reporting an attempt's event.
#[derive(Clone, Copy, Debug, PartialEq, Eq)]
pub enum Decision<E> {
    /// Roll back to the retry checkpoint, discard the attempt's effects,
    /// and run a fresh attempt.
    Retry,
    /// Stop: on `Committed` the transaction is already committed; on
    /// `Failed` roll back the transaction and surface the error.
    Finish(RunResult<E>),
}

/// The result a run must surface when an attempt ends with this event and
/// no further retry is permitted.
pub open spec fn event_result<E>(e: AttemptEvent<E>) -> RunResult<E> {
    match e {
        AttemptEvent::Committed => RunResult::Committed,
        AttemptEvent::Conflict => RunResult::Failed(CoreError::ConflictRetryExhausted),
        AttemptEvent::BusinessFailure(err) => RunResult::Failed(CoreError::BusinessError(err)),
        AttemptEvent::DatabaseFailure(err) => RunResult::Failed(CoreError::DatabaseError(err)),
        AttemptEvent::CommitFailure(err) => RunResult::Failed(CoreError::CommitError(err)),
    }
}

/// The result of a whole run whose successive attempts would see the
/// events of `events`, under an attempt cap of `limit`: conflicts are
/// retried while the cap allows another attempt, and the first event that
/// is not retried decides the run.
pub open spec fn run_spec<E>(events: Seq<AttemptEvent<E>>, limit: nat) -> RunResult<E>
    recommends
        1 <= limit <= events.len(),
    decreases limit,
{
    if events.len() == 0 || limit <= 1 {
        if events.len() == 0 {
            RunResult::Failed(CoreError::ConflictRetryExhausted)
        } else {
            event_result(events[0])
        }
    } else if events[0] is Conflict {
        run_spec(events.skip(1), (limit - 1) as nat)
    } else {
        event_result(events[0])
    }
}

/// How many attempts the run of [`run_spec`] makes: one per leading
/// conflict that the cap lets it retry, plus the deciding attempt.
pub open spec fn attempts_spec<E>(events: Seq<AttemptEvent<E>>, limit: nat) -> nat
    recommends
        1 <= limit <= events.len(),
    decreases limit,
{
    if events.len() == 0 || limit <= 1 {
        1
    } else if events[0] is Conflict {
        1 + attempts_spec(events.skip(1), (limit - 1) as nat)
    } else {
        1
    }
}

/// The retry loop's state: how many attempts have completed, against a
/// fixed cap. The caller performs the database round trips and reports
/// each attempt's classified event; the state machine decides.
#[derive(Clone, Copy, Debug, PartialEq, Eq, Structural)]
pub struct RetryLoop {
    max_attempts: u64,
    attempts_used: u64,
}

impl RetryLoop {
    /// The configured attempt cap.
    pub closed spec fn limit(self) -> u64 {
        self.max_attempts
    }

    /// How many attempts have completed so far.
    pub closed spec fn used(self) -> u64 {
        self.attempts_used
    }

    pub open spec fn wf(self) -> bool {
        1 <= self.limit() && self.used() <= self.limit()
    }

    /// The cap leaves room for another attempt.
    pub open spec fn can_attempt(self) -> bool {
        self.used() < self.limit()
    }

    /// The decision owed for event `e` arriving in state `self`: retry
    /// exactly when the event is a conflict and the cap leaves room for
    /// one more attempt after this one.
    pub open spec fn spec_decide<E>(self, e: AttemptEvent<E>) -> Decision<E> {
        if e is Conflict && self.used() + 1 < self.limit() {
            Decision::Retry
        } else {
            Decision::Finish(event_result(e))
        }
    }

    pub fn new(max_attempts: u64) -> (r: Self)
        requires
            1 <= max_attempts,
        ensures
            r.wf(),
            r.limit() == max_attempts,
            r.used() == 0,
    {
        RetryLoop { max_attempts, attempts_used: 0 }
    }

    pub fn attempts_used(&self) -> (n: u64)
        ensures
            n == self.used(),
    {
        self.attempts_used
    }

    pub fn max_attempts(&self) -> (n: u64)
        ensures
            n == self.limit(),
    {
        self.max_attempts
    }

    /// Records that one more attempt has completed with event `e` and
    /// returns the decision: retry on a conflict while the cap allows,
    /// otherwise finish with the result the event dictates.
    pub fn on_event<E>(&mut self, e: AttemptEvent<E>) -> (d: Decision<E>)
        requires
            old(self).wf(),
            old(self).can_attempt(),
        ensures
            final(self).wf(),
            final(self).limit() == old(self).limit(),
            final(self).used() == old(self).used() + 1,
            d == old(self).spec_decide(e),
            d is Retry <==> (e is Conflict && old(self).used() + 1 < old(self).limit()),
            d is Retry ==> final(self).can_attempt(),
            d matches Decision::Finish(res) ==> res == event_result(e),
    {
        self.attempts_used = self.attempts_used + 1;
        let retryable = matches!(e, AttemptEvent::Conflict);
        if retryable && self.attempts_used < self.max_attempts {
            Decision::Retry
        } else {
            Decision::Finish(
                match e {
                    AttemptEvent::Committed => RunResult::Committed,
                    AttemptEvent::Conflict => RunResult::Failed(CoreError::ConflictRetryExhausted),
                    AttemptEvent::BusinessFailure(err) => RunResult::Failed(
                        CoreError::BusinessError(err),
                    ),
                    AttemptEvent::DatabaseFailure(err) => RunResult::Failed(
                        CoreError::DatabaseError(err),
                    ),
                    AttemptEvent::CommitFailure(err) => RunResult::Failed(
                        CoreError::CommitError(err),
                    ),
                },
            )
        }
    }
}

/// What one whole run did: its result, and how often each externally
/// visible database action happened.
#[derive(Clone, Copy, Debug, PartialEq, Eq)]
pub struct RunReport<E> {
    /// The run's result.
    pub result: RunResult<E>,
    /// How many attempts were made.
    pub attempts: u64,
    /// How often the transaction was committed.
    pub commits: u64,
    /// How often an attempt's effects were undone by rolling back to the
    /// retry checkpoint.
    pub checkpoint_rollbacks: u64,
    /// How often the whole transaction was rolled back.
    pub txn_rollbacks: u64,
}

/// Runs the retry loop to completion against a prepared schedule of
/// attempt events (a fault injector's script): attempt `i` of the run sees
/// `events[i]`. The schedule must be long enough to feed every attempt the
/// cap can admit. The report pins down the result, the attempt count, and
/// that exactly one terminal action — one commit, or one transaction
/// rollback — is performed, the commit exactly on success.
pub fn run_retry<E: Copy>(events: &Vec<AttemptEvent<E>>, max_attempts: u64) -> (r: RunReport<E>)
    requires
        1 <= max_attempts,
        max_attempts <= events@.len(),
    ensures
        r.result == run_spec(events@, max_attempts as nat),
        r.attempts == attempts_spec(events@, max_attempts as nat),
        1 <= r.attempts <= max_attempts,
        r.commits == (if r.result is Committed { 1int } else { 0int }),
        r.commits + r.txn_rollbacks == 1,
        r.checkpoint_rollbacks == r.attempts - 1 + (
            if r.result == RunResult::<E>::Failed(CoreError::ConflictRetryExhausted) {
                1int
            } else {
                0int
            }
        ),
{
    let ghost all_events = events@;
    let ghost limit = max_attempts as nat;
    let n: usize = events.len();
    proof {
        assert(all_events.skip(0) =~= all_events);
    }
    let mut state = RetryLoop::new(max_attempts);
    let mut i: usize = 0;
    loop
        invariant
            state.wf(),
            state.limit() == max_attempts,
            state.used() == i,
            state.can_attempt(),
            max_attempts <= all_events.len(),
            n == all_events.len(),
            all_events == events@,
            limit == max_attempts as nat,
            run_spec(all_events, limit) == run_spec(
                all_events.skip(i as int),
                (max_attempts - i) as nat,
            ),
            attempts_spec(all_events, limit) == i + attempts_spec(
                all_events.skip(i as int),
                (max_attempts - i) as nat,
            ),
        decreases max_attempts - i,
    {
        let e = events[i];
        proof {
            assert(all_events.skip(i as int)[0] == all_events[i as int]);
        }
        let d = state.on_event(e);
        match d {
            Decision::Retry => {
                proof {
                    assert(all_events.skip(i as int).skip(1) =~= all_events.skip(i as int + 1));
                }
                i = i + 1;
            },
            Decision::Finish(res) => {
                proof {
                    let rest = all_events.skip(i as int);
                    let rem = (max_attempts - i) as nat;
                    assert(rest.len() == all_events.len() - i);
                    assert(rest[0] == all_events[i as int]);
                    if e is Conflict {
                        assert(i + 1 == max_attempts);
                        assert(rem == 1);
                    }
                    assert(run_spec(rest, rem) == event_result(rest[0]));
                    assert(attempts_spec(rest, rem) == 1);
                }
                let attempts = i + 1;
                let conflict_exhausted = matches!(e, AttemptEvent::Conflict);
                let committed = matches!(res, RunResult::Committed);
                let checkpoint_rollbacks = if conflict_exhausted {
                    attempts
                } else {
                    attempts - 1
                };
                return RunReport {
                    result: res,
                    attempts: attempts as u64,
                    commits: if committed { 1u64 } else { 0u64 },
                    checkpoint_rollbacks: checkpoint_rollbacks as u64,
                    txn_rollbacks: if committed { 0u64 } else { 1u64 },
                };
            },
        }
    }
}

/// Law: the run's result is its first decisive attempt's own result. If
/// the first `k` attempts hit conflicts, the cap admits attempt `k + 1`,
/// and that attempt's event is not a conflict, then the run makes exactly
/// `k + 1` attempts and returns that event's result — conflicts that are
/// retried leave no trace in the outcome.
pub proof fn lemma_first_decisive_attempt<E>(events: Seq<AttemptEvent<E>>, limit: nat, k: nat)
    requires
        k < limit <= events.len(),
        forall|i: int| 0 <= i < k ==> events[i] is Conflict,
        !(events[k as int] is Conflict),
    ensures
        run_spec(events, limit) == event_result(events[k as int]),
        attempts_spec(events, limit) == k + 1,
    decreases k,
{
    if k == 0 {
    } else {
        assert forall|i: int| 0 <= i < k - 1 implies events.skip(1)[i] is Conflict by {
            assert(events.skip(1)[i] == events[i + 1]);
        }
        assert(events.skip(1)[k - 1] == events[k as int]);
        lemma_first_decisive_attempt(events.skip(1), (limit - 1) as nat, (k - 1) as nat);
    }
}

/// Law: idempotent outcome. A run whose attempts are forced into `k`
/// conflicts (within the attempt budget) before a committing attempt
/// commits exactly once, in `k + 1` attempts, with the same result as a
/// run with no conflicts at all: the run of the schedule with its leading
/// conflicts dropped.
pub proof fn lemma_idempotent_outcome<E>(events: Seq<AttemptEvent<E>>, limit: nat, k: nat)
    requires
        k < limit <= events.len(),
        forall|i: int| 0 <= i < k ==> events[i] is Conflict,
        events[k as int] is Committed,
    ensures
        run_spec(events, limit) is Committed,
        run_spec(events, limit) == run_spec(events.skip(k as int), (limit - k) as nat),
        attempts_spec(events, limit) == k + 1,
{
    lemma_first_decisive_attempt(events, limit, k);
    assert(events.skip(k as int)[0] == events[k as int]);
}

/// Law: fatal errors short-circuit. If the first attempt fails with a
/// non-retryable error — a business failure, another database failure, or
/// a non-conflict commit failure — the run makes exactly one attempt and
/// surfaces that error unchanged.
pub proof fn lemma_fatal_short_circuit<E>(events: Seq<AttemptEvent<E>>, limit: nat)
    requires
        1 <= limit <= events.len(),
        !(events[0] is Conflict),
        !(events[0] is Committed),
    ensures
        attempts_spec(events, limit) == 1,
        events[0] matches AttemptEvent::BusinessFailure(err) ==> run_spec(events, limit)
            == RunResult::Failed(CoreError::BusinessError(err)),
        events[0] matches AttemptEvent::DatabaseFailure(err) ==> run_spec(events, limit)
            == RunResult::Failed(CoreError::DatabaseError(err)),
        events[0] matches AttemptEvent::CommitFailure(err) ==> run_spec(events, limit)
            == RunResult::Failed(CoreError::CommitError(err)),
{
    lemma_first_decisive_attempt(events, limit, 0);
}

/// Law: the retry bound is enforced. If every attempt the cap admits hits
/// a conflict, the run stops after exactly `limit` attempts with
/// `ConflictRetryExhausted` — it never hangs.
pub proof fn lemma_retry_bound<E>(events: Seq<AttemptEvent<E>>, limit: nat)
    requires
        1 <= limit <= events.len(),
        forall|i: int| 0 <= i < limit ==> events[i] is Conflict,
    ensures
        run_spec(events, limit) == RunResult::<E>::Failed(CoreError::ConflictRetryExhausted),
        attempts_spec(events, limit) == limit,
    decreases limit,
{
    if limit > 1 {
        assert forall|i: int| 0 <= i < limit - 1 implies events.skip(1)[i] is Conflict by {
            assert(events.skip(1)[i] == events[i + 1]);
        }
        lemma_retry_bound(events.skip(1), (limit - 1) as nat);
    }
}

} // verus!
