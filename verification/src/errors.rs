//! Error kinds surfaced by the retry core, and the classification of
//! database errors into retryable conflicts and fatal failures.

use vstd::prelude::*;

verus! {

/// The errors the retry core reports to its caller. `E` is the underlying
/// database or business error carried through unchanged.
#[derive(Clone, Copy, Debug, PartialEq, Eq)]
pub enum CoreError<E> {
    /// The initial transaction could not be opened; fatal, never retried.
    ConnectionError(E),
    /// The retryable-conflict branch fired as many times as the configured
    /// attempt limit allows.
    ConflictRetryExhausted,
    /// The unit of work failed with a non-retryable business error; the
    /// original error is carried unchanged.
    BusinessError(E),
    /// A non-conflict database failure during an attempt.
    DatabaseError(E),
    /// The final commit failed for a non-retryable reason after a
    /// successful attempt.
    CommitError(E),
}

/// The closed classification of a database error: either a transient
/// serialization conflict, which the retry loop handles by rolling back to
/// its checkpoint and re-running the attempt, or a fatal error, which
/// aborts the whole call.
#[derive(Clone, Copy, Debug, PartialEq, Eq, Structural)]
pub enum DbErrorClass {
    Conflict,
    Fatal,
}

/// The five-byte SQLSTATE code `40001` (`serialization_failure`), the one
/// code the database reports for a transient isolation conflict, as ASCII
/// digit bytes.
pub open spec fn serialization_failure_sqlstate() -> Seq<u8> {
    seq![52u8, 48u8, 48u8, 48u8, 49u8]
}

/// Classifies a database error by its SQLSTATE code: exactly the code
/// `40001` is a retryable serialization conflict; every other code
/// (constraint violation, connectivity loss, malformed statement, ...) is
/// fatal.
pub fn classify_sqlstate(code: &Vec<u8>) -> (c: DbErrorClass)
    ensures
        c is Conflict <==> code@ == serialization_failure_sqlstate(),
{
    let is_conflict = code.len() == 5
        && code[0] == 52u8
        && code[1] == 48u8
        && code[2] == 48u8
        && code[3] == 48u8
        && code[4] == 49u8;
    proof {
        if is_conflict {
            assert(code@ =~= serialization_failure_sqlstate());
        }
        if code@ == serialization_failure_sqlstate() {
            assert(code@.len() == 5);
            assert(code@[0] == 52u8);
            assert(code@[1] == 48u8);
            assert(code@[2] == 48u8);
            assert(code@[3] == 48u8);
            assert(code@[4] == 49u8);
        }
    }
    if is_conflict {
        DbErrorClass::Conflict
    } else {
        DbErrorClass::Fatal
    }
}

} // verus!
