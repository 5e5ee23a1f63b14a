//! A transactional retry core for databases with optimistic (serializable)
//! concurrency control.
//!
//! Such a database may abort a transaction with a serialization-conflict
//! error at any point, including at commit time; the correct response is to
//! roll back to a checkpoint and transparently re-run the transaction's unit
//! of work. This crate holds the verified decision logic of that retry loop:
//! classifying database errors, deciding after each attempt whether to
//! retry, commit or abort, enforcing an attempt cap, and guaranteeing that
//! exactly one attempt's effects are ever committed. The database round
//! trips themselves are performed by the caller, which feeds each attempt's
//! classified outcome back into the loop state machine.

pub mod errors;
pub mod retry;
pub mod transfer;
