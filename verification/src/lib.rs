//! Backlog reconciliation for a proof-tower miner.
//!
//! A miner keeps producing verifiable-delay-function proofs locally while the
//! ledger may lag behind.  This crate decides which locally persisted proofs
//! must be resubmitted to catch the ledger up, in strictly ascending order,
//! without ever pushing the per-epoch submission counter past the protocol's
//! hard ceiling, and with randomized jitter so that many miners coming back
//! online at once do not flood the ledger.
//!
//! The crate holds the decision logic only: reading proof files, talking to
//! the ledger and sleeping between retries are left to the caller, which
//! feeds the observed values and outcomes back in.

pub mod backlog;
pub mod remote;
pub mod start_cmd;
