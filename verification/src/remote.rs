//! Interpreting the ledger's answer to a miner-state query.
//!
//! The caller performs the query itself and reports what came back as a
//! [`MinerStateQuery`]; the functions here turn that into the height and
//! epoch-count values the reconciler works on, folding a transport-level
//! failure into the -1 "no tower record yet" sentinel, since an absent
//! record is the expected state for a brand-new account.

use vstd::prelude::*;

verus! {

/// What a miner-state query against the ledger came back with.
pub enum MinerStateQuery {
    /// The ledger reported a tower record for the account.
    Found { verified_tower_height: u64, actual_count_proofs_in_epoch: u64 },
    /// The ledger answered, but the response held no miner state.
    EmptyResponse,
    /// The ledger could not be reached or answered malformed: treated as
    /// "no tower record on chain yet".
    QueryFailed,
}

/// A remote query failure that the reconciler surfaces to its caller.
#[derive(Clone, Copy, Debug, PartialEq, Eq, Structural)]
pub enum RemoteQueryError {
    /// A response was received, but no remote state was found in it.
    NoRemoteState,
}

/// The tower height a query result stands for: the reported height of a
/// found record, the -1 sentinel otherwise.
pub open spec fn interpreted_height(q: MinerStateQuery) -> int {
    match q {
        MinerStateQuery::Found { verified_tower_height, .. } => verified_tower_height as int,
        _ => -1,
    }
}

/// The epoch proof count a query result stands for: the reported count of
/// a found record, the -1 sentinel otherwise.
pub open spec fn interpreted_epoch_count(q: MinerStateQuery) -> int {
    match q {
        MinerStateQuery::Found { actual_count_proofs_in_epoch, .. } =>
            actual_count_proofs_in_epoch as int,
        _ => -1,
    }
}

/// The remote tower height for the account: the reported height when a
/// record was found, the -1 sentinel when the query failed at transport
/// level, and an error when the ledger answered without any miner state.
pub fn get_remote_tower_height(q: &MinerStateQuery) -> (r: Result<i128, RemoteQueryError>)
    ensures
        q is EmptyResponse ==> r == Err::<i128, RemoteQueryError>(RemoteQueryError::NoRemoteState),
        !(q is EmptyResponse) ==> r == Ok::<i128, RemoteQueryError>(interpreted_height(*q) as i128),
{
    match q {
        MinerStateQuery::Found { verified_tower_height, .. } => {
            Ok(*verified_tower_height as i128)
        },
        MinerStateQuery::EmptyResponse => Err(RemoteQueryError::NoRemoteState),
        MinerStateQuery::QueryFailed => Ok(-1),
    }
}

/// The number of proofs the ledger accepted for the account in the current
/// epoch, under the same reading of the query result as
/// [`get_remote_tower_height`].
pub fn get_proofs_in_epoch(q: &MinerStateQuery) -> (r: Result<i128, RemoteQueryError>)
    ensures
        q is EmptyResponse ==> r == Err::<i128, RemoteQueryError>(RemoteQueryError::NoRemoteState),
        !(q is EmptyResponse) ==> r == Ok::<i128, RemoteQueryError>(
            interpreted_epoch_count(*q) as i128,
        ),
{
    match q {
        MinerStateQuery::Found { actual_count_proofs_in_epoch, .. } => {
            Ok(*actual_count_proofs_in_epoch as i128)
        },
        MinerStateQuery::EmptyResponse => Err(RemoteQueryError::NoRemoteState),
        MinerStateQuery::QueryFailed => Ok(-1),
    }
}

} // verus!
