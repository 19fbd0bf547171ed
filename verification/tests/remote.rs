use tower::backlog::plan_from_queries;
use tower::remote::{
    get_proofs_in_epoch, get_remote_tower_height, MinerStateQuery, RemoteQueryError,
};

#[test]
fn found_record_reports_heights() {
    let q = MinerStateQuery::Found {
        verified_tower_height: 48,
        actual_count_proofs_in_epoch: 70,
    };
    assert_eq!(get_remote_tower_height(&q), Ok(48));
    assert_eq!(get_proofs_in_epoch(&q), Ok(70));
}

#[test]
fn transport_failure_folds_into_sentinel() {
    // An unreachable ledger reads as "no tower record on chain yet".
    let q = MinerStateQuery::QueryFailed;
    assert_eq!(get_remote_tower_height(&q), Ok(-1));
    assert_eq!(get_proofs_in_epoch(&q), Ok(-1));
}

#[test]
fn plan_from_queries_follows_the_interpreted_state() {
    // Both records found: plan the gap exactly, stopping at the ceiling.
    let height_q = MinerStateQuery::Found {
        verified_tower_height: 48,
        actual_count_proofs_in_epoch: 70,
    };
    let epoch_q = MinerStateQuery::Found {
        verified_tower_height: 48,
        actual_count_proofs_in_epoch: 70,
    };
    let plan = plan_from_queries(&height_q, &epoch_q, Some(50), false).unwrap();
    assert_eq!(plan.first, 49);
    assert_eq!(plan.count, 2);

    // Transport failures fold into the sentinel: a fresh account submits
    // its whole sequence.
    let plan = plan_from_queries(
        &MinerStateQuery::QueryFailed,
        &MinerStateQuery::QueryFailed,
        Some(10),
        false,
    )
    .unwrap();
    assert_eq!(plan.first, 0);
    assert_eq!(plan.count, 11);

    // An empty ledger response propagates as the query error.
    let r = plan_from_queries(&MinerStateQuery::EmptyResponse, &epoch_q, Some(10), false);
    assert_eq!(r.unwrap_err(), RemoteQueryError::NoRemoteState);
    let r = plan_from_queries(&height_q, &MinerStateQuery::EmptyResponse, Some(10), false);
    assert_eq!(r.unwrap_err(), RemoteQueryError::NoRemoteState);
}

#[test]
fn empty_response_is_an_error() {
    let q = MinerStateQuery::EmptyResponse;
    assert_eq!(
        get_remote_tower_height(&q),
        Err(RemoteQueryError::NoRemoteState)
    );
    assert_eq!(get_proofs_in_epoch(&q), Err(RemoteQueryError::NoRemoteState));
}
