use tower::backlog::{
    cooldown_millis, plan_backlog_run, BacklogRun, SubmissionOutcome,
};

#[test]
fn walk_is_ascending_and_contiguous() {
    let plan = plan_backlog_run(Some(10), 2, 0, false);
    assert_eq!(plan.first, 3);
    assert_eq!(plan.count, 8);
    let mut run = BacklogRun::new(plan);
    let mut attempted: Vec<i128> = Vec::new();
    while let Some(i) = run.next_submission() {
        attempted.push(i);
        run.record_outcome(SubmissionOutcome::Confirmed);
    }
    assert_eq!(attempted, vec![3, 4, 5, 6, 7, 8, 9, 10]);
    for w in attempted.windows(2) {
        assert_eq!(w[1], w[0] + 1);
    }
}

#[test]
fn status_failure_cools_down_and_continues() {
    // A status-check failure on index 5 of a 10-item gap: the failure gets
    // a cooldown, and indices 6..=9 are still attempted.
    let plan = plan_backlog_run(Some(9), -1, -1, false);
    assert_eq!(plan.count, 10);
    let mut run = BacklogRun::new(plan);
    let mut attempted: Vec<i128> = Vec::new();
    let mut cooldowns: Vec<u64> = Vec::new();
    while let Some(i) = run.next_submission() {
        attempted.push(i);
        let outcome = if i == 5 {
            SubmissionOutcome::StatusUnknown
        } else {
            SubmissionOutcome::Confirmed
        };
        cooldowns.push(cooldown_millis(&outcome));
        run.record_outcome(outcome);
    }
    assert_eq!(attempted, vec![0, 1, 2, 3, 4, 5, 6, 7, 8, 9]);
    assert_eq!(cooldowns[5], 30_000);
    assert!(cooldowns.iter().enumerate().all(|(k, &c)| k == 5 || c == 0));
}

#[test]
fn missing_artifact_aborts_run() {
    // The artifact for index 7 is missing mid-run: indices 0..=6 were
    // submitted, then the run aborts and plans nothing further.
    let plan = plan_backlog_run(Some(10), -1, -1, false);
    assert_eq!(plan.count, 11);
    let mut run = BacklogRun::new(plan);
    let mut attempted: Vec<i128> = Vec::new();
    loop {
        let i = match run.next_submission() {
            Some(i) => i,
            None => break,
        };
        if i == 7 {
            // the artifact file cannot be opened
            run.record_artifact_error();
            continue;
        }
        attempted.push(i);
        run.record_outcome(SubmissionOutcome::Confirmed);
    }
    assert_eq!(attempted, vec![0, 1, 2, 3, 4, 5, 6]);
    assert!(run.aborted);
    assert_eq!(run.submitted, 7);
    assert_eq!(run.next_submission(), None);
}

#[test]
fn cooldown_values() {
    assert_eq!(cooldown_millis(&SubmissionOutcome::Confirmed), 0);
    assert_eq!(cooldown_millis(&SubmissionOutcome::StatusUnknown), 30_000);
}

#[test]
fn empty_plan_walks_nothing() {
    let plan = plan_backlog_run(Some(5), 5, 0, false);
    let run = BacklogRun::new(plan);
    assert_eq!(run.next_submission(), None);
}
