//! The backlog reconciler: decides which locally mined proofs to resubmit
//! and walks the submission sequence one proof at a time.

use vstd::prelude::*;
use rand::Rng;

use crate::remote::{interpreted_epoch_count, interpreted_height, MinerStateQuery, RemoteQueryError};

verus! {

/// Soft floor on proofs per epoch: only used to pick the jitter window for
/// the randomized immediate-submission budget.
pub const MIN_PROOFS_PER_EPOCH: i128 = 7;

/// Hard ceiling on proofs per epoch: the reconciler never starts a
/// submission that would push the running epoch counter past this value.
pub const MAX_PROOFS_PER_EPOCH: i128 = 72;

/// Width of the half-open jitter window `[MIN, MIN + JITTER_SPREAD)` from
/// which the immediate-submission budget is drawn in a quiet epoch.
pub const JITTER_SPREAD: i128 = 20;

/// A reconciliation plan: submit the proof indices
/// `first, first + 1, ..., first + count - 1`, in that order.
#[derive(Clone, Copy, Debug)]
pub struct BacklogPlan {
    /// First proof index to submit: one past the remote height.
    pub first: i128,
    /// How many proofs this run may submit.
    pub count: i128,
}

impl BacklogPlan {
    /// The plan's fields stay in the ranges the planner can produce:
    /// `first` is a proof index (one past a remote height of at least -1,
    /// at most `u64::MAX`), and `count` never exceeds the quota headroom
    /// available to a run.
    pub open spec fn wf(&self) -> bool {
        &&& 0 <= self.first <= u64::MAX as int + 1
        &&& 0 <= self.count <= MAX_PROOFS_PER_EPOCH as int + 1
    }
}

/// How many submissions a run performs, given the observed heights, the
/// epoch count, the rate-limiter flag and the jitter draw:
/// nothing when there is no local sequence, the epoch quota is exhausted,
/// or the ledger is already caught up; otherwise the gap size, clamped to
/// the quota headroom, and in rate-limiter mode further clamped to the
/// immediate-submission budget (1 in a busy epoch, the jitter draw in a
/// quiet one).
pub open spec fn planned_count(
    local_height: Option<u64>,
    remote_height: int,
    epoch_count: int,
    delay_backlog: bool,
    jitter: int,
) -> int {
    match local_height {
        Option::Some(local) => {
            if epoch_count >= MAX_PROOFS_PER_EPOCH as int {
                0
            } else if local as int <= remote_height {
                0
            } else {
                let gap = local as int - remote_height;
                let headroom = MAX_PROOFS_PER_EPOCH as int - epoch_count;
                let quota_limited = if gap <= headroom { gap } else { headroom };
                if delay_backlog {
                    let budget = if epoch_count > MIN_PROOFS_PER_EPOCH as int { 1 } else { jitter };
                    if quota_limited <= budget { quota_limited } else { budget }
                } else {
                    quota_limited
                }
            }
        },
        Option::None => 0,
    }
}

/// Compute the reconciliation plan from the observed state, taking the
/// jitter draw as an argument so that every possible draw is covered.
///
/// A remote height or epoch count of -1 is the sentinel for "no on-chain
/// tower record yet".
pub fn plan_backlog(
    local_height: Option<u64>,
    remote_height: i128,
    epoch_count: i128,
    delay_backlog: bool,
    jitter: i128,
) -> (plan: BacklogPlan)
    requires
        -1 <= remote_height <= u64::MAX as i128,
        epoch_count >= -1,
        MIN_PROOFS_PER_EPOCH <= jitter < MIN_PROOFS_PER_EPOCH + JITTER_SPREAD,
    ensures
        plan.wf(),
        plan.first == remote_height + 1,
        plan.count == planned_count(
            local_height,
            remote_height as int,
            epoch_count as int,
            delay_backlog,
            jitter as int,
        ),
{
    let first = remote_height + 1;
    let count: i128 = match local_height {
        Option::Some(local) => {
            if epoch_count >= MAX_PROOFS_PER_EPOCH {
                0
            } else if local as i128 <= remote_height {
                0
            } else {
                let gap = local as i128 - remote_height;
                let headroom = MAX_PROOFS_PER_EPOCH - epoch_count;
                let quota_limited = if gap <= headroom { gap } else { headroom };
                if delay_backlog {
                    let budget: i128 = if epoch_count > MIN_PROOFS_PER_EPOCH { 1 } else { jitter };
                    if quota_limited <= budget { quota_limited } else { budget }
                } else {
                    quota_limited
                }
            }
        },
        Option::None => 0,
    };
    BacklogPlan { first, count }
}

/// How one proof submission ended, as far as this run can see.
///
/// A failure to retrieve the transaction's status is not a failure of the
/// proof itself and must not halt the backlog walk.
#[derive(Clone, Copy, Debug, PartialEq, Eq, Structural)]
pub enum SubmissionOutcome {
    /// The transaction was confirmed on chain.
    Confirmed,
    /// The transaction's status could not be retrieved; the walk continues
    /// after a cooldown, and the next run's remote-height read settles it.
    StatusUnknown,
}

/// How long the caller waits after an outcome before the next submission:
/// nothing after a confirmation, a fixed 30-second cooldown when the status
/// could not be retrieved.
pub fn cooldown_millis(outcome: &SubmissionOutcome) -> (r: u64)
    ensures
        outcome is Confirmed ==> r == 0,
        outcome is StatusUnknown ==> r == 30000,
{
    match outcome {
        SubmissionOutcome::Confirmed => 0,
        SubmissionOutcome::StatusUnknown => 30000,
    }
}

/// One reconciliation run walking a [`BacklogPlan`]: the caller repeatedly
/// asks for the next index to submit, performs the submission, and reports
/// how it went; a hard failure to read the proof artifact aborts the walk.
pub struct BacklogRun {
    /// The plan this run walks.
    pub plan: BacklogPlan,
    /// How many submissions were attempted so far.
    pub submitted: i128,
    /// Whether the run was aborted by an artifact read failure.
    pub aborted: bool,
}

impl BacklogRun {
    /// The run stays within its plan.
    pub open spec fn wf(&self) -> bool {
        &&& self.plan.wf()
        &&& 0 <= self.submitted <= self.plan.count
    }

    /// The proof indices attempted so far, in the order they were attempted.
    pub open spec fn submitted_indices(&self) -> Seq<int> {
        Seq::new(self.submitted as nat, |k: int| self.plan.first + k)
    }

    /// Whether the whole plan was walked.
    pub open spec fn is_complete(&self) -> bool {
        self.submitted == self.plan.count
    }

    /// Start a run at the beginning of its plan.
    pub fn new(plan: BacklogPlan) -> (run: BacklogRun)
        requires
            plan.wf(),
        ensures
            run.wf(),
            run.plan == plan,
            run.submitted == 0,
            !run.aborted,
    {
        BacklogRun { plan, submitted: 0, aborted: false }
    }

    /// The next proof index to submit, or `None` once the plan is walked or
    /// the run was aborted.
    pub fn next_submission(&self) -> (r: Option<i128>)
        requires
            self.wf(),
        ensures
            (!self.aborted && self.submitted < self.plan.count) ==> r == Some(
                (self.plan.first + self.submitted) as i128,
            ),
            (self.aborted || self.submitted == self.plan.count) ==> r is None,
    {
        if !self.aborted && self.submitted < self.plan.count {
            Some(self.plan.first + self.submitted)
        } else {
            None
        }
    }

    /// Record that the current index was submitted, whatever its outcome:
    /// both a confirmation and an unretrievable status advance the walk to
    /// the next index.
    pub fn record_outcome(&mut self, outcome: SubmissionOutcome)
        requires
            old(self).wf(),
            !old(self).aborted,
            old(self).submitted < old(self).plan.count,
        ensures
            final(self).wf(),
            final(self).plan == old(self).plan,
            final(self).submitted == old(self).submitted + 1,
            !final(self).aborted,
            final(self).submitted_indices() == old(self).submitted_indices().push(
                old(self).plan.first + old(self).submitted,
            ),
    {
        let _ = outcome;
        self.submitted = self.submitted + 1;
        proof {
            assert(final(self).submitted_indices() =~= old(self).submitted_indices().push(
                old(self).plan.first + old(self).submitted,
            ));
        }
    }

    /// Record that the current index's proof artifact could not be read:
    /// the local store is inconsistent with the observed local height, so
    /// the run aborts and submits nothing further.
    pub fn record_artifact_error(&mut self)
        requires
            old(self).wf(),
        ensures
            final(self).wf(),
            final(self).plan == old(self).plan,
            final(self).submitted == old(self).submitted,
            final(self).aborted,
    {
        self.aborted = true;
    }
}

/// Relies on rand::Rng::gen_range on rand::thread_rng(): a uniform draw
/// from the half-open range `[low, high)`; it panics only on an empty range,
/// which the precondition rules out.
#[verifier::external_body]
fn draw_in_range(low: i128, high: i128) -> (r: i128)
    requires
        low < high,
    ensures
        low <= r < high,
{
    rand::thread_rng().gen_range(low..high)
}

/// Draw the immediate-submission budget for a quiet epoch: a fresh uniform
/// draw from `[MIN_PROOFS_PER_EPOCH, MIN_PROOFS_PER_EPOCH + JITTER_SPREAD)`,
/// recomputed on every run and never persisted.
pub fn draw_jitter_budget() -> (r: i128)
    ensures
        MIN_PROOFS_PER_EPOCH <= r < MIN_PROOFS_PER_EPOCH + JITTER_SPREAD,
{
    draw_in_range(MIN_PROOFS_PER_EPOCH, MIN_PROOFS_PER_EPOCH + JITTER_SPREAD)
}

/// Compute the reconciliation plan from the observed state, drawing the
/// jitter budget internally.
///
/// The draw only matters in rate-limiter mode during a quiet epoch; in
/// every other case the plan is pinned exactly, and in that one case it is
/// the plan of [`plan_backlog`] for some draw within the jitter window.
pub fn plan_backlog_run(
    local_height: Option<u64>,
    remote_height: i128,
    epoch_count: i128,
    delay_backlog: bool,
) -> (plan: BacklogPlan)
    requires
        -1 <= remote_height <= u64::MAX as i128,
        epoch_count >= -1,
    ensures
        plan.wf(),
        plan.first == remote_height + 1,
        exists|j: int|
            MIN_PROOFS_PER_EPOCH as int <= j < MIN_PROOFS_PER_EPOCH as int + JITTER_SPREAD as int
                && plan.count == #[trigger] planned_count(
                local_height,
                remote_height as int,
                epoch_count as int,
                delay_backlog,
                j,
            ),
        !(delay_backlog && epoch_count <= MIN_PROOFS_PER_EPOCH) ==> plan.count == planned_count(
            local_height,
            remote_height as int,
            epoch_count as int,
            delay_backlog,
            MIN_PROOFS_PER_EPOCH as int,
        ),
{
    let jitter = draw_jitter_budget();
    let plan = plan_backlog(local_height, remote_height, epoch_count, delay_backlog, jitter);
    proof {
        assert(plan.count == planned_count(
            local_height,
            remote_height as int,
            epoch_count as int,
            delay_backlog,
            jitter as int,
        ));
    }
    plan
}

/// The whole reconciliation decision, from the raw results of the two
/// miner-state queries: interpret the remote height and the epoch count
/// (folding transport failures into the -1 sentinel), propagate an empty
/// ledger response as an error, and otherwise compute the plan, drawing
/// the jitter budget internally.
pub fn plan_from_queries(
    height_query: &MinerStateQuery,
    epoch_query: &MinerStateQuery,
    local_height: Option<u64>,
    delay_backlog: bool,
) -> (r: Result<BacklogPlan, RemoteQueryError>)
    ensures
        r is Err <==> (height_query is EmptyResponse || epoch_query is EmptyResponse),
        r is Err ==> r == Err::<BacklogPlan, RemoteQueryError>(RemoteQueryError::NoRemoteState),
        (r matches Ok(plan) ==> {
            &&& plan.wf()
            &&& plan.first == interpreted_height(*height_query) + 1
            &&& exists|j: int|
                MIN_PROOFS_PER_EPOCH as int <= j < MIN_PROOFS_PER_EPOCH as int
                    + JITTER_SPREAD as int && plan.count == #[trigger] planned_count(
                    local_height,
                    interpreted_height(*height_query),
                    interpreted_epoch_count(*epoch_query),
                    delay_backlog,
                    j,
                )
            &&& !(delay_backlog && interpreted_epoch_count(*epoch_query)
                <= MIN_PROOFS_PER_EPOCH as int) ==> plan.count == planned_count(
                local_height,
                interpreted_height(*height_query),
                interpreted_epoch_count(*epoch_query),
                delay_backlog,
                MIN_PROOFS_PER_EPOCH as int,
            )
        }),
{
    let remote_height = match crate::remote::get_remote_tower_height(height_query) {
        Ok(h) => h,
        Err(e) => {
            return Err(e);
        },
    };
    let epoch_count = match crate::remote::get_proofs_in_epoch(epoch_query) {
        Ok(c) => c,
        Err(e) => {
            return Err(e);
        },
    };
    Ok(plan_backlog_run(local_height, remote_height, epoch_count, delay_backlog))
}

/// When the local height is at or below the remote height, or no local
/// proofs exist at all, a run performs zero submissions.
pub proof fn lemma_caught_up_no_submissions(
    local_height: Option<u64>,
    remote_height: int,
    epoch_count: int,
    delay_backlog: bool,
    jitter: int,
)
    requires
        local_height matches Some(local) ==> local as int <= remote_height,
    ensures
        planned_count(local_height, remote_height, epoch_count, delay_backlog, jitter) == 0,
{
}

/// When the epoch quota is exhausted, zero submissions occur regardless of
/// the gap size.
pub proof fn lemma_quota_exhausted_no_submissions(
    local_height: Option<u64>,
    remote_height: int,
    epoch_count: int,
    delay_backlog: bool,
    jitter: int,
)
    requires
        epoch_count >= MAX_PROOFS_PER_EPOCH as int,
    ensures
        planned_count(local_height, remote_height, epoch_count, delay_backlog, jitter) == 0,
{
}

/// Whenever a run submits at all, the running epoch counter after the run
/// (the observed epoch count plus the number of submissions) never exceeds
/// the hard per-epoch ceiling.
pub proof fn lemma_counter_stays_within_quota(
    local_height: Option<u64>,
    remote_height: int,
    epoch_count: int,
    delay_backlog: bool,
    jitter: int,
)
    requires
        jitter < MIN_PROOFS_PER_EPOCH as int + JITTER_SPREAD as int,
    ensures
        planned_count(local_height, remote_height, epoch_count, delay_backlog, jitter) > 0
            ==> epoch_count + planned_count(
            local_height,
            remote_height,
            epoch_count,
            delay_backlog,
            jitter,
        ) <= MAX_PROOFS_PER_EPOCH as int,
{
}

/// The quota law at the level of a whole run: however far a run got
/// through a plan computed from the observed state, if it submitted at
/// all, the running epoch counter after the run (the observed epoch count
/// plus the number of submissions attempted) never exceeds the hard
/// per-epoch ceiling.
pub proof fn lemma_run_counter_stays_within_quota(
    run: BacklogRun,
    local_height: Option<u64>,
    remote_height: int,
    epoch_count: int,
    delay_backlog: bool,
    jitter: int,
)
    requires
        run.wf(),
        jitter < MIN_PROOFS_PER_EPOCH as int + JITTER_SPREAD as int,
        run.plan.count == planned_count(
            local_height,
            remote_height,
            epoch_count,
            delay_backlog,
            jitter,
        ),
        run.submitted > 0,
    ensures
        epoch_count + run.submitted <= MAX_PROOFS_PER_EPOCH as int,
{
    lemma_counter_stays_within_quota(local_height, remote_height, epoch_count, delay_backlog, jitter);
}

/// The indices a run attempts are strictly ascending and contiguous,
/// starting at one past the remote height: the k-th submission of a run
/// walking a plan for that remote height is exactly `remote_height + 1 + k`.
pub proof fn lemma_submissions_ascending_contiguous(run: BacklogRun, remote_height: int)
    requires
        run.wf(),
        run.plan.first == remote_height + 1,
    ensures
        forall|k: int|
            0 <= k < run.submitted_indices().len() ==> #[trigger] run.submitted_indices()[k]
                == remote_height + 1 + k,
        forall|k: int|
            0 < k < run.submitted_indices().len() ==> run.submitted_indices()[k - 1]
                < #[trigger] run.submitted_indices()[k],
{
}

/// In rate-limiter mode during a busy epoch (the epoch count strictly above
/// the soft floor, quota not yet exhausted), a run with a non-empty gap
/// performs exactly one submission, regardless of the gap size.
pub proof fn lemma_delay_busy_epoch_single_submission(
    local: u64,
    remote_height: int,
    epoch_count: int,
    jitter: int,
)
    requires
        epoch_count > MIN_PROOFS_PER_EPOCH as int,
        epoch_count < MAX_PROOFS_PER_EPOCH as int,
        local as int > remote_height,
    ensures
        planned_count(Some(local), remote_height, epoch_count, true, jitter) == 1,
{
}

/// In rate-limiter mode during a quiet epoch (the epoch count at or below
/// the soft floor), a run submits the smaller of the jitter draw and the
/// gap size: at most the gap, and, whenever the gap covers the draw, a
/// value within the jitter window.
pub proof fn lemma_delay_quiet_epoch_submission_window(
    local: u64,
    remote_height: int,
    epoch_count: int,
    jitter: int,
)
    requires
        -1 <= epoch_count <= MIN_PROOFS_PER_EPOCH as int,
        local as int > remote_height,
        MIN_PROOFS_PER_EPOCH as int <= jitter < MIN_PROOFS_PER_EPOCH as int + JITTER_SPREAD as int,
    ensures
        planned_count(Some(local), remote_height, epoch_count, true, jitter) == (if local as int
            - remote_height <= jitter {
            local as int - remote_height
        } else {
            jitter
        }),
        planned_count(Some(local), remote_height, epoch_count, true, jitter) <= local as int
            - remote_height,
        local as int - remote_height >= jitter ==> MIN_PROOFS_PER_EPOCH as int <= planned_count(
            Some(local),
            remote_height,
            epoch_count,
            true,
            jitter,
        ) < MIN_PROOFS_PER_EPOCH as int + JITTER_SPREAD as int,
{
}

} // verus!
