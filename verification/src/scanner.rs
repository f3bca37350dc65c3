use vstd::prelude::*;

verus! {

/// Number of most-recent blocks withheld from scanning, so that a chain
/// reorganization near the head cannot hand the tracker data that later
/// disappears again.
pub const CONFIRMATION_LAG: u64 = 6;

/// Pause, in seconds, after a successfully processed range, to rate-limit
/// the provider.
pub const PACE_WAIT_SECS: u64 = 5;

/// Pause, in seconds, after a transient failure (head query or range fetch),
/// and while the scanner has caught up with the confirmed head.
pub const ERROR_WAIT_SECS: u64 = 30;

/// The scan position: the next block to fetch and the current range width.
///
/// The cursor advances only after a successful fetch; a failure classified
/// as "range too large" shrinks the step instead.
#[derive(Clone, Copy, PartialEq, Eq, Structural, Debug)]
pub struct ScanCursor {
    /// First block of the next range to fetch.
    pub next_block: u64,
    /// Width, in blocks, of the range requested per fetch.
    pub step: u64,
}

impl ScanCursor {
    /// A cursor is well formed when its step is at least one block wide,
    /// so that every planned range is nonempty and the scan cannot stall.
    pub open spec fn wf(self) -> bool {
        self.step >= 1
    }

    /// Starts a scan at `start_from` with the given initial range width.
    pub fn new(start_from: u64, step: u64) -> (cursor: ScanCursor)
        requires
            step >= 1,
        ensures
            cursor.wf(),
            cursor.next_block == start_from,
            cursor.step == step,
    {
        ScanCursor { next_block: start_from, step }
    }
}

/// What the scanner decides to do with one freshly queried head height.
#[derive(Clone, Copy, PartialEq, Eq, Structural, Debug)]
pub enum FetchPlan {
    /// The end boundary has been passed: the scan is complete.
    Finished,
    /// The scanner has caught up with the confirmed head; wait and ask again
    /// without advancing.
    Wait,
    /// Fetch the events of the inclusive block range `[from, to]`.
    Range { from: u64, to: u64 },
}

/// Upper end of the next range: `next_block + step - 1`, capped at the
/// confirmed head `head - CONFIRMATION_LAG`.
pub open spec fn spec_scan_target(cursor: ScanCursor, head: u64) -> int {
    let want = cursor.next_block + cursor.step - 1;
    let horizon = head - CONFIRMATION_LAG;
    if want <= horizon {
        want
    } else {
        horizon
    }
}

/// The decision taken for one iteration, given the queried head height and
/// the optional inclusive end boundary.
pub open spec fn spec_fetch_plan(cursor: ScanCursor, head: u64, end_block: Option<u64>) -> FetchPlan {
    let to = spec_scan_target(cursor, head);
    if match end_block {
        Some(end) => to > end,
        None => false,
    } {
        FetchPlan::Finished
    } else if to >= cursor.next_block {
        FetchPlan::Range { from: cursor.next_block, to: to as u64 }
    } else {
        FetchPlan::Wait
    }
}

/// Computes the next action from the queried head height: terminate past the
/// end boundary, fetch the next range, or wait when the scanner has caught
/// up with the confirmed head.
pub fn plan_fetch(cursor: &ScanCursor, head: u64, end_block: Option<u64>) -> (plan: FetchPlan)
    requires
        cursor.wf(),
        head >= CONFIRMATION_LAG,
        cursor.next_block + cursor.step - 1 <= u64::MAX,
    ensures
        plan == spec_fetch_plan(*cursor, head, end_block),
{
    let want = cursor.next_block + (cursor.step - 1);
    let horizon = head - CONFIRMATION_LAG;
    let to = if want <= horizon {
        want
    } else {
        horizon
    };
    if let Some(end) = end_block {
        if to > end {
            return FetchPlan::Finished;
        }
    }
    if to >= cursor.next_block {
        FetchPlan::Range { from: cursor.next_block, to }
    } else {
        FetchPlan::Wait
    }
}

/// How a range fetch ended, as classified from the provider's answer.
#[derive(Clone, Copy, PartialEq, Eq, Structural, Debug)]
pub enum FetchOutcome {
    /// The events of the range arrived and were dispatched.
    Fetched,
    /// The provider rejected the range as too large.
    RangeTooLarge,
    /// Any other failure: treated as transient.
    OtherError,
}

/// The step width after one "range too large" answer: halved, floored at one.
pub open spec fn spec_shrink_step(step: u64) -> u64 {
    if step / 2 >= 1 {
        step / 2
    } else {
        1
    }
}

/// Advances the cursor after a fetch of `[cursor.next_block, to]` ended with
/// `outcome`, and returns how many seconds to wait before the next
/// iteration: the pacing pause after success, none before retrying a
/// shrunken range, the error pause otherwise. Only a success moves
/// `next_block`; only a capacity rejection changes `step`.
pub fn apply_fetch_outcome(cursor: &mut ScanCursor, to: u64, outcome: FetchOutcome) -> (wait_secs: u64)
    requires
        old(cursor).wf(),
        outcome is Fetched ==> to < u64::MAX,
    ensures
        final(cursor).wf(),
        match outcome {
            FetchOutcome::Fetched => {
                &&& final(cursor).next_block == to + 1
                &&& final(cursor).step == old(cursor).step
                &&& wait_secs == PACE_WAIT_SECS
            },
            FetchOutcome::RangeTooLarge => {
                &&& final(cursor).next_block == old(cursor).next_block
                &&& final(cursor).step == spec_shrink_step(old(cursor).step)
                &&& wait_secs == 0
            },
            FetchOutcome::OtherError => {
                &&& *final(cursor) == *old(cursor)
                &&& wait_secs == ERROR_WAIT_SECS
            },
        },
{
    match outcome {
        FetchOutcome::Fetched => {
            cursor.next_block = to + 1;
            PACE_WAIT_SECS
        },
        FetchOutcome::RangeTooLarge => {
            let half = cursor.step / 2;
            cursor.step = if half >= 1 {
                half
            } else {
                1
            };
            0
        },
        FetchOutcome::OtherError => ERROR_WAIT_SECS,
    }
}

/// Confirmation-lag invariant: whatever the step width, a planned range
/// never reaches into the withheld window behind the head. Its upper end
/// stays at or below `head - CONFIRMATION_LAG`, it starts at the cursor, and
/// it is never wider than the step.
pub proof fn lemma_confirmation_lag(cursor: ScanCursor, head: u64, end_block: Option<u64>)
    requires
        cursor.wf(),
        head >= CONFIRMATION_LAG,
    ensures
        spec_fetch_plan(cursor, head, end_block) matches FetchPlan::Range { from, to } ==> {
            &&& to <= head - CONFIRMATION_LAG
            &&& from == cursor.next_block
            &&& to - from + 1 <= cursor.step
        },
{
}

/// Scanned ranges are contiguous: after a successful fetch of a planned
/// range `[from, to]`, whatever head the chain reports next, the next plan
/// is either to stop, to wait, or to fetch a range that starts exactly at
/// `to + 1` — no block is skipped and none is fetched twice.
pub proof fn lemma_ranges_contiguous(
    cursor: ScanCursor,
    advanced: ScanCursor,
    head: u64,
    next_head: u64,
    end_block: Option<u64>,
)
    requires
        cursor.wf(),
        head >= CONFIRMATION_LAG,
        next_head >= CONFIRMATION_LAG,
        spec_fetch_plan(cursor, head, end_block) matches FetchPlan::Range { from, to }
            && advanced == (ScanCursor { next_block: (to + 1) as u64, step: cursor.step }),
    ensures
        spec_fetch_plan(advanced, next_head, end_block) matches FetchPlan::Range {
            from: next_from,
            to: next_to,
        } ==> {
            let to = spec_scan_target(cursor, head);
            &&& next_from == to + 1
            &&& next_to > to
        },
{
}

/// A single shrink keeps the step within `[1, step]`, and strictly below any
/// step that was still above the floor.
pub proof fn lemma_shrink_step_bounds(step: u64)
    requires
        step >= 1,
    ensures
        1 <= spec_shrink_step(step) <= step,
        step > 1 ==> spec_shrink_step(step) < step,
{
}

/// Step-size history invariant: along any run of consecutive shrinks, the
/// step stays within `[1, initial]`, and decreases strictly until it reaches
/// the floor of one block.
pub proof fn lemma_step_history(history: Seq<u64>)
    requires
        history.len() >= 1,
        history[0] >= 1,
        forall|i: int| 1 <= i < history.len() ==> history[i] == spec_shrink_step(#[trigger] history[i - 1]),
    ensures
        forall|i: int| 0 <= i < history.len() ==> 1 <= #[trigger] history[i] <= history[0],
        forall|i: int| 1 <= i < history.len() && #[trigger] history[i - 1] > 1 ==> history[i] < history[i - 1],
    decreases history.len(),
{
    if history.len() > 1 {
        let prefix = history.drop_last();
        lemma_step_history(prefix);
        assert(forall|i: int| 0 <= i < prefix.len() ==> prefix[i] == history[i]);
        let last = history.len() - 1;
        lemma_shrink_step_bounds(history[last - 1]);
    }
}

} // verus!
