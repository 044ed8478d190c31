//! What a finished conversion run records in the progress of its target.

use vstd::prelude::*;

use crate::converter::{ConversionError, ConversionStatus};
use crate::progress::{finished, unchanged_progress, Progress, Status, TargetProgress};

verus! {

/// The progress that a run with `outcome` leaves, from `current` at `now`;
/// `previous` is the progress from before the run started.
pub open spec fn concluded(
    current: TargetProgress,
    outcome: Result<ConversionStatus, ConversionError>,
    previous: TargetProgress,
    now: u64,
) -> TargetProgress {
    match outcome {
        Ok(ConversionStatus::Converted) => finished(current, Status::Completed, now),
        Ok(ConversionStatus::Unchanged) => unchanged_progress(previous),
        Err(_) => finished(current, Status::Failed, now),
    }
}

/// Records the end of a run of `id` at `now`: completed when new audio was
/// made, the earlier progress kept when nothing changed, failed otherwise.
pub fn conclude_run(
    progress: &mut Progress,
    id: &str,
    outcome: Result<ConversionStatus, ConversionError>,
    previous: TargetProgress,
    now: u64,
)
    requires
        old(progress)@.contains_key(id@),
    ensures
        final(progress)@ == old(progress)@.insert(
            id@,
            concluded(old(progress)@[id@], outcome, previous, now),
        ),
{
    match outcome {
        Ok(ConversionStatus::Converted) => progress.completed(id, now),
        Ok(ConversionStatus::Unchanged) => progress.unchanged(id, previous),
        Err(_) => progress.failed(id, now),
    }
}

/// A run always ends completed or failed, with its clock stopped.
pub proof fn lemma_run_ends_settled(
    current: TargetProgress,
    outcome: Result<ConversionStatus, ConversionError>,
    previous: TargetProgress,
    now: u64,
)
    requires
        previous.status == Status::Completed ==> previous.started_at is None,
    ensures
        concluded(current, outcome, previous, now).status == Status::Completed || concluded(
            current,
            outcome,
            previous,
            now,
        ).status == Status::Failed,
        concluded(current, outcome, previous, now).started_at is None,
{
}

} // verus!
