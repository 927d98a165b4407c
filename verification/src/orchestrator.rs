use crate::error::{UpdateError, UpdateOutcome};
use vstd::prelude::*;

verus! {

/// A unit of outside work that the caller performs for the orchestrator.
#[derive(Clone, Copy, Debug, PartialEq, Eq, Structural)]
pub enum Step {
    Resolve,
    Download,
    Validate,
    Snapshot,
    Install,
    Verify,
    Rollback,
}

/// Where a run stands.  The first six phases are passed in order; the last
/// four are final.
#[derive(Debug, PartialEq, Eq)]
pub enum Phase {
    ResolvingVersion,
    StagingDownload,
    StagingValidate,
    Snapshotting,
    Installing,
    Verifying,
    /// Restoring the snapshot after the given failure.
    RollingBack(UpdateError),
    Success,
    /// Failed before a snapshot existed; production was never touched.
    Aborted(UpdateError),
    RolledBack(UpdateError),
    RollbackFailed(UpdateError, UpdateError),
}

/// What a run that has ended hands to its caller.
#[derive(Debug, PartialEq, Eq)]
pub enum RunResult {
    /// The run stopped before the snapshot; nothing was changed.
    Aborted(UpdateError),
    /// The run reached the installation.
    Completed(UpdateOutcome),
}

/// The step that has to be performed in a phase, if the run has not ended.
pub open spec fn pending(phase: Phase) -> Option<Step> {
    match phase {
        Phase::ResolvingVersion => Some(Step::Resolve),
        Phase::StagingDownload => Some(Step::Download),
        Phase::StagingValidate => Some(Step::Validate),
        Phase::Snapshotting => Some(Step::Snapshot),
        Phase::Installing => Some(Step::Install),
        Phase::Verifying => Some(Step::Verify),
        Phase::RollingBack(_) => Some(Step::Rollback),
        _ => None,
    }
}

/// The phase that follows `phase` once its step has ended with `result`.
/// A final phase stays as it is.
pub open spec fn advanced(phase: Phase, result: Result<(), UpdateError>) -> Phase {
    match phase {
        Phase::ResolvingVersion => match result {
            Ok(_) => Phase::StagingDownload,
            Err(e) => Phase::Aborted(e),
        },
        Phase::StagingDownload => match result {
            Ok(_) => Phase::StagingValidate,
            Err(e) => Phase::Aborted(e),
        },
        Phase::StagingValidate => match result {
            Ok(_) => Phase::Snapshotting,
            Err(e) => Phase::Aborted(e),
        },
        Phase::Snapshotting => match result {
            Ok(_) => Phase::Installing,
            Err(e) => Phase::Aborted(e),
        },
        Phase::Installing => match result {
            Ok(_) => Phase::Verifying,
            Err(e) => Phase::RollingBack(e),
        },
        Phase::Verifying => match result {
            Ok(_) => Phase::Success,
            Err(e) => Phase::RollingBack(e),
        },
        Phase::RollingBack(cause) => match result {
            Ok(_) => Phase::RolledBack(cause),
            Err(r) => Phase::RollbackFailed(cause, r),
        },
        other => other,
    }
}

/// What a phase hands to the caller, if it is final.
pub open spec fn result_of(phase: Phase) -> Option<RunResult> {
    match phase {
        Phase::Success => Some(RunResult::Completed(UpdateOutcome::Success)),
        Phase::Aborted(e) => Some(RunResult::Aborted(e)),
        Phase::RolledBack(e) => Some(RunResult::Completed(UpdateOutcome::RolledBack(e))),
        Phase::RollbackFailed(e, r) => Some(
            RunResult::Completed(UpdateOutcome::RollbackFailed(e, r)),
        ),
        _ => None,
    }
}

/// Whether a step writes to the production installation.
pub open spec fn touches_production(step: Step) -> bool {
    step is Install || step is Rollback
}

/// Whether a phase lies behind the successful snapshot.
pub open spec fn past_snapshot(phase: Phase) -> bool {
    phase is Installing || phase is Verifying || phase is RollingBack || phase is Success
        || phase is RolledBack || phase is RollbackFailed
}

/// The phase reached from the start after the steps ended as `results` say,
/// one after the other.
pub open spec fn phase_after(results: Seq<Result<(), UpdateError>>) -> Phase
    decreases results.len(),
{
    if results.len() == 0 {
        Phase::ResolvingVersion
    } else {
        advanced(phase_after(results.drop_last()), results.last())
    }
}

/// Whether a step that writes to production was handed out at any point of
/// the run, the step now pending included.
pub open spec fn production_touched(results: Seq<Result<(), UpdateError>>) -> bool
    decreases results.len(),
{
    let now = match pending(phase_after(results)) {
        Some(step) => touches_production(step),
        None => false,
    };
    now || (results.len() > 0 && production_touched(results.drop_last()))
}

/// Whether the snapshot step was handed out and reported success at some
/// point of the run.
pub open spec fn snapshot_completed(results: Seq<Result<(), UpdateError>>) -> bool
    decreases results.len(),
{
    results.len() > 0 && ((phase_after(results.drop_last()) is Snapshotting && results.last() is Ok)
        || snapshot_completed(results.drop_last()))
}

impl Step {
    /// Whether this step writes to the production installation.
    pub fn touches_production(&self) -> (b: bool)
        ensures
            b == touches_production(*self),
    {
        match self {
            Step::Install => true,
            Step::Rollback => true,
            _ => false,
        }
    }
}

impl Phase {
    /// The phase in which every run starts.
    pub fn start() -> (phase: Phase)
        ensures
            phase == phase_after(Seq::empty()),
            phase is ResolvingVersion,
    {
        Phase::ResolvingVersion
    }

    /// The step to perform next, or `None` when the run has ended.
    pub fn pending_step(&self) -> (step: Option<Step>)
        ensures
            step == pending(*self),
    {
        match self {
            Phase::ResolvingVersion => Some(Step::Resolve),
            Phase::StagingDownload => Some(Step::Download),
            Phase::StagingValidate => Some(Step::Validate),
            Phase::Snapshotting => Some(Step::Snapshot),
            Phase::Installing => Some(Step::Install),
            Phase::Verifying => Some(Step::Verify),
            Phase::RollingBack(_) => Some(Step::Rollback),
            _ => None,
        }
    }

    /// Whether the run has ended.
    pub fn is_final(&self) -> (b: bool)
        ensures
            b == (pending(*self) is None),
            b == (result_of(*self) is Some),
    {
        match self {
            Phase::Success => true,
            Phase::Aborted(_) => true,
            Phase::RolledBack(_) => true,
            Phase::RollbackFailed(_, _) => true,
            _ => false,
        }
    }

    /// Takes the result of the pending step and moves on.  A failure before
    /// the snapshot ends the run; a failure of the installation or of its
    /// verification starts the rollback, once; the rollback's own result is
    /// joined to the failure that caused it.
    pub fn advance(self, result: Result<(), UpdateError>) -> (next: Phase)
        ensures
            next == advanced(self, result),
    {
        match self {
            Phase::ResolvingVersion => match result {
                Ok(_) => Phase::StagingDownload,
                Err(e) => Phase::Aborted(e),
            },
            Phase::StagingDownload => match result {
                Ok(_) => Phase::StagingValidate,
                Err(e) => Phase::Aborted(e),
            },
            Phase::StagingValidate => match result {
                Ok(_) => Phase::Snapshotting,
                Err(e) => Phase::Aborted(e),
            },
            Phase::Snapshotting => match result {
                Ok(_) => Phase::Installing,
                Err(e) => Phase::Aborted(e),
            },
            Phase::Installing => match result {
                Ok(_) => Phase::Verifying,
                Err(e) => Phase::RollingBack(e),
            },
            Phase::Verifying => match result {
                Ok(_) => Phase::Success,
                Err(e) => Phase::RollingBack(e),
            },
            Phase::RollingBack(cause) => match result {
                Ok(_) => Phase::RolledBack(cause),
                Err(r) => Phase::RollbackFailed(cause, r),
            },
            other => other,
        }
    }

    /// What the run hands to its caller, or `None` while a step is pending.
    pub fn into_result(self) -> (result: Option<RunResult>)
        ensures
            result == result_of(self),
    {
        match self {
            Phase::Success => Some(RunResult::Completed(UpdateOutcome::Success)),
            Phase::Aborted(e) => Some(RunResult::Aborted(e)),
            Phase::RolledBack(e) => Some(RunResult::Completed(UpdateOutcome::RolledBack(e))),
            Phase::RollbackFailed(e, r) => Some(
                RunResult::Completed(UpdateOutcome::RollbackFailed(e, r)),
            ),
            _ => None,
        }
    }
}

/// Production is written to only behind a successful snapshot: in every run,
/// however its steps end, a step that writes to production is handed out
/// only after the snapshot step has reported success, and the run stands
/// behind the snapshot exactly when that has happened.
pub proof fn lemma_production_touched_only_after_snapshot(results: Seq<Result<(), UpdateError>>)
    ensures
        production_touched(results) ==> snapshot_completed(results),
        snapshot_completed(results) <==> past_snapshot(phase_after(results)),
    decreases results.len(),
{
    if results.len() > 0 {
        lemma_production_touched_only_after_snapshot(results.drop_last());
    }
}

/// A run that is aborted never wrote to production: no step that writes to
/// it was handed out, and no rollback was attempted.
pub proof fn lemma_abort_leaves_production_untouched(results: Seq<Result<(), UpdateError>>)
    requires
        phase_after(results) is Aborted,
    ensures
        !production_touched(results),
        !snapshot_completed(results),
{
    lemma_production_touched_only_after_snapshot(results);
}

/// A failure of the installation or of its verification always leads to one
/// rollback, and the failure that caused it is kept whatever the rollback
/// reports.
pub proof fn lemma_rollback_keeps_cause(
    phase: Phase,
    failure: UpdateError,
    rollback: Result<(), UpdateError>,
)
    requires
        phase is Installing || phase is Verifying,
    ensures
        advanced(phase, Err(failure)) == Phase::RollingBack(failure),
        result_of(advanced(advanced(phase, Err(failure)), rollback)) == Some(
            RunResult::Completed(crate::error::composed(failure, rollback)),
        ),
{
}

} // verus!
