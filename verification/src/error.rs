use vstd::prelude::*;
use vstd::string::*;

verus! {

/// The class of a failure, named after the component that raises it.
#[derive(Clone, Copy, Debug, PartialEq, Eq, Structural)]
pub enum ErrorKind {
    ResolutionError,
    DownloadError,
    ExtractionError,
    StagingBuildError,
    StagingSmokeTestError,
    SnapshotError,
    InstallError,
    VerificationError,
    RollbackError,
}

/// A failure of one step: its class and a description for the operator.
#[derive(Debug, PartialEq, Eq)]
pub struct UpdateError {
    pub kind: ErrorKind,
    pub message: String,
}

/// How a run that reached the installation step ended.
#[derive(Debug, PartialEq, Eq)]
pub enum UpdateOutcome {
    Success,
    RolledBack(UpdateError),
    RollbackFailed(UpdateError, UpdateError),
}

/// The text shown for an outcome.
pub open spec fn outcome_text(outcome: UpdateOutcome) -> Seq<char> {
    match outcome {
        UpdateOutcome::Success => "Update completed successfully"@,
        UpdateOutcome::RolledBack(e) => "Update failed and was rolled back: "@ + e.message@,
        UpdateOutcome::RollbackFailed(e, r) => "Update failed: "@ + e.message@
            + ". Rollback also failed: "@ + r.message@ + ". Manual recovery may be needed."@,
    }
}

/// What an update failure and the result of the rollback that followed it
/// amount to: both errors are kept when the rollback failed too.
pub open spec fn composed(cause: UpdateError, rollback: Result<(), UpdateError>) -> UpdateOutcome {
    match rollback {
        Ok(_) => UpdateOutcome::RolledBack(cause),
        Err(r) => UpdateOutcome::RollbackFailed(cause, r),
    }
}

impl UpdateError {
    pub fn new(kind: ErrorKind, message: String) -> (e: UpdateError)
        ensures
            e.kind == kind,
            e.message == message,
    {
        UpdateError { kind, message }
    }

    /// An error whose message is `text`.
    pub fn plain(kind: ErrorKind, text: &str) -> (e: UpdateError)
        ensures
            e.kind == kind,
            e.message@ == text@,
    {
        UpdateError { kind, message: String::from_str(text) }
    }

    /// An error whose message is `prefix` followed by `detail`.
    pub fn with_detail(kind: ErrorKind, prefix: &str, detail: &str) -> (e: UpdateError)
        ensures
            e.kind == kind,
            e.message@ == prefix@ + detail@,
    {
        let message = String::from_str(prefix).concat(detail);
        UpdateError { kind, message }
    }

    /// A copy of this error.
    pub fn duplicate(&self) -> (e: UpdateError)
        ensures
            e == *self,
    {
        UpdateError { kind: self.kind, message: self.message.clone() }
    }
}

impl UpdateOutcome {
    /// Composes the failure of an update with the result of its rollback.
    pub fn compose(cause: UpdateError, rollback: Result<(), UpdateError>) -> (outcome: UpdateOutcome)
        ensures
            outcome == composed(cause, rollback),
    {
        match rollback {
            Ok(_) => UpdateOutcome::RolledBack(cause),
            Err(r) => UpdateOutcome::RollbackFailed(cause, r),
        }
    }

    /// Whether the update was applied.
    pub fn is_success(&self) -> (b: bool)
        ensures
            b == (*self is Success),
    {
        match self {
            UpdateOutcome::Success => true,
            _ => false,
        }
    }

    /// Whether an operator has to repair the installation by hand: exactly
    /// when the rollback failed as well.
    pub fn requires_manual_recovery(&self) -> (b: bool)
        ensures
            b == (*self is RollbackFailed),
    {
        match self {
            UpdateOutcome::RollbackFailed(_, _) => true,
            _ => false,
        }
    }

    /// The text that tells the three outcomes apart.
    pub fn describe(&self) -> (text: String)
        ensures
            text@ == outcome_text(*self),
    {
        match self {
            UpdateOutcome::Success => String::from_str("Update completed successfully"),
            UpdateOutcome::RolledBack(e) => String::from_str(
                "Update failed and was rolled back: ",
            ).concat(e.message.as_str()),
            UpdateOutcome::RollbackFailed(e, r) => String::from_str("Update failed: ").concat(
                e.message.as_str(),
            ).concat(". Rollback also failed: ").concat(r.message.as_str()).concat(
                ". Manual recovery may be needed.",
            ),
        }
    }
}

} // verus!
