use crate::error::{ErrorKind, UpdateError};
use vstd::prelude::*;

verus! {

/// One look at the staged installation.
#[derive(Clone, Copy, Debug, PartialEq, Eq, Structural)]
pub enum StagingProbe {
    /// Look for the install procedure in the extracted source.
    FindScript,
    /// Run the install procedure against the staged directories.
    RunInstall,
    /// Look for the primary binary in the staged binary directory.
    FindBinary,
    /// Run the primary binary's version operation.
    RunSmokeTest,
}

/// What has been seen of the staged installation so far.  A field is
/// `None` until its probe has been made.
#[derive(Debug)]
pub struct StagingReport {
    /// The install procedure was found in the extracted source.
    pub script_found: Option<bool>,
    /// The install procedure ended with exit status zero.
    pub install_ok: Option<bool>,
    /// What the install procedure wrote to its error stream.
    pub install_stderr: String,
    /// The primary binary was found in the staged binary directory.
    pub binary_found: Option<bool>,
    /// The primary binary's version operation ended with exit status zero.
    pub smoke_ok: Option<bool>,
}

/// What the validation of the staged installation does next.
#[derive(Debug, PartialEq, Eq)]
pub enum StagingStep {
    Probe(StagingProbe),
    Verdict(Result<(), UpdateError>),
}

/// The probe to make next, in the order script, install, binary, smoke
/// test; none once a probe has shown a failure or all four have passed.
pub open spec fn next_probe(report: StagingReport) -> Option<StagingProbe> {
    if report.script_found is None {
        Some(StagingProbe::FindScript)
    } else if report.script_found == Some(false) {
        None
    } else if report.install_ok is None {
        Some(StagingProbe::RunInstall)
    } else if report.install_ok == Some(false) {
        None
    } else if report.binary_found is None {
        Some(StagingProbe::FindBinary)
    } else if report.binary_found == Some(false) {
        None
    } else if report.smoke_ok is None {
        Some(StagingProbe::RunSmokeTest)
    } else {
        None
    }
}

/// The class of failure that a report with no probe left shows, if it
/// shows one: the first thing that went wrong decides.
pub open spec fn staging_fault(report: StagingReport) -> Option<ErrorKind> {
    if report.script_found != Some(true) || report.install_ok != Some(true) {
        Some(ErrorKind::StagingBuildError)
    } else if report.binary_found != Some(true) || report.smoke_ok != Some(true) {
        Some(ErrorKind::StagingSmokeTestError)
    } else {
        None
    }
}

/// The description of the failure that a report shows.
pub open spec fn staging_fault_text(report: StagingReport) -> Seq<char> {
    if report.script_found != Some(true) {
        "install procedure not found in extracted archive"@
    } else if report.install_ok != Some(true) {
        "Staging installation failed: "@ + report.install_stderr@
    } else if report.binary_found != Some(true) {
        "primary binary not found in staging installation"@
    } else {
        "Staged primary binary failed version check"@
    }
}

/// Whether `result` is the verdict on a step: success where `ok`, else an
/// error of class `kind` that says `text`.
pub open spec fn judged(ok: bool, kind: ErrorKind, text: Seq<char>, result: Result<(), UpdateError>) -> bool {
    if ok {
        result is Ok
    } else {
        result is Err && result.unwrap_err().kind == kind && result.unwrap_err().message@ == text
    }
}

impl StagingReport {
    /// The report before any probe.
    pub fn start() -> (report: StagingReport)
        ensures
            report.script_found is None,
            report.install_ok is None,
            report.binary_found is None,
            report.smoke_ok is None,
            report.install_stderr@ == Seq::<char>::empty(),
            next_probe(report) == Some(StagingProbe::FindScript),
    {
        StagingReport {
            script_found: None,
            install_ok: None,
            install_stderr: String::new(),
            binary_found: None,
            smoke_ok: None,
        }
    }
}

/// What validation does next, given what has been seen: the next probe, or
/// the verdict.  The install procedure is run only if it was found, the
/// binary looked for only after a successful install, and the smoke test
/// run only on a binary that was found.  The verdict is a staging build
/// error if the install procedure is missing or did not exit with zero, a
/// staging smoke test error if the binary is missing or its version
/// operation failed, and success after four good probes.
pub fn staging_step(report: &StagingReport) -> (step: StagingStep)
    ensures
        match step {
            StagingStep::Probe(probe) => next_probe(*report) == Some(probe),
            StagingStep::Verdict(result) => next_probe(*report) is None && (result is Ok
                <==> staging_fault(*report) is None) && (result is Err ==> staging_fault(*report)
                == Some(result.unwrap_err().kind) && result.unwrap_err().message@
                == staging_fault_text(*report)),
        },
{
    match report.script_found {
        None => return StagingStep::Probe(StagingProbe::FindScript),
        Some(false) => return StagingStep::Verdict(
            Err(
                UpdateError::plain(
                    ErrorKind::StagingBuildError,
                    "install procedure not found in extracted archive",
                ),
            ),
        ),
        Some(true) => {},
    }
    match report.install_ok {
        None => return StagingStep::Probe(StagingProbe::RunInstall),
        Some(false) => return StagingStep::Verdict(
            Err(
                UpdateError::with_detail(
                    ErrorKind::StagingBuildError,
                    "Staging installation failed: ",
                    report.install_stderr.as_str(),
                ),
            ),
        ),
        Some(true) => {},
    }
    match report.binary_found {
        None => return StagingStep::Probe(StagingProbe::FindBinary),
        Some(false) => return StagingStep::Verdict(
            Err(
                UpdateError::plain(
                    ErrorKind::StagingSmokeTestError,
                    "primary binary not found in staging installation",
                ),
            ),
        ),
        Some(true) => {},
    }
    match report.smoke_ok {
        None => StagingStep::Probe(StagingProbe::RunSmokeTest),
        Some(false) => StagingStep::Verdict(
            Err(
                UpdateError::plain(
                    ErrorKind::StagingSmokeTestError,
                    "Staged primary binary failed version check",
                ),
            ),
        ),
        Some(true) => StagingStep::Verdict(Ok(())),
    }
}

/// Judges the look for the snapshot before a rollback: a rollback error
/// that names the directory, unless it was found.
pub fn check_snapshot_present(found: bool, dir: &str) -> (result: Result<(), UpdateError>)
    ensures
        judged(found, ErrorKind::RollbackError, "Snapshot directory not found: "@ + dir@, result),
{
    if found {
        Ok(())
    } else {
        Err(UpdateError::with_detail(ErrorKind::RollbackError, "Snapshot directory not found: ", dir))
    }
}

/// Judges the archive tool's run: an extraction error, with what the tool
/// wrote to its error stream, unless it exited with zero.
pub fn judge_extraction(exit_ok: bool, stderr: &str) -> (result: Result<(), UpdateError>)
    ensures
        judged(exit_ok, ErrorKind::ExtractionError, "Failed to extract archive: "@ + stderr@, result),
{
    if exit_ok {
        Ok(())
    } else {
        Err(UpdateError::with_detail(ErrorKind::ExtractionError, "Failed to extract archive: ", stderr))
    }
}

/// Judges the installation into production: an install error, with what
/// the install procedure wrote to its error stream, unless it exited with
/// zero.
pub fn judge_install(exit_ok: bool, stderr: &str) -> (result: Result<(), UpdateError>)
    ensures
        judged(exit_ok, ErrorKind::InstallError, "Installation failed: "@ + stderr@, result),
{
    if exit_ok {
        Ok(())
    } else {
        Err(UpdateError::with_detail(ErrorKind::InstallError, "Installation failed: ", stderr))
    }
}

/// Judges the smoke test of the production binary: a verification error
/// unless the binary could be started and exited with zero.
pub fn judge_verification(started: bool, exit_ok: bool) -> (result: Result<(), UpdateError>)
    ensures
        judged(
            started && exit_ok,
            ErrorKind::VerificationError,
            if started {
                "primary binary failed version check after installation"@
            } else {
                "Failed to start the primary binary after installation"@
            },
            result,
        ),
{
    if !started {
        Err(
            UpdateError::plain(ErrorKind::VerificationError, "Failed to start the primary binary after installation"),
        )
    } else if !exit_ok {
        Err(
            UpdateError::plain(ErrorKind::VerificationError, "primary binary failed version check after installation"),
        )
    } else {
        Ok(())
    }
}

/// Judges a rollback: whatever failed while the snapshot was restored, a
/// filesystem step or the verification that follows, is a rollback error
/// with the failure's own description.
pub fn judge_rollback(restored: Result<(), String>, verified: Result<(), UpdateError>) -> (result:
    Result<(), UpdateError>)
    ensures
        result is Ok <==> restored is Ok && verified is Ok,
        result is Err ==> result.unwrap_err().kind == ErrorKind::RollbackError,
        result is Err ==> result.unwrap_err().message == (if restored is Err {
            restored.unwrap_err()
        } else {
            verified.unwrap_err().message
        }),
{
    match restored {
        Err(message) => Err(UpdateError::new(ErrorKind::RollbackError, message)),
        Ok(_) => match verified {
            Err(e) => Err(UpdateError::new(ErrorKind::RollbackError, e.message)),
            Ok(_) => Ok(()),
        },
    }
}

/// Judges a snapshot: a snapshot error with the failure's description where
/// a filesystem step failed.
pub fn judge_snapshot(copied: Result<(), String>) -> (result: Result<(), UpdateError>)
    ensures
        result is Ok <==> copied is Ok,
        result is Err ==> result.unwrap_err() == (UpdateError {
            kind: ErrorKind::SnapshotError,
            message: copied.unwrap_err(),
        }),
{
    match copied {
        Err(message) => Err(UpdateError::new(ErrorKind::SnapshotError, message)),
        Ok(_) => Ok(()),
    }
}

} // verus!
