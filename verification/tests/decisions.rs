use kernelle_update::error::{ErrorKind, UpdateError, UpdateOutcome};
use kernelle_update::layout::{join, InstallationTarget, Snapshot, StagingWorkspace};
use kernelle_update::orchestrator::{Phase, RunResult, Step};
use kernelle_update::release::{
    check_download, contains_bytes, find_extracted_dir, release_endpoint, resolve_release,
    status_is_success, ReleaseDescriptor, ServiceReply, WorkspaceEntry,
};
use kernelle_update::staging::{
    check_snapshot_present, judge_extraction, judge_install, judge_rollback, judge_snapshot,
    judge_verification, staging_step, StagingProbe, StagingReport, StagingStep,
};

const BASE: &str = "https://api.example.org/repos/owner/project";

fn error(kind: ErrorKind, text: &str) -> UpdateError {
    UpdateError { kind, message: text.to_string() }
}

fn entry(name: &str, is_dir: bool) -> WorkspaceEntry {
    WorkspaceEntry { name: name.to_string(), is_dir }
}

fn good_report() -> StagingReport {
    StagingReport {
        script_found: Some(true),
        install_ok: Some(true),
        install_stderr: String::new(),
        binary_found: Some(true),
        smoke_ok: Some(true),
    }
}

fn verdict(report: &StagingReport) -> Result<(), UpdateError> {
    match staging_step(report) {
        StagingStep::Verdict(result) => result,
        StagingStep::Probe(probe) => panic!("probe left: {:?}", probe),
    }
}

#[test]
fn resolver_without_version_yields_latest_release() {
    assert_eq!(release_endpoint(BASE, None), format!("{}/releases/latest", BASE));
    let reply = ServiceReply::Answered {
        status: 200,
        release: Some(ReleaseDescriptor {
            tag: "v2.0.0".to_string(),
            artifact_url: "https://example.org/v2.0.0.tar.gz".to_string(),
        }),
    };
    let release = resolve_release(reply).unwrap();
    assert_eq!(release.tag, "v2.0.0");
    assert_eq!(release.artifact_url, "https://example.org/v2.0.0.tar.gz");
}

#[test]
fn endpoint_of_a_tagged_version() {
    assert_eq!(release_endpoint(BASE, Some("v1.2.3")), format!("{}/releases/tags/v1.2.3", BASE));
    assert_eq!(release_endpoint(BASE, Some("latest")), format!("{}/releases/latest", BASE));
    assert_eq!(release_endpoint(BASE, Some("")), format!("{}/releases/tags/", BASE));
}

#[test]
fn resolver_fails_when_unreachable() {
    let e = resolve_release(ServiceReply::Unreachable).unwrap_err();
    assert_eq!(e.kind, ErrorKind::ResolutionError);
    assert_eq!(e.message, "Failed to fetch release from the release service");
}

#[test]
fn resolver_fails_on_non_success_status() {
    let release = ReleaseDescriptor { tag: "v1".to_string(), artifact_url: "u".to_string() };
    let e = resolve_release(ServiceReply::Answered { status: 404, release: Some(release) })
        .unwrap_err();
    assert_eq!(e.kind, ErrorKind::ResolutionError);
    assert_eq!(e.message, "Release service request failed with a non-success status");
}

#[test]
fn resolver_fails_on_unreadable_body() {
    let e = resolve_release(ServiceReply::Answered { status: 200, release: None }).unwrap_err();
    assert_eq!(e.kind, ErrorKind::ResolutionError);
    assert_eq!(e.message, "Failed to parse release response");
}

#[test]
fn success_statuses_are_200_to_299() {
    assert!(!status_is_success(199));
    assert!(status_is_success(200));
    assert!(status_is_success(204));
    assert!(status_is_success(299));
    assert!(!status_is_success(300));
    assert!(!status_is_success(0));
    assert!(!status_is_success(u16::MAX));
}

#[test]
fn download_is_judged_by_status() {
    assert_eq!(check_download(Some(200)), Ok(()));
    assert_eq!(
        check_download(Some(503)),
        Err(error(ErrorKind::DownloadError, "Artifact download failed with a non-success status"))
    );
    assert_eq!(
        check_download(None),
        Err(error(ErrorKind::DownloadError, "Failed to download release artifact"))
    );
}

#[test]
fn substring_search_on_bytes() {
    assert!(contains_bytes(b"owner-kernelle-abc123", b"kernelle"));
    assert!(contains_bytes(b"kernelle", b"kernelle"));
    assert!(contains_bytes(b"xxkernelle", b"kernelle"));
    assert!(contains_bytes(b"anything", b""));
    assert!(contains_bytes(b"", b""));
    assert!(!contains_bytes(b"", b"k"));
    assert!(!contains_bytes(b"kernell", b"kernelle"));
    assert!(!contains_bytes(b"kernelkernell", b"kernelle"));
    assert!(contains_bytes(b"kernelkernelle", b"kernelle"));
    assert!(contains_bytes(b"aab", b"ab"));
}

#[test]
fn extracted_directory_is_the_single_candidate() {
    let entries = vec![
        entry("kernelle.tar.gz", false),
        entry("bins", true),
        entry("owner-kernelle-abc123", true),
    ];
    assert_eq!(find_extracted_dir(&entries, "kernelle"), Ok(2));
}

#[test]
fn extraction_fails_without_candidate() {
    let entries = vec![entry("kernelle.tar.gz", false), entry("bins", true)];
    assert_eq!(
        find_extracted_dir(&entries, "kernelle"),
        Err(error(ErrorKind::ExtractionError, "Could not find the extracted directory"))
    );
    assert_eq!(
        find_extracted_dir(&Vec::new(), "kernelle"),
        Err(error(ErrorKind::ExtractionError, "Could not find the extracted directory"))
    );
}

#[test]
fn extraction_fails_with_two_candidates() {
    let entries = vec![
        entry("kernelle_home", true),
        entry("notes", true),
        entry("owner-kernelle-abc123", true),
    ];
    assert_eq!(
        find_extracted_dir(&entries, "kernelle"),
        Err(error(
            ErrorKind::ExtractionError,
            "More than one directory could be the extracted one"
        ))
    );
}

#[test]
fn staging_judgement_in_order_of_failure() {
    assert_eq!(verdict(&good_report()), Ok(()));
    let mut r = StagingReport::start();
    r.script_found = Some(false);
    assert_eq!(
        verdict(&r),
        Err(error(ErrorKind::StagingBuildError, "install procedure not found in extracted archive"))
    );
    let mut r = StagingReport::start();
    r.script_found = Some(true);
    r.install_ok = Some(false);
    r.install_stderr = "cargo: not found".to_string();
    assert_eq!(
        verdict(&r),
        Err(error(ErrorKind::StagingBuildError, "Staging installation failed: cargo: not found"))
    );
    let mut r = good_report();
    r.binary_found = Some(false);
    r.smoke_ok = None;
    assert_eq!(
        verdict(&r),
        Err(error(
            ErrorKind::StagingSmokeTestError,
            "primary binary not found in staging installation"
        ))
    );
    let mut r = good_report();
    r.smoke_ok = Some(false);
    assert_eq!(
        verdict(&r),
        Err(error(ErrorKind::StagingSmokeTestError, "Staged primary binary failed version check"))
    );
}

#[test]
fn staging_probes_come_in_order() {
    let mut r = StagingReport::start();
    assert_eq!(staging_step(&r), StagingStep::Probe(StagingProbe::FindScript));
    r.script_found = Some(true);
    assert_eq!(staging_step(&r), StagingStep::Probe(StagingProbe::RunInstall));
    r.install_ok = Some(true);
    assert_eq!(staging_step(&r), StagingStep::Probe(StagingProbe::FindBinary));
    r.binary_found = Some(true);
    assert_eq!(staging_step(&r), StagingStep::Probe(StagingProbe::RunSmokeTest));
    r.smoke_ok = Some(true);
    assert_eq!(staging_step(&r), StagingStep::Verdict(Ok(())));
}

#[test]
fn no_probe_follows_a_failed_one() {
    let mut r = StagingReport::start();
    r.script_found = Some(false);
    assert!(matches!(staging_step(&r), StagingStep::Verdict(Err(_))));
    r.script_found = Some(true);
    r.install_ok = Some(false);
    assert!(matches!(staging_step(&r), StagingStep::Verdict(Err(_))));
    r.install_ok = Some(true);
    r.binary_found = Some(false);
    assert!(matches!(staging_step(&r), StagingStep::Verdict(Err(_))));
}

#[test]
fn missing_snapshot_is_a_rollback_error() {
    assert_eq!(check_snapshot_present(true, "/s/snapshots/pre_update_1"), Ok(()));
    assert_eq!(
        check_snapshot_present(false, "/s/snapshots/pre_update_1"),
        Err(error(
            ErrorKind::RollbackError,
            "Snapshot directory not found: /s/snapshots/pre_update_1"
        ))
    );
}

#[test]
fn snapshot_name_in_use_is_refused() {
    let target =
        InstallationTarget::new("/s".to_string(), "/b".to_string(), Vec::new()).unwrap();
    let present = vec!["pre_update_2023".to_string(), "pre_update_20240102_030405".to_string()];
    assert_eq!(
        Snapshot::fresh(&target, "20240102_030405", &present),
        Err(error(
            ErrorKind::SnapshotError,
            "Snapshot name is already in use: pre_update_20240102_030405"
        ))
    );
    assert_eq!(
        Snapshot::fresh(&target, "20240102_030406", &present),
        Ok(Snapshot::at(&target, "20240102_030406"))
    );
    assert_eq!(
        Snapshot::fresh(&target, "2023", &Vec::new()),
        Ok(Snapshot::at(&target, "2023"))
    );
    assert_eq!(
        Snapshot::from_clock(&target, None, &present),
        Err(error(ErrorKind::SnapshotError, "The clock cannot be read"))
    );
    assert_eq!(
        Snapshot::from_clock(&target, Some("2023".to_string()), &present),
        Err(error(ErrorKind::SnapshotError, "Snapshot name is already in use: pre_update_2023"))
    );
    assert_eq!(
        Snapshot::from_clock(&target, Some("2024".to_string()), &present),
        Ok(Snapshot::at(&target, "2024"))
    );
}

#[test]
fn failed_staging_build_aborts_before_any_snapshot() {
    let mut report = StagingReport::start();
    report.script_found = Some(true);
    report.install_ok = Some(false);
    report.install_stderr = "exit 1".to_string();
    let failure = verdict(&report).unwrap_err();
    assert_eq!(failure.kind, ErrorKind::StagingBuildError);

    let mut phase = Phase::start();
    let mut handed_out = Vec::new();
    handed_out.push(phase.pending_step());
    phase = phase.advance(Ok(()));
    handed_out.push(phase.pending_step());
    phase = phase.advance(Ok(()));
    handed_out.push(phase.pending_step());
    phase = phase.advance(Err(failure));
    handed_out.push(phase.pending_step());
    assert_eq!(
        handed_out,
        vec![Some(Step::Resolve), Some(Step::Download), Some(Step::Validate), None]
    );
    assert!(phase.is_final());
    assert_eq!(
        phase.into_result(),
        Some(RunResult::Aborted(error(
            ErrorKind::StagingBuildError,
            "Staging installation failed: exit 1"
        )))
    );
}

#[test]
fn failure_in_each_early_phase_aborts_without_touching_production() {
    for failing in 0..4usize {
        let mut phase = Phase::start();
        for _ in 0..failing {
            assert!(!phase.pending_step().unwrap().touches_production());
            phase = phase.advance(Ok(()));
        }
        assert!(!phase.pending_step().unwrap().touches_production());
        phase = phase.advance(Err(error(ErrorKind::DownloadError, "down")));
        assert_eq!(phase, Phase::Aborted(error(ErrorKind::DownloadError, "down")));
        assert_eq!(phase.pending_step(), None);
    }
}

#[test]
fn phases_pass_in_order_to_success() {
    let mut phase = Phase::start();
    let expected = [
        Step::Resolve,
        Step::Download,
        Step::Validate,
        Step::Snapshot,
        Step::Install,
        Step::Verify,
    ];
    for step in expected {
        assert_eq!(phase.pending_step(), Some(step));
        assert!(!phase.is_final());
        phase = phase.advance(Ok(()));
    }
    assert_eq!(phase, Phase::Success);
    assert!(phase.is_final());
    assert_eq!(phase.into_result(), Some(RunResult::Completed(UpdateOutcome::Success)));
}

#[test]
fn only_install_and_rollback_touch_production() {
    assert!(!Step::Resolve.touches_production());
    assert!(!Step::Download.touches_production());
    assert!(!Step::Validate.touches_production());
    assert!(!Step::Snapshot.touches_production());
    assert!(Step::Install.touches_production());
    assert!(!Step::Verify.touches_production());
    assert!(Step::Rollback.touches_production());
}

#[test]
fn install_failure_starts_one_rollback() {
    let phase = Phase::Installing.advance(Err(error(ErrorKind::InstallError, "bad")));
    assert_eq!(phase, Phase::RollingBack(error(ErrorKind::InstallError, "bad")));
    assert_eq!(phase.pending_step(), Some(Step::Rollback));
    let done = phase.advance(Ok(()));
    assert_eq!(done, Phase::RolledBack(error(ErrorKind::InstallError, "bad")));
    assert_eq!(done.pending_step(), None);
}

#[test]
fn final_phases_stay() {
    let e = || error(ErrorKind::InstallError, "bad");
    let r = || error(ErrorKind::RollbackError, "worse");
    assert_eq!(Phase::Success.advance(Err(e())), Phase::Success);
    assert_eq!(Phase::Aborted(e()).advance(Ok(())), Phase::Aborted(e()));
    assert_eq!(Phase::RolledBack(e()).advance(Err(r())), Phase::RolledBack(e()));
    assert_eq!(Phase::RollbackFailed(e(), r()).advance(Ok(())), Phase::RollbackFailed(e(), r()));
    assert_eq!(Phase::Installing.into_result(), None);
    assert_eq!(Phase::RollingBack(e()).into_result(), None);
}

#[test]
fn install_and_rollback_both_failing_keep_both_errors() {
    let install = judge_install(false, "disk full").unwrap_err();
    assert_eq!(install, error(ErrorKind::InstallError, "Installation failed: disk full"));
    let rollback =
        judge_rollback(Err("Failed to restore kernelle: permission denied".to_string()), Ok(()))
            .unwrap_err();
    assert_eq!(rollback.kind, ErrorKind::RollbackError);

    let phase = Phase::Installing.advance(Err(install)).advance(Err(rollback));
    let result = phase.into_result().unwrap();
    let outcome = match result {
        RunResult::Completed(outcome) => outcome,
        RunResult::Aborted(e) => panic!("aborted: {:?}", e),
    };
    assert_eq!(
        outcome,
        UpdateOutcome::RollbackFailed(
            error(ErrorKind::InstallError, "Installation failed: disk full"),
            error(ErrorKind::RollbackError, "Failed to restore kernelle: permission denied"),
        )
    );
    assert!(outcome.requires_manual_recovery());
    assert!(!outcome.is_success());
    assert_eq!(
        outcome.describe(),
        "Update failed: Installation failed: disk full. Rollback also failed: Failed to restore \
         kernelle: permission denied. Manual recovery may be needed."
    );
}

#[test]
fn outcomes_are_told_apart() {
    assert_eq!(UpdateOutcome::Success.describe(), "Update completed successfully");
    assert!(UpdateOutcome::Success.is_success());
    assert!(!UpdateOutcome::Success.requires_manual_recovery());
    let rolled = UpdateOutcome::compose(error(ErrorKind::VerificationError, "no start"), Ok(()));
    assert_eq!(rolled, UpdateOutcome::RolledBack(error(ErrorKind::VerificationError, "no start")));
    assert_eq!(rolled.describe(), "Update failed and was rolled back: no start");
    assert!(!rolled.requires_manual_recovery());
    assert!(!rolled.is_success());
    let failed = UpdateOutcome::compose(
        error(ErrorKind::InstallError, "a"),
        Err(error(ErrorKind::RollbackError, "b")),
    );
    assert_eq!(
        failed,
        UpdateOutcome::RollbackFailed(
            error(ErrorKind::InstallError, "a"),
            error(ErrorKind::RollbackError, "b")
        )
    );
}

#[test]
fn errors_are_built_and_copied() {
    let e = UpdateError::new(ErrorKind::SnapshotError, "disk full".to_string());
    assert_eq!(e, error(ErrorKind::SnapshotError, "disk full"));
    assert_eq!(e.duplicate(), e);
    assert_eq!(UpdateError::plain(ErrorKind::DownloadError, "x"), error(ErrorKind::DownloadError, "x"));
    assert_eq!(
        UpdateError::with_detail(ErrorKind::InstallError, "a: ", "b"),
        error(ErrorKind::InstallError, "a: b")
    );
}

#[test]
fn step_results_are_judged() {
    assert_eq!(judge_extraction(true, "ignored"), Ok(()));
    assert_eq!(
        judge_extraction(false, "bad gzip"),
        Err(error(ErrorKind::ExtractionError, "Failed to extract archive: bad gzip"))
    );
    assert_eq!(judge_install(true, "warning"), Ok(()));
    assert_eq!(judge_verification(true, true), Ok(()));
    assert_eq!(
        judge_verification(true, false),
        Err(error(
            ErrorKind::VerificationError,
            "primary binary failed version check after installation"
        ))
    );
    assert_eq!(
        judge_verification(false, true),
        Err(error(
            ErrorKind::VerificationError,
            "Failed to start the primary binary after installation"
        ))
    );
    assert_eq!(judge_snapshot(Ok(())), Ok(()));
    assert_eq!(
        judge_snapshot(Err("no space".to_string())),
        Err(error(ErrorKind::SnapshotError, "no space"))
    );
    assert_eq!(judge_rollback(Ok(()), Ok(())), Ok(()));
    assert_eq!(
        judge_rollback(Ok(()), Err(error(ErrorKind::VerificationError, "still broken"))),
        Err(error(ErrorKind::RollbackError, "still broken"))
    );
    assert_eq!(
        judge_rollback(
            Err("copy failed".to_string()),
            Err(error(ErrorKind::VerificationError, "still broken"))
        ),
        Err(error(ErrorKind::RollbackError, "copy failed"))
    );
}

#[test]
fn target_names_form_a_set() {
    let names = vec!["kernelle".to_string(), "blizz".to_string(), "kernelle".to_string()];
    assert!(InstallationTarget::new("/s".to_string(), "/b".to_string(), names).is_none());
    let names = vec!["kernelle".to_string(), "blizz".to_string()];
    let target = InstallationTarget::new("/s".to_string(), "/b".to_string(), names).unwrap();
    assert_eq!(target.binary_count(), 2);
    assert_eq!(target.binary_path(1), "/b/blizz");
    assert_eq!(target.snapshots_dir(), "/s/snapshots");
    let empty = InstallationTarget::new("/s".to_string(), "/b".to_string(), Vec::new()).unwrap();
    assert_eq!(empty.binary_count(), 0);
}

#[test]
fn snapshot_follows_the_layout() {
    let target = InstallationTarget::new(
        "/home/u/.kernelle".to_string(),
        "/home/u/.cargo/bin".to_string(),
        vec!["kernelle".to_string()],
    )
    .unwrap();
    let snapshot = Snapshot::at(&target, "20240102_030405");
    assert_eq!(snapshot.id, "20240102_030405");
    assert_eq!(snapshot.name(), "pre_update_20240102_030405");
    assert_eq!(
        snapshot.dir("/home/u/.kernelle"),
        "/home/u/.kernelle/snapshots/pre_update_20240102_030405"
    );
    assert_eq!(
        snapshot.state_backup,
        "/home/u/.kernelle/snapshots/pre_update_20240102_030405/state_backup"
    );
    assert_eq!(
        snapshot.bin_backup,
        "/home/u/.kernelle/snapshots/pre_update_20240102_030405/bin_backup"
    );
    assert_eq!(
        snapshot.binary_backup_path("kernelle"),
        "/home/u/.kernelle/snapshots/pre_update_20240102_030405/bin_backup/kernelle"
    );
    assert_eq!(join("a", "b"), "a/b");
}

#[test]
fn snapshot_taken_now_is_named_after_the_clock() {
    let target =
        InstallationTarget::new("/s".to_string(), "/b".to_string(), Vec::new()).unwrap();
    let snapshot = Snapshot::now(&target, &Vec::new()).unwrap();
    assert_eq!(snapshot, Snapshot::at(&target, &snapshot.id));
    let taken = vec![snapshot.name()];
    let again = Snapshot::now(&target, &taken);
    assert!(again.map(|next| next.id != snapshot.id).unwrap_or(true));
    let stamp: Vec<char> = snapshot.id.chars().collect();
    assert!(stamp.len() >= 15);
    assert_eq!(stamp[stamp.len() - 7], '_');
    assert!(stamp[stamp.len() - 6..].iter().all(|c| c.is_ascii_digit()));
    assert_eq!(snapshot.state_backup, format!("/s/snapshots/pre_update_{}/state_backup", snapshot.id));
}

#[test]
fn staging_workspace_lies_under_its_root() {
    let workspace = StagingWorkspace::under("/tmp/stage", "owner-kernelle-abc123");
    assert_eq!(
        workspace,
        StagingWorkspace {
            root: "/tmp/stage".to_string(),
            extracted_source: "/tmp/stage/download/owner-kernelle-abc123".to_string(),
            staged_state_dir: "/tmp/stage/state".to_string(),
            staged_bin_dir: "/tmp/stage/bins".to_string(),
        }
    );
    assert_eq!(StagingWorkspace::download_dir("/tmp/stage"), "/tmp/stage/download");
}
