use crate::layout::{child_path, snapshot_path, snapshots_path, InstallationTarget, Snapshot};
use crate::plan::{is_backup_step, step_in_range, FsStep};
use vstd::prelude::*;
use vstd::string::*;

verus! {

/// The filesystem operation that carries out a step.
#[derive(Clone, Copy, Debug, PartialEq, Eq, Structural)]
pub enum CommandKind {
    /// Create the directory `to`, after every missing directory above it;
    /// fails if `to` exists.
    CreateNewDir,
    /// Copy the directory `from` into `to`, all levels; nothing if `from` is absent.
    CopyTree,
    /// As `CopyTree`, but without the entry `snapshots` of `from`.
    CopyTreeWithoutSnapshots,
    /// Copy the file `from` to `to`, after creating the directory of `to`
    /// if it is missing; fails if `from` is absent.
    CopyFile,
    /// Remove every entry of the directory `to` but the one called
    /// `snapshots`; nothing if `to` is absent.
    ClearTreeKeepingSnapshots,
    /// Remove the file `to`; nothing if it is absent.
    RemoveFile,
}

/// A filesystem operation with the places it works on.  `from` is empty
/// where the operation reads nothing.
#[derive(Debug, PartialEq, Eq)]
pub struct FsCommand {
    pub kind: CommandKind,
    pub from: String,
    pub to: String,
}

/// The operation that carries out a step.
pub open spec fn kind_of(step: FsStep) -> CommandKind {
    match step {
        FsStep::CreateSnapshot => CommandKind::CreateNewDir,
        FsStep::BackupState => CommandKind::CopyTreeWithoutSnapshots,
        FsStep::BackupBinary(_) => CommandKind::CopyFile,
        FsStep::PreserveSnapshots => CommandKind::CopyTree,
        FsStep::ClearState => CommandKind::ClearTreeKeepingSnapshots,
        FsStep::RestoreState => CommandKind::CopyTree,
        FsStep::ReinstateSnapshots => CommandKind::CopyTree,
        FsStep::RemoveBinary(_) => CommandKind::RemoveFile,
        FsStep::RestoreBinary(_) => CommandKind::CopyFile,
    }
}

/// The place a step reads from, for the snapshot taken at `stamp` and the
/// scratch directory `scratch`.
pub open spec fn source_of(
    step: FsStep,
    state_dir: Seq<char>,
    bin_dir: Seq<char>,
    names: Seq<Seq<char>>,
    stamp: Seq<char>,
    scratch: Seq<char>,
) -> Seq<char> {
    match step {
        FsStep::CreateSnapshot => Seq::empty(),
        FsStep::BackupState => state_dir,
        FsStep::BackupBinary(i) => child_path(bin_dir, names[i as int]),
        FsStep::PreserveSnapshots => snapshots_path(state_dir),
        FsStep::ClearState => Seq::empty(),
        FsStep::RestoreState => child_path(snapshot_path(state_dir, stamp), "state_backup"@),
        FsStep::ReinstateSnapshots => snapshots_path(scratch),
        FsStep::RemoveBinary(_) => Seq::empty(),
        FsStep::RestoreBinary(i) => child_path(
            child_path(snapshot_path(state_dir, stamp), "bin_backup"@),
            names[i as int],
        ),
    }
}

/// The place a step writes to or removes.
pub open spec fn target_of(
    step: FsStep,
    state_dir: Seq<char>,
    bin_dir: Seq<char>,
    names: Seq<Seq<char>>,
    stamp: Seq<char>,
    scratch: Seq<char>,
) -> Seq<char> {
    match step {
        FsStep::CreateSnapshot => snapshot_path(state_dir, stamp),
        FsStep::BackupState => child_path(snapshot_path(state_dir, stamp), "state_backup"@),
        FsStep::BackupBinary(i) => child_path(
            child_path(snapshot_path(state_dir, stamp), "bin_backup"@),
            names[i as int],
        ),
        FsStep::PreserveSnapshots => snapshots_path(scratch),
        FsStep::ClearState => state_dir,
        FsStep::RestoreState => state_dir,
        FsStep::ReinstateSnapshots => snapshots_path(state_dir),
        FsStep::RemoveBinary(i) => child_path(bin_dir, names[i as int]),
        FsStep::RestoreBinary(i) => child_path(bin_dir, names[i as int]),
    }
}

/// The filesystem operation that carries out `step` on `target`, for the
/// snapshot taken at `stamp`, with `scratch` as the directory outside the
/// installation where the snapshots subtree is copied for safekeeping.
pub fn command_for(step: FsStep, target: &InstallationTarget, stamp: &str, scratch: &str) -> (command:
    FsCommand)
    requires
        step_in_range(step, target.names().len()),
    ensures
        command.kind == kind_of(step),
        command.from@ == source_of(
            step,
            target.state_dir@,
            target.bin_dir@,
            target.names(),
            stamp@,
            scratch@,
        ),
        command.to@ == target_of(
            step,
            target.state_dir@,
            target.bin_dir@,
            target.names(),
            stamp@,
            scratch@,
        ),
{
    let snapshot = Snapshot::at(target, stamp);
    match step {
        FsStep::CreateSnapshot => FsCommand {
            kind: CommandKind::CreateNewDir,
            from: String::new(),
            to: snapshot.dir(target.state_dir.as_str()),
        },
        FsStep::BackupState => FsCommand {
            kind: CommandKind::CopyTreeWithoutSnapshots,
            from: target.state_dir.clone(),
            to: snapshot.state_backup,
        },
        FsStep::BackupBinary(i) => FsCommand {
            kind: CommandKind::CopyFile,
            from: target.binary_path(i),
            to: snapshot.binary_backup_path(target.binary_names[i].as_str()),
        },
        FsStep::PreserveSnapshots => FsCommand {
            kind: CommandKind::CopyTree,
            from: target.snapshots_dir(),
            to: String::from_str(scratch).concat("/snapshots"),
        },
        FsStep::ClearState => FsCommand {
            kind: CommandKind::ClearTreeKeepingSnapshots,
            from: String::new(),
            to: target.state_dir.clone(),
        },
        FsStep::RestoreState => FsCommand {
            kind: CommandKind::CopyTree,
            from: snapshot.state_backup,
            to: target.state_dir.clone(),
        },
        FsStep::ReinstateSnapshots => FsCommand {
            kind: CommandKind::CopyTree,
            from: String::from_str(scratch).concat("/snapshots"),
            to: target.snapshots_dir(),
        },
        FsStep::RemoveBinary(i) => FsCommand {
            kind: CommandKind::RemoveFile,
            from: String::new(),
            to: target.binary_path(i),
        },
        FsStep::RestoreBinary(i) => FsCommand {
            kind: CommandKind::CopyFile,
            from: snapshot.binary_backup_path(target.binary_names[i].as_str()),
            to: target.binary_path(i),
        },
    }
}

/// Taking a snapshot writes nowhere but into the snapshot: every step of it
/// writes below the snapshot's own directory, which lies in the snapshots
/// subtree of the state directory.
pub proof fn lemma_backup_writes_into_snapshot(
    step: FsStep,
    state_dir: Seq<char>,
    bin_dir: Seq<char>,
    names: Seq<Seq<char>>,
    stamp: Seq<char>,
    scratch: Seq<char>,
)
    requires
        is_backup_step(step),
    ensures
        snapshot_path(state_dir, stamp).is_prefix_of(
            target_of(step, state_dir, bin_dir, names, stamp, scratch),
        ),
        snapshots_path(state_dir).is_prefix_of(snapshot_path(state_dir, stamp)),
{
    let root = snapshot_path(state_dir, stamp);
    let written = target_of(step, state_dir, bin_dir, names, stamp, scratch);
    assert(written.subrange(0, root.len() as int) =~= root);
    assert(root.subrange(0, snapshots_path(state_dir).len() as int) =~= snapshots_path(state_dir));
}

/// Whether every step of a plan names a binary that the installation has.
pub fn plan_in_range(plan: &Vec<FsStep>, count: usize) -> (ok: bool)
    ensures
        ok == forall|k: int| 0 <= k < plan@.len() ==> step_in_range(#[trigger] plan@[k], count as nat),
{
    let mut k: usize = 0;
    while k < plan.len()
        invariant
            k <= plan@.len(),
            forall|j: int| 0 <= j < k ==> step_in_range(#[trigger] plan@[j], count as nat),
        decreases plan@.len() - k,
    {
        let fits = match plan[k] {
            FsStep::BackupBinary(i) => i < count,
            FsStep::RemoveBinary(i) => i < count,
            FsStep::RestoreBinary(i) => i < count,
            _ => true,
        };
        if !fits {
            return false;
        }
        k += 1;
    }
    true
}

} // verus!
