use vstd::prelude::*;

verus! {

/// The files of a directory: contents by path.  An absent directory and an
/// empty one are the same tree.
pub type Tree = Map<Seq<char>, Seq<u8>>;

/// What one snapshot directory holds: the copy of the state directory, once
/// it has been made, and the copies of the binaries, by name.
#[verifier::ext_equal]
pub struct Backup {
    pub state: Option<Tree>,
    pub bins: Tree,
}

/// The installation as the filesystem steps see it.
#[verifier::ext_equal]
pub struct World {
    /// The state directory without its snapshots subtree.
    pub state: Tree,
    /// The snapshots subtree of the state directory, by snapshot name.
    pub snapshots: Map<Seq<char>, Backup>,
    /// The scratch copy of the snapshots subtree, outside the installation.
    /// Each rollback sets it up anew.
    pub aside: Map<Seq<char>, Backup>,
    /// The files of the binary directory, by name.
    pub bins: Tree,
    /// A step was refused; no step after it is carried out.
    pub failed: bool,
}

/// One filesystem operation of a snapshot or of a rollback.  A binary is
/// given by its position among the installation's binary names.
#[derive(Clone, Copy, Debug, PartialEq, Eq, Structural)]
pub enum FsStep {
    /// Create the snapshot's directory; refused if it exists.
    CreateSnapshot,
    /// Copy the state directory, without its snapshots subtree, into the snapshot.
    BackupState,
    /// Copy a binary into the snapshot; refused if the binary is not installed.
    BackupBinary(usize),
    /// Copy the snapshots subtree to the scratch place, which is fresh.
    PreserveSnapshots,
    /// Remove all that the state directory holds but its snapshots subtree.
    ClearState,
    /// Copy the snapshot's state backup into the state directory.
    RestoreState,
    /// Copy the preserved snapshots subtree back over the state directory's.
    ReinstateSnapshots,
    /// Remove a binary from the binary directory, if it is there.
    RemoveBinary(usize),
    /// Copy a binary from the snapshot into the binary directory; refused
    /// if the snapshot does not hold it.
    RestoreBinary(usize),
}

/// Whether a step names a binary that the installation has, or none.
pub open spec fn step_in_range(step: FsStep, count: nat) -> bool {
    match step {
        FsStep::BackupBinary(i) => i < count,
        FsStep::RemoveBinary(i) => i < count,
        FsStep::RestoreBinary(i) => i < count,
        _ => true,
    }
}

/// Whether a step belongs to the taking of a snapshot: it reads the
/// installation and writes into the snapshot only.
pub open spec fn is_backup_step(step: FsStep) -> bool {
    step is CreateSnapshot || step is BackupState || step is BackupBinary
}

/// What the snapshot named `id` holds; nothing, if there is none.
pub open spec fn held(w: World, id: Seq<char>) -> Backup {
    if w.snapshots.contains_key(id) {
        w.snapshots[id]
    } else {
        Backup { state: None, bins: Map::empty() }
    }
}

/// Whether a step cannot be carried out: the snapshot's directory is to be
/// created and exists, a file to be copied is missing, or the step names
/// no binary of the installation.
pub open spec fn refused(w: World, step: FsStep, id: Seq<char>, names: Seq<Seq<char>>) -> bool {
    match step {
        FsStep::CreateSnapshot => w.snapshots.contains_key(id),
        FsStep::BackupBinary(i) => !(i < names.len() && w.bins.contains_key(names[i as int])),
        FsStep::RemoveBinary(i) => !(i < names.len()),
        FsStep::RestoreBinary(i) => !(i < names.len() && held(w, id).bins.contains_key(
            names[i as int],
        )),
        _ => false,
    }
}

/// What a step that is carried out does to the installation.
pub open spec fn effect(w: World, step: FsStep, id: Seq<char>, names: Seq<Seq<char>>) -> World {
    match step {
        FsStep::CreateSnapshot => World {
            snapshots: w.snapshots.insert(id, Backup { state: None, bins: Map::empty() }),
            ..w
        },
        FsStep::BackupState => World {
            snapshots: w.snapshots.insert(
                id,
                Backup {
                    state: Some(
                        match held(w, id).state {
                            Some(copy) => copy.union_prefer_right(w.state),
                            None => w.state,
                        },
                    ),
                    bins: held(w, id).bins,
                },
            ),
            ..w
        },
        FsStep::BackupBinary(i) => World {
            snapshots: w.snapshots.insert(
                id,
                Backup {
                    state: held(w, id).state,
                    bins: held(w, id).bins.insert(names[i as int], w.bins[names[i as int]]),
                },
            ),
            ..w
        },
        FsStep::PreserveSnapshots => World { aside: w.snapshots, ..w },
        FsStep::ClearState => World { state: Map::empty(), ..w },
        FsStep::RestoreState => if held(w, id).state is Some {
            World { state: w.state.union_prefer_right(held(w, id).state.unwrap()), ..w }
        } else {
            w
        },
        FsStep::ReinstateSnapshots => World {
            snapshots: w.snapshots.union_prefer_right(w.aside),
            ..w
        },
        FsStep::RemoveBinary(i) => World { bins: w.bins.remove(names[i as int]), ..w },
        FsStep::RestoreBinary(i) => World {
            bins: w.bins.insert(names[i as int], held(w, id).bins[names[i as int]]),
            ..w
        },
    }
}

/// What one step does to the installation, for the snapshot named `id` and
/// the binary names `names`.  After a refused step nothing changes any
/// more: whoever carries the steps out stops at the first that fails.
pub open spec fn apply(w: World, step: FsStep, id: Seq<char>, names: Seq<Seq<char>>) -> World {
    if w.failed {
        w
    } else if refused(w, step, id, names) {
        World { failed: true, ..w }
    } else {
        effect(w, step, id, names)
    }
}

/// What a list of steps does, first to last.
pub open spec fn run(w: World, steps: Seq<FsStep>, id: Seq<char>, names: Seq<Seq<char>>) -> World
    decreases steps.len(),
{
    if steps.len() == 0 {
        w
    } else {
        apply(run(w, steps.drop_last(), id, names), steps.last(), id, names)
    }
}

/// The backup steps for the first `n` binaries: one for each that is installed.
pub open spec fn binary_backups(installed: Seq<bool>, n: nat) -> Seq<FsStep>
    decreases n,
{
    if n == 0 {
        Seq::empty()
    } else {
        let before = binary_backups(installed, (n - 1) as nat);
        if n <= installed.len() && installed[n - 1] {
            before.push(FsStep::BackupBinary((n - 1) as usize))
        } else {
            before
        }
    }
}

/// The steps that take a snapshot, where `installed` says of each binary
/// name whether its file exists.
pub open spec fn snapshot_steps(installed: Seq<bool>) -> Seq<FsStep> {
    seq![FsStep::CreateSnapshot, FsStep::BackupState] + binary_backups(
        installed,
        installed.len(),
    )
}

/// The restore steps for the first `n` binaries: for each that the snapshot
/// holds, remove the installed file and copy the backup into its place.
pub open spec fn binary_restores(backed_up: Seq<bool>, n: nat) -> Seq<FsStep>
    decreases n,
{
    if n == 0 {
        Seq::empty()
    } else {
        let before = binary_restores(backed_up, (n - 1) as nat);
        if n <= backed_up.len() && backed_up[n - 1] {
            before.push(FsStep::RemoveBinary((n - 1) as usize)).push(
                FsStep::RestoreBinary((n - 1) as usize),
            )
        } else {
            before
        }
    }
}

/// The steps that restore the state directory, if the snapshot holds a copy
/// of it: the snapshots subtree is copied aside, the rest of the directory
/// is replaced from the snapshot, and the copy is laid back over the
/// subtree.  The subtree itself is never removed.
pub open spec fn state_restores(state_backed_up: bool) -> Seq<FsStep> {
    if state_backed_up {
        seq![
            FsStep::PreserveSnapshots,
            FsStep::ClearState,
            FsStep::RestoreState,
            FsStep::ReinstateSnapshots,
        ]
    } else {
        Seq::empty()
    }
}

/// The steps that restore a snapshot, where `state_backed_up` says whether
/// it holds a copy of the state directory and `backed_up` says of each
/// binary name whether it holds that file.
pub open spec fn rollback_steps(state_backed_up: bool, backed_up: Seq<bool>) -> Seq<FsStep> {
    state_restores(state_backed_up) + binary_restores(backed_up, backed_up.len())
}

/// The first `n` of the binary names, as a set.
pub open spec fn first_names(names: Seq<Seq<char>>, n: int) -> Set<Seq<char>> {
    Set::new(|k: Seq<char>| exists|i: int| 0 <= i < n && i < names.len() && #[trigger] names[i] == k)
}

/// A faithful snapshot of an installation: its state directory, and each of
/// the named binaries that is installed.
pub open spec fn snapshot_of(w: World, names: Seq<Seq<char>>) -> Backup {
    Backup { state: Some(w.state), bins: w.bins.restrict(first_names(names, names.len() as int)) }
}

/// The installation after `backup` has been restored: the state directory
/// is the backup's, if it has one; each named binary that the backup holds
/// is the backup's; every other binary and the snapshots subtree are as
/// they were.
pub open spec fn restored(w: World, backup: Backup, names: Seq<Seq<char>>) -> World {
    World {
        state: if backup.state is Some { backup.state.unwrap() } else { w.state },
        snapshots: w.snapshots,
        aside: if backup.state is Some { w.snapshots } else { w.aside },
        failed: w.failed,
        bins: w.bins.union_prefer_right(
            backup.bins.restrict(first_names(names, names.len() as int)),
        ),
    }
}

/// Whether `present` says of each binary name whether `files` holds it.
/// The names are as many as a vector can hold.
pub open spec fn probed(present: Seq<bool>, files: Tree, names: Seq<Seq<char>>) -> bool {
    &&& present.len() == names.len()
    &&& names.len() <= usize::MAX
    &&& forall|i: int| 0 <= i < names.len() ==> present[i] == files.contains_key(#[trigger] names[i])
}

/// The steps that take a snapshot of the installation, in order.
/// `installed[i]` says whether the file of the binary at position `i` exists.
pub fn snapshot_plan(installed: &Vec<bool>) -> (plan: Vec<FsStep>)
    ensures
        plan@ == snapshot_steps(installed@),
        forall|k: int| 0 <= k < plan@.len() ==> step_in_range(#[trigger] plan@[k], installed@.len()),
        forall|k: int| 0 <= k < plan@.len() ==> is_backup_step(#[trigger] plan@[k]),
{
    let mut plan: Vec<FsStep> = Vec::new();
    plan.push(FsStep::CreateSnapshot);
    plan.push(FsStep::BackupState);
    let ghost head = plan@;
    assert(head =~= seq![FsStep::CreateSnapshot, FsStep::BackupState]);
    let mut i: usize = 0;
    while i < installed.len()
        invariant
            i <= installed.len(),
            plan@ == head + binary_backups(installed@, i as nat),
            forall|k: int| 0 <= k < plan@.len() ==> step_in_range(#[trigger] plan@[k], installed@.len()),
            forall|k: int| 0 <= k < plan@.len() ==> is_backup_step(#[trigger] plan@[k]),
        decreases installed.len() - i,
    {
        let ghost before = binary_backups(installed@, i as nat);
        if installed[i] {
            plan.push(FsStep::BackupBinary(i));
            assert((head + before).push(FsStep::BackupBinary(i)) =~= head + before.push(
                FsStep::BackupBinary(i),
            ));
        }
        i += 1;
    }
    plan
}

/// The steps that restore a snapshot, in order.  `state_backed_up` says
/// whether the snapshot holds a copy of the state directory; `backed_up[i]`
/// says whether it holds the binary at position `i`.
pub fn rollback_plan(state_backed_up: bool, backed_up: &Vec<bool>) -> (plan: Vec<FsStep>)
    ensures
        plan@ == rollback_steps(state_backed_up, backed_up@),
        forall|k: int| 0 <= k < plan@.len() ==> step_in_range(#[trigger] plan@[k], backed_up@.len()),
{
    let mut plan: Vec<FsStep> = Vec::new();
    if state_backed_up {
        plan.push(FsStep::PreserveSnapshots);
        plan.push(FsStep::ClearState);
        plan.push(FsStep::RestoreState);
        plan.push(FsStep::ReinstateSnapshots);
    }
    let ghost head = plan@;
    assert(head =~= state_restores(state_backed_up));
    let mut i: usize = 0;
    while i < backed_up.len()
        invariant
            i <= backed_up.len(),
            plan@ == head + binary_restores(backed_up@, i as nat),
            forall|k: int| 0 <= k < plan@.len() ==> step_in_range(#[trigger] plan@[k], backed_up@.len()),
        decreases backed_up.len() - i,
    {
        let ghost before = binary_restores(backed_up@, i as nat);
        if backed_up[i] {
            plan.push(FsStep::RemoveBinary(i));
            plan.push(FsStep::RestoreBinary(i));
            assert((head + before).push(FsStep::RemoveBinary(i)).push(FsStep::RestoreBinary(i))
                =~= head + before.push(FsStep::RemoveBinary(i)).push(FsStep::RestoreBinary(i)));
        }
        i += 1;
    }
    plan
}

} // verus!
