use crate::plan::{
    apply, binary_backups, binary_restores, first_names, probed, restored, rollback_steps, run,
    snapshot_of, snapshot_steps, state_restores, Backup, FsStep, World,
};
use vstd::prelude::*;

verus! {

proof fn lemma_run_push(w: World, steps: Seq<FsStep>, step: FsStep, id: Seq<char>, names: Seq<Seq<char>>)
    ensures
        run(w, steps.push(step), id, names) == apply(run(w, steps, id, names), step, id, names),
{
    assert(steps.push(step).drop_last() =~= steps);
}

proof fn lemma_run_concat(w: World, a: Seq<FsStep>, b: Seq<FsStep>, id: Seq<char>, names: Seq<Seq<char>>)
    ensures
        run(w, a + b, id, names) == run(run(w, a, id, names), b, id, names),
    decreases b.len(),
{
    if b.len() == 0 {
        assert(a + b =~= a);
    } else {
        lemma_run_concat(w, a, b.drop_last(), id, names);
        assert((a + b).drop_last() =~= a + b.drop_last());
    }
}

proof fn lemma_first_names_step(names: Seq<Seq<char>>, n: int)
    requires
        0 < n <= names.len(),
    ensures
        first_names(names, n) =~= first_names(names, n - 1).insert(names[n - 1]),
{
    assert forall|k: Seq<char>| first_names(names, n).contains(k) implies first_names(
        names,
        n - 1,
    ).insert(names[n - 1]).contains(k) by {
        let i = choose|i: int| 0 <= i < n && i < names.len() && #[trigger] names[i] == k;
        if i < n - 1 {
            assert(first_names(names, n - 1).contains(k));
        }
    }
    assert forall|k: Seq<char>|
        first_names(names, n - 1).insert(names[n - 1]).contains(k) implies first_names(
        names,
        n,
    ).contains(k) by {
        if k == names[n - 1] {
            assert(names[n - 1] == k);
        } else {
            let i = choose|i: int| 0 <= i < n - 1 && i < names.len() && #[trigger] names[i] == k;
            assert(names[i] == k);
        }
    }
}

proof fn lemma_backups_run(
    w: World,
    id: Seq<char>,
    names: Seq<Seq<char>>,
    installed: Seq<bool>,
    n: nat,
)
    requires
        probed(installed, w.bins, names),
        n <= names.len(),
        w.snapshots.contains_key(id),
        w.snapshots[id].bins =~= Map::empty(),
        !w.failed,
    ensures
        run(w, binary_backups(installed, n), id, names) == (World {
            snapshots: w.snapshots.insert(
                id,
                Backup {
                    state: w.snapshots[id].state,
                    bins: w.bins.restrict(first_names(names, n as int)),
                },
            ),
            ..w
        }),
    decreases n,
{
    let goal = World {
        snapshots: w.snapshots.insert(
            id,
            Backup { state: w.snapshots[id].state, bins: w.bins.restrict(first_names(names, n as int)) },
        ),
        ..w
    };
    if n == 0 {
        assert(w.bins.restrict(first_names(names, 0)) =~= Map::empty());
        assert(goal =~= w);
    } else {
        let m = (n - 1) as nat;
        lemma_backups_run(w, id, names, installed, m);
        lemma_first_names_step(names, n as int);
        let before = binary_backups(installed, m);
        let mid = run(w, before, id, names);
        let name = names[n - 1];
        if installed[n - 1] {
            lemma_run_push(w, before, FsStep::BackupBinary(m as usize), id, names);
            assert(w.bins.contains_key(name));
            assert(w.bins.restrict(first_names(names, m as int)).insert(name, w.bins[name])
                =~= w.bins.restrict(first_names(names, n as int)));
            assert(apply(mid, FsStep::BackupBinary(m as usize), id, names) =~= goal);
        } else {
            assert(!w.bins.contains_key(name));
            assert(w.bins.restrict(first_names(names, m as int)) =~= w.bins.restrict(
                first_names(names, n as int),
            ));
            assert(mid =~= goal);
        }
    }
}

proof fn lemma_restores_run(
    w: World,
    id: Seq<char>,
    names: Seq<Seq<char>>,
    backed_up: Seq<bool>,
    n: nat,
)
    requires
        !w.failed,
        w.snapshots.contains_key(id),
        probed(backed_up, w.snapshots[id].bins, names),
        n <= names.len(),
    ensures
        run(w, binary_restores(backed_up, n), id, names) == (World {
            bins: w.bins.union_prefer_right(
                w.snapshots[id].bins.restrict(first_names(names, n as int)),
            ),
            ..w
        }),
    decreases n,
{
    let saved = w.snapshots[id].bins;
    let goal = World {
        bins: w.bins.union_prefer_right(saved.restrict(first_names(names, n as int))),
        ..w
    };
    if n == 0 {
        assert(w.bins.union_prefer_right(saved.restrict(first_names(names, 0))) =~= w.bins);
        assert(goal =~= w);
    } else {
        let m = (n - 1) as nat;
        lemma_restores_run(w, id, names, backed_up, m);
        lemma_first_names_step(names, n as int);
        let before = binary_restores(backed_up, m);
        let mid = run(w, before, id, names);
        let name = names[n - 1];
        if backed_up[n - 1] {
            let remove = FsStep::RemoveBinary(m as usize);
            let restore = FsStep::RestoreBinary(m as usize);
            lemma_run_push(w, before, remove, id, names);
            lemma_run_push(w, before.push(remove), restore, id, names);
            assert(saved.contains_key(name));
            let removed = apply(mid, remove, id, names);
            assert(removed.snapshots == w.snapshots);
            assert(mid.bins.remove(name).insert(name, saved[name]) =~= w.bins.union_prefer_right(
                saved.restrict(first_names(names, n as int)),
            ));
            assert(apply(removed, restore, id, names) =~= goal);
        } else {
            assert(!saved.contains_key(name));
            assert(saved.restrict(first_names(names, m as int)) =~= saved.restrict(
                first_names(names, n as int),
            ));
            assert(mid =~= goal);
        }
    }
}

proof fn lemma_state_restores_run(w: World, id: Seq<char>, names: Seq<Seq<char>>)
    requires
        !w.failed,
        w.snapshots.contains_key(id),
    ensures
        run(w, state_restores(w.snapshots[id].state is Some), id, names) == (World {
            state: if w.snapshots[id].state is Some {
                w.snapshots[id].state.unwrap()
            } else {
                w.state
            },
            aside: if w.snapshots[id].state is Some {
                w.snapshots
            } else {
                w.aside
            },
            ..w
        }),
{
    if w.snapshots[id].state is Some {
        let s0 = Seq::<FsStep>::empty();
        let s1 = s0.push(FsStep::PreserveSnapshots);
        let s2 = s1.push(FsStep::ClearState);
        let s3 = s2.push(FsStep::RestoreState);
        let s4 = s3.push(FsStep::ReinstateSnapshots);
        assert(s4 =~= state_restores(true));
        lemma_run_push(w, s0, FsStep::PreserveSnapshots, id, names);
        lemma_run_push(w, s1, FsStep::ClearState, id, names);
        lemma_run_push(w, s2, FsStep::RestoreState, id, names);
        lemma_run_push(w, s3, FsStep::ReinstateSnapshots, id, names);
        let w2 = run(w, s2, id, names);
        let w3 = run(w, s3, id, names);
        let w4 = run(w, s4, id, names);
        assert(w2.aside == w.snapshots);
        assert(w2.snapshots == w.snapshots);
        assert(w2.state =~= Map::empty());
        assert(w3.state =~= w.snapshots[id].state.unwrap());
        assert(w4.snapshots =~= w.snapshots);
        assert(w4 =~= (World {
            state: w.snapshots[id].state.unwrap(),
            aside: w.snapshots,
            ..w
        }));
    }
}

/// Once a step was refused, no later step changes anything.
pub proof fn lemma_nothing_after_failure(
    w: World,
    steps: Seq<FsStep>,
    id: Seq<char>,
    names: Seq<Seq<char>>,
)
    requires
        w.failed,
    ensures
        run(w, steps, id, names) == w,
    decreases steps.len(),
{
    if steps.len() > 0 {
        lemma_nothing_after_failure(w, steps.drop_last(), id, names);
    }
}

/// Snapshots are append-only: taking a snapshot under a name that is in
/// use fails at its first step and changes nothing, neither the snapshot of
/// that name nor anything else.
pub proof fn lemma_snapshot_under_used_name_fails(
    w: World,
    id: Seq<char>,
    names: Seq<Seq<char>>,
    installed: Seq<bool>,
)
    requires
        !w.failed,
        w.snapshots.contains_key(id),
    ensures
        run(w, snapshot_steps(installed), id, names) == (World { failed: true, ..w }),
{
    let s0 = Seq::<FsStep>::empty();
    let s1 = s0.push(FsStep::CreateSnapshot);
    let rest = seq![FsStep::BackupState] + binary_backups(installed, installed.len());
    assert(snapshot_steps(installed) =~= s1 + rest);
    lemma_run_push(w, s0, FsStep::CreateSnapshot, id, names);
    lemma_run_concat(w, s1, rest, id, names);
    lemma_nothing_after_failure(run(w, s1, id, names), rest, id, names);
}

/// A snapshot is faithful and touches nothing else: taking one under a name
/// not yet in use adds to the snapshots subtree a copy of the state
/// directory and of every named binary that is installed, and leaves the
/// state directory and the binaries as they were.
pub proof fn lemma_snapshot_is_faithful(
    w: World,
    id: Seq<char>,
    names: Seq<Seq<char>>,
    installed: Seq<bool>,
)
    requires
        !w.failed,
        !w.snapshots.contains_key(id),
        probed(installed, w.bins, names),
    ensures
        run(w, snapshot_steps(installed), id, names) == (World {
            snapshots: w.snapshots.insert(id, snapshot_of(w, names)),
            ..w
        }),
{
    let s0 = Seq::<FsStep>::empty();
    let s1 = s0.push(FsStep::CreateSnapshot);
    let s2 = s1.push(FsStep::BackupState);
    assert(s2 =~= seq![FsStep::CreateSnapshot, FsStep::BackupState]);
    lemma_run_push(w, s0, FsStep::CreateSnapshot, id, names);
    lemma_run_push(w, s1, FsStep::BackupState, id, names);
    let w2 = run(w, s2, id, names);
    assert(w2.snapshots =~= w.snapshots.insert(
        id,
        Backup { state: Some(w.state), bins: Map::empty() },
    ));
    lemma_run_concat(w, s2, binary_backups(installed, installed.len()), id, names);
    lemma_backups_run(w2, id, names, installed, names.len());
    let end = run(w, snapshot_steps(installed), id, names);
    assert(end.snapshots =~= w.snapshots.insert(id, snapshot_of(w, names)));
}

/// Restoring a snapshot gives the restored installation: the state
/// directory is the snapshot's copy, each named binary that the snapshot
/// holds is the snapshot's copy, and all else is as it was.
pub proof fn lemma_rollback_restores_snapshot(
    w: World,
    id: Seq<char>,
    names: Seq<Seq<char>>,
    backed_up: Seq<bool>,
)
    requires
        !w.failed,
        w.snapshots.contains_key(id),
        probed(backed_up, w.snapshots[id].bins, names),
    ensures
        run(w, rollback_steps(w.snapshots[id].state is Some, backed_up), id, names) == restored(
            w,
            w.snapshots[id],
            names,
        ),
{
    let head = state_restores(w.snapshots[id].state is Some);
    lemma_state_restores_run(w, id, names);
    let w1 = run(w, head, id, names);
    lemma_run_concat(w, head, binary_restores(backed_up, backed_up.len()), id, names);
    lemma_restores_run(w1, id, names, backed_up, names.len());
    assert(run(w1, binary_restores(backed_up, backed_up.len()), id, names) =~= restored(
        w,
        w.snapshots[id],
        names,
    ));
}

/// A rollback undoes whatever the installation wrote: after a snapshot of
/// `before` that succeeded, and any change to the state directory and the binaries that
/// leaves the snapshots subtree alone, restoring the snapshot gives back
/// the state directory of `before` and, for every named binary that existed
/// in `before`, its file as it was.  A named binary that did not exist in
/// `before` is not restored: it is left as the installation left it, so
/// none is created.
pub proof fn lemma_rollback_undoes_install(
    before: World,
    after_install: World,
    id: Seq<char>,
    names: Seq<Seq<char>>,
    installed: Seq<bool>,
)
    requires
        !before.failed,
        probed(installed, before.bins, names),
        !run(before, snapshot_steps(installed), id, names).failed,
        !after_install.failed,
        after_install.snapshots == run(before, snapshot_steps(installed), id, names).snapshots,
    ensures
        ({
            let end = run(after_install, rollback_steps(true, installed), id, names);
            &&& end.state == before.state
            &&& end.snapshots == after_install.snapshots
            &&& forall|i: int|
                0 <= i < names.len() && before.bins.contains_key(#[trigger] names[i])
                    ==> end.bins.contains_key(names[i]) && end.bins[names[i]] == before.bins[names[i]]
            &&& forall|i: int|
                0 <= i < names.len() && !before.bins.contains_key(#[trigger] names[i]) ==> (
                end.bins.contains_key(names[i]) == after_install.bins.contains_key(names[i])) && (
                end.bins.contains_key(names[i]) ==> end.bins[names[i]]
                    == after_install.bins[names[i]])
        }),
{
    if before.snapshots.contains_key(id) {
        lemma_snapshot_under_used_name_fails(before, id, names, installed);
    }
    lemma_snapshot_is_faithful(before, id, names, installed);
    let saved = snapshot_of(before, names);
    assert(after_install.snapshots[id] == saved);
    assert forall|i: int| 0 <= i < names.len() implies installed[i] == saved.bins.contains_key(
        #[trigger] names[i],
    ) by {
        assert(first_names(names, names.len() as int).contains(names[i]));
    }
    lemma_rollback_restores_snapshot(after_install, id, names, installed);
    let end = run(after_install, rollback_steps(true, installed), id, names);
    assert forall|i: int|
        0 <= i < names.len() && before.bins.contains_key(#[trigger] names[i]) implies end.bins.contains_key(
        names[i],
    ) && end.bins[names[i]] == before.bins[names[i]] by {
        assert(first_names(names, names.len() as int).contains(names[i]));
    }
}

/// A rollback keeps the snapshots subtree, and with it the snapshot that it
/// restores.
pub proof fn lemma_rollback_keeps_snapshots(
    w: World,
    id: Seq<char>,
    names: Seq<Seq<char>>,
    backed_up: Seq<bool>,
)
    requires
        !w.failed,
        w.snapshots.contains_key(id),
        probed(backed_up, w.snapshots[id].bins, names),
    ensures
        ({
            let end = run(w, rollback_steps(w.snapshots[id].state is Some, backed_up), id, names);
            &&& end.snapshots == w.snapshots
            &&& end.snapshots.contains_key(id)
            &&& end.snapshots[id] == w.snapshots[id]
        }),
{
    lemma_rollback_restores_snapshot(w, id, names, backed_up);
}

/// A rollback leaves alone every binary that the snapshot does not hold: a
/// file that was not there at snapshot time is neither created nor restored,
/// and one that was installed since stays as it is.
pub proof fn lemma_rollback_skips_unsaved_binaries(
    w: World,
    id: Seq<char>,
    names: Seq<Seq<char>>,
    backed_up: Seq<bool>,
    name: Seq<char>,
)
    requires
        !w.failed,
        w.snapshots.contains_key(id),
        probed(backed_up, w.snapshots[id].bins, names),
        !w.snapshots[id].bins.contains_key(name),
    ensures
        ({
            let end = run(w, rollback_steps(w.snapshots[id].state is Some, backed_up), id, names);
            &&& end.bins.contains_key(name) == w.bins.contains_key(name)
            &&& w.bins.contains_key(name) ==> end.bins[name] == w.bins[name]
        }),
{
    lemma_rollback_restores_snapshot(w, id, names, backed_up);
}

/// A rollback is idempotent: restoring the same snapshot a second time
/// changes nothing.
pub proof fn lemma_rollback_is_idempotent(
    w: World,
    id: Seq<char>,
    names: Seq<Seq<char>>,
    backed_up: Seq<bool>,
)
    requires
        !w.failed,
        w.snapshots.contains_key(id),
        probed(backed_up, w.snapshots[id].bins, names),
    ensures
        ({
            let steps = rollback_steps(w.snapshots[id].state is Some, backed_up);
            run(run(w, steps, id, names), steps, id, names) == run(w, steps, id, names)
        }),
{
    let steps = rollback_steps(w.snapshots[id].state is Some, backed_up);
    lemma_rollback_restores_snapshot(w, id, names, backed_up);
    let once = run(w, steps, id, names);
    lemma_rollback_restores_snapshot(once, id, names, backed_up);
    let twice = run(once, steps, id, names);
    assert(twice.bins =~= once.bins);
    assert(twice =~= once);
}

proof fn lemma_binary_restores_kinds(backed_up: Seq<bool>, n: nat, j: int)
    requires
        0 <= j < binary_restores(backed_up, n).len(),
    ensures
        binary_restores(backed_up, n)[j] is RemoveBinary || binary_restores(
            backed_up,
            n,
        )[j] is RestoreBinary,
    decreases n,
{
    if n > 0 {
        let before = binary_restores(backed_up, (n - 1) as nat);
        if j < before.len() {
            lemma_binary_restores_kinds(backed_up, (n - 1) as nat, j);
        }
    }
}

proof fn lemma_rollback_prefix(
    w: World,
    id: Seq<char>,
    names: Seq<Seq<char>>,
    state_backed_up: bool,
    backed_up: Seq<bool>,
    k: int,
)
    requires
        0 <= k <= rollback_steps(state_backed_up, backed_up).len(),
    ensures
        run(w, rollback_steps(state_backed_up, backed_up).take(k), id, names).snapshots
            == w.snapshots,
        state_backed_up && k >= 1 && !w.failed ==> run(
            w,
            rollback_steps(state_backed_up, backed_up).take(k),
            id,
            names,
        ).aside == w.snapshots,
    decreases k,
{
    let steps = rollback_steps(state_backed_up, backed_up);
    if k > 0 {
        lemma_rollback_prefix(w, id, names, state_backed_up, backed_up, k - 1);
        assert(steps.take(k).drop_last() =~= steps.take(k - 1));
        let head = state_restores(state_backed_up);
        let step = steps[k - 1];
        if k - 1 >= head.len() {
            lemma_binary_restores_kinds(backed_up, backed_up.len(), k - 1 - head.len());
        }
        let mid = run(w, steps.take(k - 1), id, names);
        let end = apply(mid, step, id, names);
        assert(run(w, steps.take(k), id, names) == end);
        if w.failed {
            lemma_nothing_after_failure(w, steps.take(k - 1), id, names);
        }
        assert(end.snapshots =~= w.snapshots);
    }
}

/// A rollback never loses a snapshot, however far it gets: after any
/// number of its steps, the last of them refused or not, the snapshots
/// subtree of the state directory is what it was, so the snapshot that is
/// being restored is still in its place.
pub proof fn lemma_rollback_never_loses_snapshots(
    w: World,
    id: Seq<char>,
    names: Seq<Seq<char>>,
    state_backed_up: bool,
    backed_up: Seq<bool>,
    done: int,
)
    requires
        0 <= done <= rollback_steps(state_backed_up, backed_up).len(),
    ensures
        run(w, rollback_steps(state_backed_up, backed_up).take(done), id, names).snapshots
            == w.snapshots,
{
    lemma_rollback_prefix(w, id, names, state_backed_up, backed_up, done);
}

} // verus!
