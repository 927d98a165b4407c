use crate::clock::utc_stamp;
use crate::error::{ErrorKind, UpdateError};
use vstd::prelude::*;
use vstd::string::*;

verus! {

/// The installation that an update replaces: where its state lives, where
/// its binaries live, and what the binaries are called.
#[derive(Debug)]
pub struct InstallationTarget {
    pub state_dir: String,
    pub bin_dir: String,
    pub binary_names: Vec<String>,
}

/// A point-in-time copy of an installation, by the places it occupies.
#[derive(Debug, PartialEq, Eq)]
pub struct Snapshot {
    /// The timestamp the snapshot was taken at.
    pub id: String,
    /// The directory that holds the copy of the state directory.
    pub state_backup: String,
    /// The directory that holds the copies of the binaries.
    pub bin_backup: String,
}

/// The places of one run's staging: everything the run downloads, unpacks
/// and builds before it touches the installation lies under `root`.
#[derive(Debug, PartialEq, Eq)]
pub struct StagingWorkspace {
    pub root: String,
    /// The directory that the extraction produced.
    pub extracted_source: String,
    /// The state directory that the staged installation writes to.
    pub staged_state_dir: String,
    /// The binary directory that the staged installation writes to.
    pub staged_bin_dir: String,
}

/// The directory of a workspace that holds the archive and what is
/// extracted from it.
pub open spec fn download_path(root: Seq<char>) -> Seq<char> {
    child_path(root, "download"@)
}

/// Whether no name occurs twice.
pub open spec fn distinct(names: Seq<Seq<char>>) -> bool {
    forall|i: int, j: int| 0 <= i < j < names.len() ==> names[i] != names[j]
}

/// The snapshots subtree of a state directory.
pub open spec fn snapshots_path(state_dir: Seq<char>) -> Seq<char> {
    state_dir + "/snapshots"@
}

/// The name of the snapshot taken at `stamp`.
pub open spec fn snapshot_name(stamp: Seq<char>) -> Seq<char> {
    "pre_update_"@ + stamp
}

/// The directory of the snapshot taken at `stamp`.
pub open spec fn snapshot_path(state_dir: Seq<char>, stamp: Seq<char>) -> Seq<char> {
    snapshots_path(state_dir) + "/"@ + snapshot_name(stamp)
}

/// Whether a snapshot called `name` is among those present.
pub open spec fn in_use(present: Seq<String>, name: Seq<char>) -> bool {
    exists|i: int| 0 <= i < present.len() && #[trigger] present[i]@ == name
}

/// What asking for a new snapshot at `stamp` gives, where `present` are
/// the names in the snapshots subtree: the snapshot, unless the clock could
/// not be read or the name is taken.
pub open spec fn granted(
    result: Result<Snapshot, UpdateError>,
    state_dir: Seq<char>,
    stamp: Option<Seq<char>>,
    present: Seq<String>,
) -> bool {
    match result {
        Ok(snapshot) => stamp == Some(snapshot.id@) && !in_use(present, snapshot_name(snapshot.id@))
            && located(snapshot, state_dir),
        Err(e) => e.kind == ErrorKind::SnapshotError && match stamp {
            None => e.message@ == "The clock cannot be read"@,
            Some(text) => in_use(present, snapshot_name(text)) && e.message@
                == "Snapshot name is already in use: "@ + snapshot_name(text),
        },
    }
}

/// A file or directory `name` directly under `dir`.
pub open spec fn child_path(dir: Seq<char>, name: Seq<char>) -> Seq<char> {
    dir + "/"@ + name
}

/// Whether a snapshot occupies the places that the layout gives to its
/// timestamp under `state_dir`.
pub open spec fn located(snapshot: Snapshot, state_dir: Seq<char>) -> bool {
    &&& snapshot.state_backup@ == child_path(snapshot_path(state_dir, snapshot.id@), "state_backup"@)
    &&& snapshot.bin_backup@ == child_path(snapshot_path(state_dir, snapshot.id@), "bin_backup"@)
}

/// `name` directly under `dir`.
pub fn join(dir: &str, name: &str) -> (path: String)
    ensures
        path@ == child_path(dir@, name@),
{
    String::from_str(dir).concat("/").concat(name)
}

impl InstallationTarget {
    /// The binary names, in order.
    pub open spec fn names(&self) -> Seq<Seq<char>> {
        Seq::new(self.binary_names@.len(), |i: int| self.binary_names@[i]@)
    }

    /// The binary names form a set: none occurs twice.
    pub open spec fn wf(&self) -> bool {
        distinct(self.names())
    }

    /// The target with the given directories and binary names, unless a
    /// name occurs twice.
    pub fn new(state_dir: String, bin_dir: String, binary_names: Vec<String>) -> (target: Option<
        InstallationTarget,
    >)
        ensures
            target is Some <==> distinct(Seq::new(binary_names@.len(), |i: int| binary_names@[i]@)),
            target is Some ==> target.unwrap().wf() && target.unwrap().state_dir == state_dir
                && target.unwrap().bin_dir == bin_dir && target.unwrap().binary_names
                == binary_names,
    {
        let ghost names = Seq::new(binary_names@.len(), |i: int| binary_names@[i]@);
        let mut i: usize = 0;
        while i < binary_names.len()
            invariant
                i <= binary_names.len(),
                names == Seq::new(binary_names@.len(), |i: int| binary_names@[i]@),
                forall|a: int, b: int| 0 <= a < b < names.len() && a < i ==> names[a] != names[b],
            decreases binary_names.len() - i,
        {
            let mut j: usize = i + 1;
            while j < binary_names.len()
                invariant
                    i < j <= binary_names.len(),
                    names == Seq::new(binary_names@.len(), |i: int| binary_names@[i]@),
                    forall|b: int| i < b < j ==> names[i as int] != names[b],
                decreases binary_names.len() - j,
            {
                if binary_names[i] == binary_names[j] {
                    assert(names[i as int] == names[j as int]);
                    return None;
                }
                j += 1;
            }
            i += 1;
        }
        Some(InstallationTarget { state_dir, bin_dir, binary_names })
    }

    /// How many binaries the installation has.
    pub fn binary_count(&self) -> (n: usize)
        ensures
            n == self.names().len(),
    {
        self.binary_names.len()
    }

    /// The snapshots subtree of the state directory.
    pub fn snapshots_dir(&self) -> (path: String)
        ensures
            path@ == snapshots_path(self.state_dir@),
    {
        self.state_dir.clone().concat("/snapshots")
    }

    /// The installed file of the binary at position `i`.
    pub fn binary_path(&self, i: usize) -> (path: String)
        requires
            i < self.names().len(),
        ensures
            path@ == child_path(self.bin_dir@, self.names()[i as int]),
    {
        join(self.bin_dir.as_str(), self.binary_names[i].as_str())
    }
}

impl StagingWorkspace {
    /// The directory under `root` that the archive is downloaded to and
    /// extracted in.  It holds nothing else, so that the extracted
    /// directory can be told from its name.
    pub fn download_dir(root: &str) -> (path: String)
        ensures
            path@ == download_path(root@),
    {
        join(root, "download")
    }

    /// The workspace under `root` whose extraction produced the directory
    /// called `extracted_name`.
    pub fn under(root: &str, extracted_name: &str) -> (workspace: StagingWorkspace)
        ensures
            workspace.root@ == root@,
            workspace.extracted_source@ == child_path(download_path(root@), extracted_name@),
            workspace.staged_state_dir@ == child_path(root@, "state"@),
            workspace.staged_bin_dir@ == child_path(root@, "bins"@),
    {
        StagingWorkspace {
            root: String::from_str(root),
            extracted_source: join(StagingWorkspace::download_dir(root).as_str(), extracted_name),
            staged_state_dir: join(root, "state"),
            staged_bin_dir: join(root, "bins"),
        }
    }
}

impl Snapshot {
    /// The snapshot of `target` taken at `stamp`, by the layout: a directory
    /// named after the timestamp in the snapshots subtree, with one
    /// directory for the state and one for the binaries.
    pub fn at(target: &InstallationTarget, stamp: &str) -> (snapshot: Snapshot)
        ensures
            snapshot.id@ == stamp@,
            located(snapshot, target.state_dir@),
    {
        let name = String::from_str("pre_update_").concat(stamp);
        let root = join(target.snapshots_dir().as_str(), name.as_str());
        Snapshot {
            id: String::from_str(stamp),
            state_backup: join(root.as_str(), "state_backup"),
            bin_backup: join(root.as_str(), "bin_backup"),
        }
    }

    /// The snapshot of `target` at `stamp`, if its name is new: a snapshot
    /// error where a snapshot of that name is among `present`, the names in
    /// the snapshots subtree.  A snapshot is never laid over an earlier one.
    pub fn fresh(target: &InstallationTarget, stamp: &str, present: &Vec<String>) -> (result: Result<
        Snapshot,
        UpdateError,
    >)
        ensures
            granted(result, target.state_dir@, Some(stamp@), present@),
    {
        let name = String::from_str("pre_update_").concat(stamp);
        let mut i: usize = 0;
        while i < present.len()
            invariant
                i <= present@.len(),
                name@ == snapshot_name(stamp@),
                forall|j: int| 0 <= j < i ==> present@[j]@ != name@,
            decreases present@.len() - i,
        {
            if present[i] == name {
                return Err(
                    UpdateError::with_detail(
                        ErrorKind::SnapshotError,
                        "Snapshot name is already in use: ",
                        name.as_str(),
                    ),
                );
            }
            i += 1;
        }
        Ok(Snapshot::at(target, stamp))
    }

    /// The new snapshot of `target` for what the clock gave: a snapshot
    /// error where it gave nothing, else as `fresh` says.
    pub fn from_clock(target: &InstallationTarget, stamp: Option<String>, present: &Vec<String>) -> (result:
        Result<Snapshot, UpdateError>)
        ensures
            granted(
                result,
                target.state_dir@,
                match stamp {
                    Some(text) => Some(text@),
                    None => None,
                },
                present@,
            ),
    {
        match stamp {
            None => Err(UpdateError::plain(ErrorKind::SnapshotError, "The clock cannot be read")),
            Some(text) => Snapshot::fresh(target, text.as_str(), present),
        }
    }

    /// The new snapshot of `target` taken now: the timestamp is read from
    /// the clock, the places follow from it.  A snapshot error where the
    /// clock cannot be read or a snapshot of that second is among `present`.
    pub fn now(target: &InstallationTarget, present: &Vec<String>) -> (result: Result<
        Snapshot,
        UpdateError,
    >)
        ensures
            match result {
                Ok(snapshot) => located(snapshot, target.state_dir@) && !in_use(
                    present@,
                    snapshot_name(snapshot.id@),
                ),
                Err(e) => e.kind == ErrorKind::SnapshotError,
            },
    {
        Snapshot::from_clock(target, utc_stamp(), present)
    }

    /// The name of the snapshot's directory, by which the snapshots subtree
    /// holds it.
    pub fn name(&self) -> (name: String)
        ensures
            name@ == snapshot_name(self.id@),
    {
        String::from_str("pre_update_").concat(self.id.as_str())
    }

    /// The snapshot's directory under the state directory `state_dir`.
    pub fn dir(&self, state_dir: &str) -> (path: String)
        ensures
            path@ == snapshot_path(state_dir@, self.id@),
    {
        let root = String::from_str(state_dir).concat("/snapshots");
        join(root.as_str(), self.name().as_str())
    }

    /// The copy of the binary called `name`.
    pub fn binary_backup_path(&self, name: &str) -> (path: String)
        ensures
            path@ == child_path(self.bin_backup@, name@),
    {
        join(self.bin_backup.as_str(), name)
    }
}

} // verus!
