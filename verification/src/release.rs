use crate::error::{ErrorKind, UpdateError};
use vstd::prelude::*;
use vstd::string::*;
use vstd::utf8::encode_utf8;

verus! {

/// A release that can be downloaded.
#[derive(Debug, PartialEq, Eq)]
pub struct ReleaseDescriptor {
    pub tag: String,
    pub artifact_url: String,
}

/// What came of a request to the release service.
#[derive(Debug, PartialEq, Eq)]
pub enum ServiceReply {
    /// No answer arrived.
    Unreachable,
    /// An answer with the given status; `release` is the body, if it could
    /// be read as a release.
    Answered { status: u16, release: Option<ReleaseDescriptor> },
}

/// One entry of the staging workspace after extraction.
#[derive(Debug)]
pub struct WorkspaceEntry {
    pub name: String,
    pub is_dir: bool,
}

/// The address that describes a release: the latest one where no version is
/// asked for, or the version is the word `latest`; else the one tagged with
/// the version.
pub open spec fn endpoint(base: Seq<char>, version: Option<Seq<char>>) -> Seq<char> {
    if version is None || version.unwrap() == "latest"@ {
        base + "/releases/latest"@
    } else {
        base + "/releases/tags/"@ + version.unwrap()
    }
}

/// Whether a status reports success.
pub open spec fn success_status(status: u16) -> bool {
    200 <= status <= 299
}

/// The release that a reply yields, if it yields one: the service answered,
/// with success, and the body could be read.
pub open spec fn resolved(reply: ServiceReply) -> Option<ReleaseDescriptor> {
    match reply {
        ServiceReply::Unreachable => None,
        ServiceReply::Answered { status, release } => if success_status(status) {
            release
        } else {
            None
        },
    }
}

/// Why a reply yields no release.
pub open spec fn resolution_failure(reply: ServiceReply) -> Seq<char> {
    match reply {
        ServiceReply::Unreachable => "Failed to fetch release from the release service"@,
        ServiceReply::Answered { status, release } => if success_status(status) {
            "Failed to parse release response"@
        } else {
            "Release service request failed with a non-success status"@
        },
    }
}

/// Whether `needle` stands in `hay` at position `at`.
pub open spec fn occurs_at(hay: Seq<u8>, needle: Seq<u8>, at: int) -> bool {
    &&& 0 <= at
    &&& at + needle.len() <= hay.len()
    &&& forall|k: int| 0 <= k < needle.len() ==> hay[at + k] == needle[k]
}

/// Whether `needle` stands somewhere in `hay`.
pub open spec fn occurs(hay: Seq<u8>, needle: Seq<u8>) -> bool {
    exists|at: int| occurs_at(hay, needle, at)
}

/// Whether an entry is a directory whose name holds the marker.
pub open spec fn is_candidate(entry: WorkspaceEntry, marker: Seq<char>) -> bool {
    entry.is_dir && occurs(encode_utf8(entry.name@), encode_utf8(marker))
}

/// How many of the first `n` entries are candidates.
pub open spec fn candidates(entries: Seq<WorkspaceEntry>, marker: Seq<char>, n: int) -> int
    decreases n,
{
    if n <= 0 {
        0
    } else {
        candidates(entries, marker, n - 1) + if is_candidate(entries[n - 1], marker) {
            1int
        } else {
            0int
        }
    }
}

/// Whether a status reports success: 200 to 299.
pub fn status_is_success(status: u16) -> (b: bool)
    ensures
        b == success_status(status),
{
    200 <= status && status <= 299
}

/// The address to ask for the release `version`, under the service's `base`.
pub fn release_endpoint(base: &str, version: Option<&str>) -> (url: String)
    ensures
        url@ == endpoint(
            base@,
            match version {
                Some(v) => Some(v@),
                None => None,
            },
        ),
{
    match version {
        None => String::from_str(base).concat("/releases/latest"),
        Some(v) => {
            let asked = String::from_str(v);
            let latest = String::from_str("latest");
            if asked == latest {
                String::from_str(base).concat("/releases/latest")
            } else {
                String::from_str(base).concat("/releases/tags/").concat(v)
            }
        },
    }
}

/// Turns the service's reply into a release.  Fails with a resolution error
/// if the service was unreachable, answered with a non-success status, or
/// sent what cannot be read as a release.
pub fn resolve_release(reply: ServiceReply) -> (result: Result<ReleaseDescriptor, UpdateError>)
    ensures
        match result {
            Ok(release) => resolved(reply) == Some(release),
            Err(e) => resolved(reply) is None && e.kind == ErrorKind::ResolutionError && e.message@
                == resolution_failure(reply),
        },
{
    match reply {
        ServiceReply::Unreachable => Err(
            UpdateError::plain(ErrorKind::ResolutionError, "Failed to fetch release from the release service"),
        ),
        ServiceReply::Answered { status, release } => {
            if status_is_success(status) {
                match release {
                    Some(r) => Ok(r),
                    None => Err(
                        UpdateError::plain(ErrorKind::ResolutionError, "Failed to parse release response"),
                    ),
                }
            } else {
                Err(
                    UpdateError::plain(ErrorKind::ResolutionError, "Release service request failed with a non-success status"),
                )
            }
        },
    }
}

/// Judges the reply to the artifact download: a download error unless the
/// service answered with success.  `status` is `None` where no answer came.
pub fn check_download(status: Option<u16>) -> (result: Result<(), UpdateError>)
    ensures
        result is Ok <==> status is Some && success_status(status.unwrap()),
        result is Err ==> result.unwrap_err().kind == ErrorKind::DownloadError,
        result is Err ==> result.unwrap_err().message@ == (if status is None {
            "Failed to download release artifact"@
        } else {
            "Artifact download failed with a non-success status"@
        }),
{
    match status {
        None => Err(
            UpdateError::plain(ErrorKind::DownloadError, "Failed to download release artifact"),
        ),
        Some(code) => if status_is_success(code) {
            Ok(())
        } else {
            Err(
                UpdateError::plain(ErrorKind::DownloadError, "Artifact download failed with a non-success status"),
            )
        },
    }
}

/// Whether `needle` stands somewhere in `hay`.
pub fn contains_bytes(hay: &[u8], needle: &[u8]) -> (found: bool)
    ensures
        found == occurs(hay@, needle@),
{
    if needle.len() > hay.len() {
        assert(forall|at: int| !occurs_at(hay@, needle@, at));
        return false;
    }
    let last: usize = hay.len() - needle.len();
    let mut at: usize = 0;
    while at <= last
        invariant
            last == hay@.len() - needle@.len(),
            needle@.len() <= hay@.len() <= usize::MAX,
            at <= last + 1,
            forall|a: int| 0 <= a < at ==> !occurs_at(hay@, needle@, a),
        decreases last + 1 - at,
    {
        let mut k: usize = 0;
        let mut same = true;
        while same && k < needle.len()
            invariant
                last == hay@.len() - needle@.len(),
                needle@.len() <= hay@.len() <= usize::MAX,
                at <= last,
                k <= needle@.len(),
                same ==> forall|j: int| 0 <= j < k ==> hay@[at + j] == needle@[j],
                !same ==> !occurs_at(hay@, needle@, at as int),
            decreases needle@.len() - k + if same { 1int } else { 0int },
        {
            if hay[at + k] == needle[k] {
                k += 1;
            } else {
                same = false;
            }
        }
        if same {
            assert(occurs_at(hay@, needle@, at as int));
            return true;
        }
        at += 1;
    }
    assert(forall|a: int| !occurs_at(hay@, needle@, a));
    false
}

/// Finds the directory that the extraction produced: the one entry of the
/// workspace that is a directory and whose name holds `marker`.  Fails with
/// an extraction error if there is no such entry, or more than one.
pub fn find_extracted_dir(entries: &Vec<WorkspaceEntry>, marker: &str) -> (result: Result<
    usize,
    UpdateError,
>)
    ensures
        result is Ok <==> candidates(entries@, marker@, entries@.len() as int) == 1,
        result is Ok ==> result.unwrap() < entries@.len() && is_candidate(
            entries@[result.unwrap() as int],
            marker@,
        ),
        result is Err ==> result.unwrap_err().kind == ErrorKind::ExtractionError,
        result is Err ==> result.unwrap_err().message@ == (if candidates(
            entries@,
            marker@,
            entries@.len() as int,
        ) == 0 {
            "Could not find the extracted directory"@
        } else {
            "More than one directory could be the extracted one"@
        }),
{
    let mut found: Option<usize> = None;
    let mut i: usize = 0;
    while i < entries.len()
        invariant
            i <= entries@.len(),
            found is None ==> candidates(entries@, marker@, i as int) == 0,
            found is Some ==> candidates(entries@, marker@, i as int) == 1 && found.unwrap() < i
                && is_candidate(entries@[found.unwrap() as int], marker@),
        decreases entries@.len() - i,
    {
        let entry = &entries[i];
        if entry.is_dir && contains_bytes(entry.name.as_str().as_bytes(), marker.as_bytes()) {
            if found.is_some() {
                proof {
                    lemma_candidates_grow(entries@, marker@, i + 1, entries@.len() as int);
                }
                return Err(
                    UpdateError::plain(ErrorKind::ExtractionError, "More than one directory could be the extracted one"),
                );
            }
            found = Some(i);
        }
        i += 1;
    }
    match found {
        Some(at) => Ok(at),
        None => Err(
            UpdateError::plain(ErrorKind::ExtractionError, "Could not find the extracted directory"),
        ),
    }
}

proof fn lemma_candidates_grow(entries: Seq<WorkspaceEntry>, marker: Seq<char>, m: int, n: int)
    requires
        m <= n,
    ensures
        candidates(entries, marker, m) <= candidates(entries, marker, n),
    decreases n - m,
{
    if m < n {
        lemma_candidates_grow(entries, marker, m, n - 1);
    }
}

} // verus!
