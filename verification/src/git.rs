//! What is said about a repository: changes, failures, and names of references.

use vstd::prelude::*;
use vstd::string::StringExecFns;
use vstd::string::StringSliceAdditionalSpecFns;
use vstd::utf8::is_char_boundary;
use crate::tools::{bytes_equal, next_index_of};
use vstd::slice::slice_subrange;

verus! {

/// What can go wrong when a repository is read.
#[derive(Debug)]
pub enum GitError {
    /// There is no repository.
    RepoNotFound,
    /// The repository lacks its history.
    ShallowClone {
        /// How to get the history.
        hint: String,
    },
    /// A revision does not exist.
    RefNotFound(String),
    /// A file does not exist at a revision.
    BlobNotFound {
        /// The revision.
        rev: String,
        /// The file.
        path: String,
    },
    /// Any other failure.
    Internal(String),
}

/// What a `GitError` says.
pub open spec fn error_text(e: GitError) -> Seq<char> {
    match e {
        GitError::RepoNotFound => "Not a git repository."@,
        GitError::ShallowClone { hint } => "Shallow clone detected. "@ + hint@,
        GitError::RefNotFound(r) => "Could not resolve ref '"@ + r@ + "'."@,
        GitError::BlobNotFound { rev, path } => "Could not find '"@ + path@ + "' at rev '"@ + rev@
            + "'."@,
        GitError::Internal(msg) => "Git error: "@ + msg@,
    }
}

impl GitError {
    /// The message of the error.
    pub fn message(&self) -> (r: String)
        ensures
            r@ == error_text(*self),
    {
        match self {
            GitError::RepoNotFound => "Not a git repository.".to_owned(),
            GitError::ShallowClone { hint } => "Shallow clone detected. ".to_owned().concat(
                hint.as_str(),
            ),
            GitError::RefNotFound(r) => "Could not resolve ref '".to_owned().concat(
                r.as_str(),
            ).concat("'."),
            GitError::BlobNotFound { rev, path } => "Could not find '".to_owned().concat(
                path.as_str(),
            ).concat("' at rev '").concat(rev.as_str()).concat("'."),
            GitError::Internal(msg) => "Git error: ".to_owned().concat(msg.as_str()),
        }
    }
}

/// How a file changed between two revisions.
#[derive(Debug, Clone, Copy, PartialEq, Eq, Structural)]
pub enum ChangeStatus {
    /// The file is new.
    Added,
    /// The file has other content.
    Modified,
    /// The file is gone.
    Deleted,
}

/// A file that changed between two revisions.
#[derive(Debug, Clone)]
pub struct ChangedFile {
    /// The file.
    pub path: String,
    /// How it changed.
    pub status: ChangeStatus,
}

/// The changes a push names: each file once, as modified.
pub open spec fn as_modified(files: Seq<String>) -> Seq<(Seq<char>, ChangeStatus)> {
    files.map_values(|p: String| (p@, ChangeStatus::Modified))
}

/// The path and status of each change.
pub open spec fn changes_view(changes: Seq<ChangedFile>) -> Seq<(Seq<char>, ChangeStatus)> {
    changes.map_values(|c: ChangedFile| (c.path@, c.status))
}

/// Lists the files a push names as changed. What became of each is not
/// known, so each counts as modified.
pub fn pushed_files(files: &Vec<String>) -> (changes: Vec<ChangedFile>)
    ensures
        changes_view(changes@) == as_modified(files@),
{
    let mut changes: Vec<ChangedFile> = Vec::new();
    let n = files.len();
    let mut i: usize = 0;
    while i < n
        invariant
            n == files@.len(),
            i <= n,
            changes_view(changes@) =~= as_modified(files@.take(i as int)),
        decreases n - i,
    {
        let ghost before = changes@;
        changes.push(ChangedFile { path: files[i].clone(), status: ChangeStatus::Modified });
        assert(files@.take(i + 1) =~= files@.take(i as int).push(files@[i as int]));
        assert(changes_view(changes@) =~= changes_view(before).push(
            (files@[i as int]@, ChangeStatus::Modified),
        ));
        i += 1;
    }
    assert(files@.take(n as int) =~= files@);
    changes
}

/// Whether `s` begins with `prefix`.
pub open spec fn has_prefix(s: Seq<u8>, prefix: Seq<u8>) -> bool {
    prefix.len() <= s.len() && s.subrange(0, prefix.len() as int) == prefix
}

/// Tells whether `s` begins with `prefix`.
pub fn starts_with(s: &[u8], prefix: &[u8]) -> (r: bool)
    ensures
        r == has_prefix(s@, prefix@),
{
    if prefix.len() > s.len() {
        return false;
    }
    bytes_equal(slice_subrange(s, 0, prefix.len()), prefix)
}

/// Where the short name of a reference starts: after `refs/heads/`, after
/// `refs/remotes/origin/`, or after the name of any other remote; `None`
/// where the reference has none of these forms.
pub open spec fn short_name_start(full: Seq<u8>) -> Option<int> {
    if has_prefix(full, "refs/heads/".spec_bytes()) {
        Some("refs/heads/".spec_bytes().len() as int)
    } else if has_prefix(full, "refs/remotes/origin/".spec_bytes()) {
        Some("refs/remotes/origin/".spec_bytes().len() as int)
    } else if has_prefix(full, "refs/remotes/".spec_bytes()) {
        let from = "refs/remotes/".spec_bytes().len() as int;
        let slash = next_index_of(full, from, 47);
        if slash < full.len() {
            Some(slash + 1)
        } else {
            None
        }
    } else {
        None
    }
}

/// The short name of a reference: what follows the start of its short
/// name, where that is a boundary between characters; else the reference.
pub open spec fn short_name(full: Seq<u8>) -> Seq<u8> {
    match short_name_start(full) {
        Some(s) => if is_char_boundary(full, s) {
            full.subrange(s, full.len() as int)
        } else {
            full
        },
        None => full,
    }
}

/// Finds where the short name of a reference starts.
fn find_short_name_start(full: &[u8]) -> (r: Option<usize>)
    ensures
        r is Some <==> short_name_start(full@) is Some,
        r is Some ==> r->0 == short_name_start(full@)->0 && r->0 <= full@.len(),
{
    let heads = "refs/heads/".as_bytes();
    let origin = "refs/remotes/origin/".as_bytes();
    let remotes = "refs/remotes/".as_bytes();
    if starts_with(full, heads) {
        Some(heads.len())
    } else if starts_with(full, origin) {
        Some(origin.len())
    } else if starts_with(full, remotes) {
        let n = full.len();
        let mut j = remotes.len();
        while j < n && full[j] != 47
            invariant
                n == full@.len(),
                remotes@.len() <= j <= n,
                next_index_of(full@, j as int, 47) == next_index_of(
                    full@,
                    remotes@.len() as int,
                    47,
                ),
            decreases n - j,
        {
            j += 1;
        }
        if j < n {
            Some(j + 1)
        } else {
            None
        }
    } else {
        None
    }
}

/// Strip standard ref prefixes to produce a short branch name.
pub fn shorten_ref_name(full: &str) -> (r: &str)
    ensures
        r.spec_bytes() == short_name(full.spec_bytes()),
{
    match find_short_name_start(full.as_bytes()) {
        Some(s) => {
            if full.is_char_boundary(s) {
                let (_, short) = full.split_at(s);
                short
            } else {
                full
            }
        },
        None => full,
    }
}

} // verus!
