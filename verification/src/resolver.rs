//! Reading a document as it was at one revision.
//!
//! The revision is looked up in the repository, the head is detached to it
//! and the working directory is forced to match it, whatever was left there
//! before. The caller then lists the working directory, and the one regular
//! file in it is the document.

use vstd::prelude::*;
use crate::api::{DocumentId, File};
use crate::git::{
    checkout_head, checkout_options, detach_head, find_commit, is_revision_text, parse_oid,
    set_force, working_directory,
};
use crate::registry::Registry;

verus! {

/// Why a revision could not be read.
#[derive(Clone, Copy, Debug, PartialEq, Eq, Structural)]
pub enum ResolveError {
    /// The document is not registered, or its repository holds no such
    /// revision.
    NotFound,
    /// The revision is no hexadecimal hash.
    BadRevision,
    /// The working directory does not hold exactly what one revision of one
    /// document amounts to.
    InternalInconsistency,
    /// The working file cannot be read as text.
    ReadError,
}

/// What the repository answered, step by step, while it was moved to a
/// revision. The steps are taken in the order of the fields, and none is
/// taken after one that failed: the steps after it count as failed too.
#[derive(Clone, Debug, PartialEq, Eq)]
pub struct CheckoutSteps {
    /// Whether the revision is a hexadecimal hash.
    pub parsed: bool,
    /// Whether the repository holds a commit of that hash.
    pub found: bool,
    /// Whether the head was detached to that commit.
    pub detached: bool,
    /// Whether the working directory was made to match the head.
    pub synced: bool,
    /// The working directory, where the repository has one that can be
    /// named.
    pub directory: Option<String>,
}

/// One entry of a working directory, as the caller found it: its name where
/// that is text, whether it is a regular file, and for a regular file its
/// content where that could be read as text.
#[derive(Clone, Debug, PartialEq, Eq)]
pub struct WorkEntry {
    pub name: Option<String>,
    pub is_file: bool,
    pub content: Option<String>,
}

/// What the move to a revision comes to. `None` stands for a document that
/// is not registered. A revision that is no hash is a bad revision, one that
/// the repository does not hold is not found, and every step that fails
/// after the commit was found leaves the repository inconsistent.
pub open spec fn checkout_result(progress: Option<CheckoutSteps>) -> Result<String, ResolveError> {
    match progress {
        None => Err(ResolveError::NotFound),
        Some(steps) => if !steps.parsed {
            Err(ResolveError::BadRevision)
        } else if !steps.found {
            Err(ResolveError::NotFound)
        } else if !steps.detached || !steps.synced {
            Err(ResolveError::InternalInconsistency)
        } else {
            match steps.directory {
                Some(directory) => Ok(directory),
                None => Err(ResolveError::InternalInconsistency),
            }
        },
    }
}

/// The results that moving to a revision may have. An unregistered document
/// and a malformed revision are always reported as such, in that order; what
/// happens to a well-formed revision of a registered document is up to the
/// repository.
pub open spec fn checkout_allows(
    known: bool,
    revision: Seq<char>,
    result: Result<String, ResolveError>,
) -> bool {
    if !known {
        result == Err::<String, ResolveError>(ResolveError::NotFound)
    } else if !is_revision_text(revision) {
        result == Err::<String, ResolveError>(ResolveError::BadRevision)
    } else {
        result is Ok || result == Err::<String, ResolveError>(ResolveError::NotFound) || result
            == Err::<String, ResolveError>(ResolveError::InternalInconsistency)
    }
}

/// The position of the first regular file at or after `from`.
pub open spec fn first_file_from(entries: Seq<WorkEntry>, from: int) -> Option<int>
    decreases entries.len() - from,
{
    if from < 0 || from >= entries.len() {
        None
    } else if entries[from].is_file {
        Some(from)
    } else {
        first_file_from(entries, from + 1)
    }
}

/// The number of regular files among the first `upto` entries.
pub open spec fn files_among(entries: Seq<WorkEntry>, upto: int) -> int
    decreases upto,
{
    if upto <= 0 {
        0
    } else {
        files_among(entries, upto - 1) + if entries[upto - 1].is_file {
            1int
        } else {
            0int
        }
    }
}

/// The document that a working directory holds: its first regular file. A
/// directory without a regular file, or whose first one has a name that is
/// not text, is inconsistent; a first file whose content is not readable
/// text is a read error.
pub open spec fn working_file_of(id: DocumentId, entries: Seq<WorkEntry>) -> Result<
    File,
    ResolveError,
> {
    match first_file_from(entries, 0) {
        None => Err(ResolveError::InternalInconsistency),
        Some(at) => match (entries[at].name, entries[at].content) {
            (None, _) => Err(ResolveError::InternalInconsistency),
            (Some(_), None) => Err(ResolveError::ReadError),
            (Some(name), Some(content)) => Ok(File { name, id, content }),
        },
    }
}

/// Makes the working directory of `repo` match the commit at its head,
/// overwriting whatever is there. Tells whether that succeeded.
pub(crate) fn force_checkout(repo: &git2::Repository) -> (done: bool) {
    let mut options = checkout_options();
    set_force(&mut options);
    match checkout_head(repo, &mut options) {
        Ok(_) => true,
        Err(_) => false,
    }
}

/// Looks `revision` up in `repo`, detaches the head to it and forces the
/// working directory to match, and records how each step went.
fn move_to_revision(repo: &git2::Repository, revision: &str) -> (steps: CheckoutSteps)
    ensures
        steps.parsed <==> is_revision_text(revision@),
        !steps.parsed ==> !steps.found,
        !steps.found ==> !steps.detached,
        !steps.detached ==> !steps.synced,
        !steps.synced ==> steps.directory is None,
{
    let mut steps = CheckoutSteps {
        parsed: false,
        found: false,
        detached: false,
        synced: false,
        directory: None,
    };
    let oid = match parse_oid(revision) {
        Ok(oid) => oid,
        Err(_) => {
            return steps;
        },
    };
    steps.parsed = true;
    match find_commit(repo, oid) {
        Ok(_) => {},
        Err(_) => {
            return steps;
        },
    }
    steps.found = true;
    match detach_head(repo, oid) {
        Ok(_) => {},
        Err(_) => {
            return steps;
        },
    }
    steps.detached = true;
    if !force_checkout(repo) {
        return steps;
    }
    steps.synced = true;
    steps.directory = working_directory(repo);
    steps
}

/// Says what a move to a revision comes to.
pub fn checkout_outcome(progress: Option<CheckoutSteps>) -> (result: Result<String, ResolveError>)
    ensures
        result == checkout_result(progress),
{
    match progress {
        None => Err(ResolveError::NotFound),
        Some(steps) => {
            if !steps.parsed {
                Err(ResolveError::BadRevision)
            } else if !steps.found {
                Err(ResolveError::NotFound)
            } else if !steps.detached || !steps.synced {
                Err(ResolveError::InternalInconsistency)
            } else {
                match steps.directory {
                    Some(directory) => Ok(directory),
                    None => Err(ResolveError::InternalInconsistency),
                }
            }
        },
    }
}

/// Brings the repository of a document to a revision and names its working
/// directory, which the caller lists next.
pub fn checkout_revision(registry: &Registry, id: DocumentId, revision: &str) -> (result: Result<
    String,
    ResolveError,
>)
    ensures
        checkout_allows(registry.knows(id), revision@, result),
{
    let progress = match registry.get(id) {
        None => None,
        Some(repo) => Some(move_to_revision(repo, revision)),
    };
    checkout_outcome(progress)
}

/// The position of the first regular file among the entries.
pub fn first_file(entries: &Vec<WorkEntry>) -> (found: Option<usize>)
    ensures
        match found {
            Some(at) => first_file_from(entries@, 0) == Some(at as int) && at < entries.len(),
            None => first_file_from(entries@, 0) is None,
        },
{
    let mut i: usize = 0;
    while i < entries.len()
        invariant
            i <= entries.len(),
            first_file_from(entries@, 0) == first_file_from(entries@, i as int),
        decreases entries.len() - i,
    {
        if entries[i].is_file {
            return Some(i);
        }
        i = i + 1;
    }
    None
}

/// The number of regular files among the entries. More than one is an
/// anomaly that reading tolerates.
pub fn file_count(entries: &Vec<WorkEntry>) -> (count: usize)
    ensures
        count == files_among(entries@, entries.len() as int),
{
    let mut count: usize = 0;
    let mut i: usize = 0;
    while i < entries.len()
        invariant
            i <= entries.len(),
            count <= i,
            count == files_among(entries@, i as int),
        decreases entries.len() - i,
    {
        if entries[i].is_file {
            count = count + 1;
        }
        i = i + 1;
    }
    count
}

/// The document that the listed working directory holds.
pub fn read_working_file(id: DocumentId, entries: &Vec<WorkEntry>) -> (result: Result<
    File,
    ResolveError,
>)
    ensures
        result == working_file_of(id, entries@),
{
    match first_file(entries) {
        None => Err(ResolveError::InternalInconsistency),
        Some(at) => {
            let entry = &entries[at];
            match &entry.name {
                None => Err(ResolveError::InternalInconsistency),
                Some(name) => match &entry.content {
                    None => Err(ResolveError::ReadError),
                    Some(content) => Ok(File { name: name.clone(), id, content: content.clone() }),
                },
            }
        },
    }
}

/// The document that a working directory holds, where the directory could
/// be listed at all. A directory that cannot be listed is inconsistent.
pub open spec fn listed_file_of(id: DocumentId, listing: Option<Vec<WorkEntry>>) -> Result<
    File,
    ResolveError,
> {
    match listing {
        Some(entries) => working_file_of(id, entries@),
        None => Err(ResolveError::InternalInconsistency),
    }
}

/// The document that a working directory holds, from what the caller got
/// when listing it.
pub fn read_listing(id: DocumentId, listing: Option<Vec<WorkEntry>>) -> (result: Result<
    File,
    ResolveError,
>)
    ensures
        result == listed_file_of(id, listing),
{
    match listing {
        Some(entries) => read_working_file(id, &entries),
        None => Err(ResolveError::InternalInconsistency),
    }
}

/// The first regular file is the earliest one: no entry before it is a
/// regular file, and where there is none, no entry is.
pub proof fn law_first_file_is_earliest(entries: Seq<WorkEntry>, from: int)
    requires
        0 <= from <= entries.len(),
    ensures
        match first_file_from(entries, from) {
            Some(at) => from <= at < entries.len() && entries[at].is_file && forall|j: int|
                from <= j < at ==> !(#[trigger] entries[j]).is_file,
            None => forall|j: int| from <= j < entries.len() ==> !(#[trigger] entries[j]).is_file,
        },
    decreases entries.len() - from,
{
    if from < entries.len() && !entries[from].is_file {
        law_first_file_is_earliest(entries, from + 1);
    }
}

} // verus!
