//! Saving a document: a new commit on top of a stated parent.
//!
//! The caller first replaces the content of the working directory with the
//! new file. The save then resolves the parent, detaches the head to it,
//! forces the named branch onto it, commits the working directory onto that
//! branch and attaches the head to the branch. A parent that is not the tip
//! of the branch is accepted: the branch simply moves to the new commit.

use vstd::prelude::*;
use crate::api::{DocumentId, GitCommit};
use crate::git::{
    create_branch, detach_head, find_commit, is_full_hash, is_revision_text, oid_text, parse_oid,
    set_head, working_directory,
};
use crate::normal_date_format::now;
use crate::registry::Registry;
use crate::resolver::WorkEntry;
use crate::snapshot::{branch_reference, snapshot, MOVE_EXISTING_BRANCH};

verus! {

/// Why a document could not be saved.
#[derive(Clone, Copy, Debug, PartialEq, Eq, Structural)]
pub enum SaveError {
    /// The document is not registered.
    NotFound,
    /// The parent is no hexadecimal hash, or the repository holds no such
    /// commit.
    BadParent,
    /// The new content could not be written, or the repository refused a
    /// step of the commit.
    InternalError,
}

/// What the repository answered, step by step, during the commit of a save.
/// The steps are taken in the order of the fields, and none is taken after
/// one that failed: the steps after it count as failed too.
#[derive(Clone, Debug, PartialEq, Eq)]
pub struct SaveSteps {
    /// Whether the parent is a hexadecimal hash.
    pub parsed: bool,
    /// Whether the repository holds a commit of the parent's hash.
    pub found: bool,
    /// Whether the head was detached to the parent.
    pub detached: bool,
    /// Whether the branch was put onto the parent.
    pub branched: bool,
    /// The hash of the new commit, where it was made.
    pub commit: Option<String>,
    /// Whether the head was attached to the branch.
    pub attached: bool,
}

/// How far a save got.
#[derive(Clone, Debug, PartialEq, Eq)]
pub enum SaveProgress {
    /// The document is not registered.
    Unregistered,
    /// The caller could not write the new content.
    Unwritten,
    /// The commit was attempted.
    Attempted(SaveSteps),
}

/// What a save comes to. A parent that is no hash, or that the repository
/// does not hold, is a bad parent; a step that the repository refuses after
/// the parent was found is an internal error. The commit that is reported
/// carries the parent as the caller gave it.
pub open spec fn save_result(progress: SaveProgress, parent: String) -> Result<
    GitCommit,
    SaveError,
> {
    match progress {
        SaveProgress::Unregistered => Err(SaveError::NotFound),
        SaveProgress::Unwritten => Err(SaveError::InternalError),
        SaveProgress::Attempted(steps) => if !steps.parsed || !steps.found {
            Err(SaveError::BadParent)
        } else if !steps.detached || !steps.branched || !steps.attached {
            Err(SaveError::InternalError)
        } else {
            match steps.commit {
                Some(hash) => Ok(GitCommit { hash, parent: Some(parent) }),
                None => Err(SaveError::InternalError),
            }
        },
    }
}

/// The results that a save may have. An unregistered document, content that
/// was not written and a malformed parent are always reported as such, in
/// that order. Otherwise the repository decides; a save that succeeds
/// reports a full hash, and the parent that the caller gave.
pub open spec fn save_allows(
    known: bool,
    written: bool,
    parent: Seq<char>,
    result: Result<GitCommit, SaveError>,
) -> bool {
    if !known {
        result == Err::<GitCommit, SaveError>(SaveError::NotFound)
    } else if !written {
        result == Err::<GitCommit, SaveError>(SaveError::InternalError)
    } else if !is_revision_text(parent) {
        result == Err::<GitCommit, SaveError>(SaveError::BadParent)
    } else {
        match result {
            Ok(commit) => is_full_hash(commit.hash@) && (commit.parent matches Some(p) && p@
                == parent),
            Err(e) => e == SaveError::BadParent || e == SaveError::InternalError,
        }
    }
}

/// The positions of the regular files among the first `upto` entries of a
/// working directory, in their order.
pub open spec fn file_positions(entries: Seq<WorkEntry>, upto: int) -> Seq<usize>
    decreases upto,
{
    if upto <= 0 {
        Seq::empty()
    } else {
        let rest = file_positions(entries, upto - 1);
        if entries[upto - 1].is_file {
            rest.push((upto - 1) as usize)
        } else {
            rest
        }
    }
}

/// The positions are those of the regular files, all of them and nothing
/// else.
pub proof fn lemma_file_positions(entries: Seq<WorkEntry>, upto: int)
    requires
        0 <= upto <= entries.len(),
        entries.len() <= usize::MAX,
    ensures
        forall|k: int|
            0 <= k < file_positions(entries, upto).len() ==> 0 <= (#[trigger] file_positions(
                entries,
                upto,
            )[k]) < upto && entries[file_positions(entries, upto)[k] as int].is_file,
        forall|i: int|
            0 <= i < upto && (#[trigger] entries[i]).is_file ==> file_positions(
                entries,
                upto,
            ).contains(i as usize),
    decreases upto,
{
    if upto > 0 {
        lemma_file_positions(entries, upto - 1);
        let rest = file_positions(entries, upto - 1);
        let all = file_positions(entries, upto);
        assert forall|i: int| 0 <= i < upto && (#[trigger] entries[i]).is_file implies all.contains(
            i as usize,
        ) by {
            if i < upto - 1 {
                let k = choose|k: int| 0 <= k < rest.len() && rest[k] == i as usize;
                assert(all[k] == i as usize);
            } else {
                assert(all[all.len() - 1] == i as usize);
            }
        }
    }
}

/// The results that preparing a save may have.
pub open spec fn prepare_allows(known: bool, result: Result<String, SaveError>) -> bool {
    if !known {
        result == Err::<String, SaveError>(SaveError::NotFound)
    } else {
        result is Ok || result == Err::<String, SaveError>(SaveError::InternalError)
    }
}

/// The entries that a save removes from the working directory before the
/// new content is written: every regular file, whatever its name, and
/// nothing else.
pub fn files_to_replace(entries: &Vec<WorkEntry>) -> (positions: Vec<usize>)
    ensures
        positions@ == file_positions(entries@, entries.len() as int),
{
    let mut positions: Vec<usize> = Vec::new();
    let mut i: usize = 0;
    while i < entries.len()
        invariant
            i <= entries.len(),
            positions@ == file_positions(entries@, i as int),
        decreases entries.len() - i,
    {
        if entries[i].is_file {
            positions.push(i);
        }
        i = i + 1;
    }
    positions
}

/// Names the working directory of a document, whose regular files the
/// caller is to replace with the new one.
pub fn prepare_save(registry: &Registry, id: DocumentId) -> (directory: Result<String, SaveError>)
    ensures
        prepare_allows(registry.knows(id), directory),
{
    match registry.get(id) {
        None => Err(SaveError::NotFound),
        Some(repo) => match working_directory(repo) {
            Some(directory) => Ok(directory),
            None => Err(SaveError::InternalError),
        },
    }
}

/// Commits the working directory of `repo` on top of `parent` and moves
/// `branch` to the new commit, and records how each step went.
fn commit_on_parent(
    repo: &git2::Repository,
    parent: &str,
    branch: &str,
    author: &str,
) -> (steps: SaveSteps)
    ensures
        steps.parsed <==> is_revision_text(parent@),
        !steps.parsed ==> !steps.found,
        !steps.found ==> !steps.detached,
        !steps.detached ==> !steps.branched,
        !steps.branched ==> steps.commit is None,
        steps.commit is None ==> !steps.attached,
        steps.commit matches Some(hash) ==> is_full_hash(hash@),
{
    let mut steps = SaveSteps {
        parsed: false,
        found: false,
        detached: false,
        branched: false,
        commit: None,
        attached: false,
    };
    let parent_id = match parse_oid(parent) {
        Ok(oid) => oid,
        Err(_) => {
            return steps;
        },
    };
    steps.parsed = true;
    let parent_commit = match find_commit(repo, parent_id) {
        Ok(commit) => commit,
        Err(_) => {
            return steps;
        },
    };
    steps.found = true;
    match detach_head(repo, parent_id) {
        Ok(_) => {},
        Err(_) => {
            return steps;
        },
    }
    steps.detached = true;
    match create_branch(repo, branch, &parent_commit, MOVE_EXISTING_BRANCH) {
        Ok(_) => {},
        Err(_) => {
            return steps;
        },
    }
    steps.branched = true;
    let reference = branch_reference(branch);
    let commit = match snapshot(repo, reference.as_str(), author, now(), Some(&parent_commit)) {
        Some(commit) => commit,
        None => {
            return steps;
        },
    };
    steps.commit = Some(oid_text(commit));
    match set_head(repo, reference.as_str()) {
        Ok(_) => {
            steps.attached = true;
        },
        Err(_) => {},
    }
    steps
}

/// Says what a save comes to.
pub fn save_outcome(progress: SaveProgress, parent: String) -> (result: Result<
    GitCommit,
    SaveError,
>)
    ensures
        result == save_result(progress, parent),
{
    match progress {
        SaveProgress::Unregistered => Err(SaveError::NotFound),
        SaveProgress::Unwritten => Err(SaveError::InternalError),
        SaveProgress::Attempted(steps) => {
            if !steps.parsed || !steps.found {
                Err(SaveError::BadParent)
            } else if !steps.detached || !steps.branched || !steps.attached {
                Err(SaveError::InternalError)
            } else {
                match steps.commit {
                    Some(hash) => Ok(GitCommit { hash, parent: Some(parent) }),
                    None => Err(SaveError::InternalError),
                }
            }
        },
    }
}

/// Saves the working directory of a document as a new commit on top of
/// `parent` and moves `branch` to it. `written` says whether the caller
/// managed to put the new content in place.
pub fn save(
    registry: &Registry,
    id: DocumentId,
    written: bool,
    parent: &str,
    branch: &str,
    author: &str,
) -> (result: Result<GitCommit, SaveError>)
    ensures
        save_allows(registry.knows(id), written, parent@, result),
{
    let progress = match registry.get(id) {
        None => SaveProgress::Unregistered,
        Some(repo) => {
            if !written {
                SaveProgress::Unwritten
            } else {
                SaveProgress::Attempted(commit_on_parent(repo, parent, branch, author))
            }
        },
    };
    save_outcome(progress, parent.to_owned())
}

} // verus!
