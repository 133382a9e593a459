//! Reading the history of a document: every commit and every branch.
//!
//! The object store of the repository is walked in full. Every object that
//! is a commit is recorded with its first parent; trees and blobs are
//! passed over. The commits come in the order of the store, which is not
//! the order of time.

use vstd::prelude::*;
use crate::api::{DocumentId, GitCommit, GitHistory, GitRef};
use crate::git::{
    branch_commit, branch_name, commit_id, find_commit, is_full_hash, list_branches,
    object_ids, oid_text, parent_ids,
};
use crate::registry::Registry;
use crate::seqs::{all_present, keep_present, lemma_present_comes_from, none_missing, present};

verus! {

/// Why a history could not be read.
#[derive(Clone, Copy, Debug, PartialEq, Eq, Structural)]
pub enum HistoryError {
    /// The document is not registered.
    NotFound,
    /// The object store or a branch of the repository cannot be read.
    InternalError,
}

/// What was found in a repository: for each object of the store the commit
/// that it is, if it is one, and for each local branch its name and target,
/// if the branch can be read and they can be told.
#[derive(Clone, Debug, PartialEq, Eq)]
pub struct StoreReading {
    pub objects: Vec<Option<GitCommit>>,
    pub branches: Vec<Option<GitRef>>,
}

/// How far the reading of a history got.
#[derive(Clone, Debug, PartialEq, Eq)]
pub enum Reading {
    /// The document is not registered.
    Unregistered,
    /// The store or the branches could not be listed.
    Unreadable,
    Read(StoreReading),
}

/// Whether `result` is what a reading comes to: the commits among the
/// objects, in their order, and all branches; an error where a branch
/// cannot be told.
pub open spec fn history_is(reading: Reading, result: Result<GitHistory, HistoryError>) -> bool {
    match reading {
        Reading::Unregistered => result == Err::<GitHistory, HistoryError>(HistoryError::NotFound),
        Reading::Unreadable => result == Err::<GitHistory, HistoryError>(
            HistoryError::InternalError,
        ),
        Reading::Read(store) => if all_present(store.branches@) {
            &&& result matches Ok(history)
            &&& history.commits@ == present(store.objects@)
            &&& history.refs@ == present(store.branches@)
        } else {
            result == Err::<GitHistory, HistoryError>(HistoryError::InternalError)
        },
    }
}

/// Whether the hash of a commit and, where it has one, of its parent are
/// full hashes.
pub open spec fn commit_well_formed(commit: GitCommit) -> bool {
    &&& is_full_hash(commit.hash@)
    &&& commit.parent matches Some(parent) ==> is_full_hash(parent@)
}

/// Whether every hash in a history is a full hash.
pub open spec fn history_well_formed(history: GitHistory) -> bool {
    &&& forall|i: int|
        0 <= i < history.commits@.len() ==> commit_well_formed(#[trigger] history.commits@[i])
    &&& forall|j: int|
        0 <= j < history.refs@.len() ==> is_full_hash((#[trigger] history.refs@[j]).hash@)
}

/// Whether every hash that was read is a full hash.
pub open spec fn reading_well_formed(store: StoreReading) -> bool {
    &&& forall|i: int|
        0 <= i < store.objects@.len() ==> ((#[trigger] store.objects@[i]) matches Some(commit)
            ==> commit_well_formed(commit))
    &&& forall|j: int|
        0 <= j < store.branches@.len() ==> ((#[trigger] store.branches@[j]) matches Some(
            reference,
        ) ==> is_full_hash(reference.hash@))
}

/// The results that reading a history may have: an unregistered document is
/// always, and only it is ever, reported as not found, and every hash of a
/// history that is handed out is a full hash.
pub open spec fn history_allows(known: bool, result: Result<GitHistory, HistoryError>) -> bool {
    if !known {
        result == Err::<GitHistory, HistoryError>(HistoryError::NotFound)
    } else {
        match result {
            Ok(history) => history_well_formed(history),
            Err(e) => e == HistoryError::InternalError,
        }
    }
}

/// The commit behind an object of the store, with its first parent only.
/// `None` for an object that is no commit.
fn describe_object(repo: &git2::Repository, oid: git2::Oid) -> (commit: Option<GitCommit>)
    ensures
        commit matches Some(c) ==> commit_well_formed(c),
{
    match find_commit(repo, oid) {
        Err(_) => None,
        Ok(commit) => {
            let hash = oid_text(commit_id(&commit));
            let parents = parent_ids(&commit);
            let parent = if parents.len() > 0 {
                Some(oid_text(parents[0]))
            } else {
                None
            };
            Some(GitCommit { hash, parent })
        },
    }
}

/// The name of a branch and the hash of the commit that it points to.
/// `None` where either cannot be told.
fn describe_branch(branch: &git2::Branch<'_>) -> (reference: Option<GitRef>)
    ensures
        reference matches Some(r) ==> is_full_hash(r.hash@),
{
    let name = match branch_name(branch) {
        Some(name) => name,
        None => {
            return None;
        },
    };
    match branch_commit(branch) {
        Ok(commit) => Some(GitRef { name, hash: oid_text(commit_id(&commit)) }),
        Err(_) => None,
    }
}

/// Walks the object store and the local branches of a repository.
fn read_store(repo: &git2::Repository) -> (reading: Reading)
    ensures
        !(reading is Unregistered),
        reading matches Reading::Read(store) ==> reading_well_formed(store),
{
    let ids = match object_ids(repo) {
        Ok(ids) => ids,
        Err(_) => {
            return Reading::Unreadable;
        },
    };
    let mut objects: Vec<Option<GitCommit>> = Vec::new();
    let mut i: usize = 0;
    while i < ids.len()
        invariant
            i <= ids.len(),
            forall|k: int|
                0 <= k < objects@.len() ==> ((#[trigger] objects@[k]) matches Some(commit)
                    ==> commit_well_formed(commit)),
        decreases ids.len() - i,
    {
        objects.push(describe_object(repo, ids[i]));
        i = i + 1;
    }
    let found = match list_branches(repo, Some(git2::BranchType::Local)) {
        Ok(found) => found,
        Err(_) => {
            return Reading::Unreadable;
        },
    };
    let mut branches: Vec<Option<GitRef>> = Vec::new();
    let mut j: usize = 0;
    while j < found.len()
        invariant
            j <= found.len(),
            forall|k: int|
                0 <= k < branches@.len() ==> ((#[trigger] branches@[k]) matches Some(reference)
                    ==> is_full_hash(reference.hash@)),
        decreases found.len() - j,
    {
        let described = match &found[j] {
            Some(branch) => describe_branch(branch),
            None => None,
        };
        branches.push(described);
        j = j + 1;
    }
    Reading::Read(StoreReading { objects, branches })
}

/// Says what a reading comes to.
pub fn assemble_history(reading: Reading) -> (result: Result<GitHistory, HistoryError>)
    ensures
        history_is(reading, result),
{
    match reading {
        Reading::Unregistered => Err(HistoryError::NotFound),
        Reading::Unreadable => Err(HistoryError::InternalError),
        Reading::Read(store) => {
            if none_missing(&store.branches) {
                let commits = keep_present(store.objects);
                let refs = keep_present(store.branches);
                Ok(GitHistory { commits, refs })
            } else {
                Err(HistoryError::InternalError)
            }
        },
    }
}

/// Every commit and every local branch of a document's repository.
pub fn history(registry: &Registry, id: DocumentId) -> (result: Result<GitHistory, HistoryError>)
    ensures
        history_allows(registry.knows(id), result),
{
    let reading = match registry.get(id) {
        None => Reading::Unregistered,
        Some(repo) => read_store(repo),
    };
    proof {
        if reading is Read {
            lemma_present_comes_from(reading->Read_0.objects@);
            lemma_present_comes_from(reading->Read_0.branches@);
        }
    }
    assemble_history(reading)
}

} // verus!
