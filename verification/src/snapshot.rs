//! Turning the working directory of a repository into a commit.
//!
//! Every commit of the service is made the same way: all paths of the
//! working directory are staged, the staged tree is written, and the tree is
//! committed with the caller as author and the service as committer, under an
//! empty message.

use vstd::prelude::*;
use vstd::string::StringExecFns;
use crate::git::{
    create_commit, find_tree, index_add_all, index_write, index_write_tree, new_signature,
    repository_index,
};

verus! {

/// The author recorded for a caller: its network address, or `anonymous`
/// for a caller that has none.
pub open spec fn author_of(address: Option<Seq<char>>) -> Seq<char> {
    match address {
        Some(a) => a,
        None => "anonymous"@,
    }
}

/// The full name of the reference behind a branch.
pub open spec fn reference_of(branch: Seq<char>) -> Seq<char> {
    "refs/heads/"@ + branch
}

pub open spec fn address_text(address: Option<&str>) -> Option<Seq<char>> {
    match address {
        Some(a) => Some(a@),
        None => None,
    }
}

/// The name of the service, under which it is the committer of every commit.
pub fn committer_name() -> (name: &'static str)
    ensures
        name@ == "Remote Text"@,
{
    "Remote Text"
}

/// The address that stands in every signature, the author's as well as the
/// committer's.
pub fn signature_address() -> (address: &'static str)
    ensures
        address@ == "blinky@remote-text.com"@,
{
    "blinky@remote-text.com"
}

/// The offset from UTC, in minutes, of the time in every signature.
pub const SIGNATURE_OFFSET_MINUTES: i32 = 0;

/// The message of every commit: none.
pub fn commit_message() -> (message: &'static str)
    ensures
        message@ == ""@,
        message@.len() == 0,
{
    proof {
        reveal_strlit("");
    }
    ""
}

/// The path specification under which every path of the working directory
/// is staged.
pub fn all_paths() -> (pathspec: &'static str)
    ensures
        pathspec@ == "."@,
{
    "."
}

/// The reference onto which the root commit of a new repository is made.
pub fn head_reference() -> (reference: &'static str)
    ensures
        reference@ == "HEAD"@,
{
    "HEAD"
}

/// Whether a save moves a branch that exists already: it always does.
pub const MOVE_EXISTING_BRANCH: bool = true;

/// The name under which a caller's commits are recorded.
pub fn author_name(address: Option<&str>) -> (name: String)
    ensures
        name@ == author_of(address_text(address)),
{
    match address {
        Some(a) => String::from_str(a),
        None => String::from_str("anonymous"),
    }
}

/// The reference that a branch name stands for.
pub fn branch_reference(branch: &str) -> (reference: String)
    ensures
        reference@ == reference_of(branch@),
{
    String::from_str("refs/heads/").concat(branch)
}

/// Stages every path of the working directory and writes the staged tree.
/// `None` where any step fails.
pub(crate) fn stage_all(repo: &git2::Repository) -> (tree: Option<git2::Oid>) {
    let mut index = match repository_index(repo) {
        Ok(index) => index,
        Err(_) => {
            return None;
        },
    };
    match index_add_all(&mut index, all_paths()) {
        Ok(_) => {},
        Err(_) => {
            return None;
        },
    }
    match index_write(&mut index) {
        Ok(_) => {},
        Err(_) => {
            return None;
        },
    }
    match index_write_tree(&mut index) {
        Ok(tree) => Some(tree),
        Err(_) => None,
    }
}

/// Commits the working directory of `repo` onto `reference`, on top of
/// `parent` where there is one. `None` where any step fails.
pub(crate) fn snapshot(
    repo: &git2::Repository,
    reference: &str,
    author: &str,
    seconds: i64,
    parent: Option<&git2::Commit<'_>>,
) -> (commit: Option<git2::Oid>) {
    let theirs = match new_signature(
        author,
        signature_address(),
        seconds,
        SIGNATURE_OFFSET_MINUTES,
    ) {
        Ok(signature) => signature,
        Err(_) => {
            return None;
        },
    };
    let ours = match new_signature(
        committer_name(),
        signature_address(),
        seconds,
        SIGNATURE_OFFSET_MINUTES,
    ) {
        Ok(signature) => signature,
        Err(_) => {
            return None;
        },
    };
    let tree_id = match stage_all(repo) {
        Some(tree_id) => tree_id,
        None => {
            return None;
        },
    };
    let tree = match find_tree(repo, tree_id) {
        Ok(tree) => tree,
        Err(_) => {
            return None;
        },
    };
    match create_commit(repo, reference, &theirs, &ours, commit_message(), &tree, parent) {
        Ok(commit) => Some(commit),
        Err(_) => None,
    }
}

} // verus!
