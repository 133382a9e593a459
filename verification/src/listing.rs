//! Listing the documents: name, time of creation and time of the last edit.
//!
//! The commits of a repository are walked from its head and from every
//! branch, newest first. The newest commit is checked out, and its time is
//! the time of the last edit; the time of the oldest commit is the time of
//! creation. The caller then lists the working directory, and the first
//! regular file in it names the document.

use vstd::prelude::*;
use crate::api::{DocumentId, FileSummary};
use crate::git::{
    branch_target, commit_seconds, detach_head, find_commit, list_branches, new_revwalk,
    object_ids, revwalk_next, revwalk_push, revwalk_push_head, revwalk_sort_by_time,
    working_directory,
};
use crate::registry::Registry;
use crate::resolver::{first_file, first_file_from, force_checkout, WorkEntry};

verus! {

/// Why a document could not be listed.
#[derive(Clone, Copy, Debug, PartialEq, Eq, Structural)]
pub enum ListError {
    /// The document is not registered.
    NotFound,
    /// The repository has no commit to start from.
    NoCommits,
    /// The newest commit could not be checked out.
    OutOfSync,
    /// A commit of the walk cannot be read.
    UnreadableCommit,
    /// The working directory holds no regular file whose name is text.
    NoWorkingFile,
}

/// The working directory of a document after its newest commit was checked
/// out, and the times of that commit and of the oldest one.
#[derive(Clone, Debug, PartialEq, Eq)]
pub struct Timeline {
    pub directory: String,
    pub edited_time: i64,
    pub created_time: i64,
}

/// How far the survey of a repository got.
#[derive(Clone, Debug, PartialEq, Eq)]
pub enum Survey {
    /// The document is not registered.
    Unregistered,
    /// The walk of the commits could not start or came up empty.
    Unwalkable,
    /// The newest commit could not be checked out.
    OutOfSync,
    /// The newest or the oldest commit cannot be read.
    Unreadable,
    /// The working directory, the time of the newest commit and, where the
    /// walk went on to an older commit that it could name, the time of the
    /// oldest.
    Surveyed { directory: String, newest: i64, oldest: Option<i64> },
}

/// What the repository answered, step by step, after a walk was made. The
/// steps are taken in the order of the fields, and none is taken after one
/// that failed: the steps after it count as failed too.
#[derive(Clone, Debug, PartialEq, Eq)]
pub struct SurveySteps {
    /// Whether the head was detached to the newest commit.
    pub detached: bool,
    /// Whether the working directory was made to match the head.
    pub synced: bool,
    /// The working directory, where the repository has one that can be
    /// named.
    pub directory: Option<String>,
    /// The time of the newest commit, where it can be read.
    pub newest: Option<i64>,
    /// The time of the oldest commit, where the walk has one and it can be
    /// read.
    pub oldest: Option<i64>,
}

/// What the steps after a walk come to. A walk without ends is unwalkable.
/// A newest commit that cannot be checked out is out of sync. A newest
/// commit that cannot be read is unreadable, and so is the oldest where the
/// walk has one. The time of an oldest commit is reported only for a walk
/// that has one.
pub open spec fn survey_of<T>(ends: Option<(T, Option<T>)>, steps: SurveySteps) -> Survey {
    match ends {
        None => Survey::Unwalkable,
        Some((_, last)) => if !steps.detached || !steps.synced || steps.directory is None {
            Survey::OutOfSync
        } else if steps.newest is None {
            Survey::Unreadable
        } else if last is None {
            Survey::Surveyed {
                directory: steps.directory->0,
                newest: steps.newest->0,
                oldest: None,
            }
        } else if steps.oldest is None {
            Survey::Unreadable
        } else {
            Survey::Surveyed {
                directory: steps.directory->0,
                newest: steps.newest->0,
                oldest: steps.oldest,
            }
        },
    }
}

/// What a survey comes to. A document with a single commit was created when
/// it was last edited.
pub open spec fn timeline_result(survey: Survey) -> Result<Timeline, ListError> {
    match survey {
        Survey::Unregistered => Err(ListError::NotFound),
        Survey::Unwalkable => Err(ListError::NoCommits),
        Survey::OutOfSync => Err(ListError::OutOfSync),
        Survey::Unreadable => Err(ListError::UnreadableCommit),
        Survey::Surveyed { directory, newest, oldest } => Ok(
            Timeline {
                directory,
                edited_time: newest,
                created_time: match oldest {
                    Some(seconds) => seconds,
                    None => newest,
                },
            },
        ),
    }
}

/// The results that the survey of a document may have: an unregistered
/// document is always, and only it is ever, reported as not found.
pub open spec fn timeline_allows(known: bool, result: Result<Timeline, ListError>) -> bool {
    if !known {
        result == Err::<Timeline, ListError>(ListError::NotFound)
    } else {
        match result {
            Ok(_) => true,
            Err(e) => e == ListError::NoCommits || e == ListError::OutOfSync || e
                == ListError::UnreadableCommit,
        }
    }
}

/// The line of the listing for a document with the given times, whose
/// working directory holds `entries`: it is named by the first regular
/// file.
pub open spec fn summary_of(
    id: DocumentId,
    edited_time: i64,
    created_time: i64,
    entries: Seq<WorkEntry>,
) -> Result<FileSummary, ListError> {
    match first_file_from(entries, 0) {
        None => Err(ListError::NoWorkingFile),
        Some(at) => match entries[at].name {
            None => Err(ListError::NoWorkingFile),
            Some(name) => Ok(FileSummary { name, id, edited_time, created_time }),
        },
    }
}

/// The two ends of a walk that goes from the newest commit to the oldest:
/// its first item, and its last item where the walk has more than one. A
/// walk that is empty, or whose first item cannot be named, has no ends; a
/// last item that cannot be named leaves the oldest end open.
pub open spec fn ends_of<T>(items: Seq<Option<T>>) -> Option<(T, Option<T>)> {
    if items.len() == 0 || items[0] is None {
        None
    } else {
        Some(
            (
                items[0]->0,
                if items.len() > 1 {
                    items.last()
                } else {
                    None
                },
            ),
        )
    }
}

/// Picks the newest and the oldest item of a walk that goes from newest to
/// oldest.
pub fn walk_ends<T: Copy>(items: &Vec<Option<T>>) -> (ends: Option<(T, Option<T>)>)
    ensures
        ends == ends_of(items@),
{
    if items.len() == 0 {
        return None;
    }
    match items[0] {
        None => None,
        Some(newest) => {
            if items.len() > 1 {
                Some((newest, items[items.len() - 1]))
            } else {
                Some((newest, None))
            }
        },
    }
}

/// Says what the steps after a walk come to.
pub fn survey_outcome<T>(ends: &Option<(T, Option<T>)>, steps: SurveySteps) -> (survey: Survey)
    ensures
        survey == survey_of(*ends, steps),
{
    let has_oldest = match ends {
        None => {
            return Survey::Unwalkable;
        },
        Some((_, last)) => last.is_some(),
    };
    if !steps.detached || !steps.synced {
        return Survey::OutOfSync;
    }
    let directory = match steps.directory {
        Some(directory) => directory,
        None => {
            return Survey::OutOfSync;
        },
    };
    let newest = match steps.newest {
        Some(newest) => newest,
        None => {
            return Survey::Unreadable;
        },
    };
    if !has_oldest {
        return Survey::Surveyed { directory, newest, oldest: None };
    }
    match steps.oldest {
        Some(oldest) => Survey::Surveyed { directory, newest, oldest: Some(oldest) },
        None => Survey::Unreadable,
    }
}

/// Walks the commits of a repository from its head and from every branch
/// that can be read, newest first. The walk is not followed beyond as many
/// items as the store holds objects. `None` where no walk can be made.
fn walk_commits(repo: &git2::Repository) -> (items: Option<Vec<Option<git2::Oid>>>) {
    let limit = match object_ids(repo) {
        Ok(ids) => ids.len(),
        Err(_) => {
            return None;
        },
    };
    let mut walk = match new_revwalk(repo) {
        Ok(walk) => walk,
        Err(_) => {
            return None;
        },
    };
    let _ = revwalk_sort_by_time(&mut walk);
    let _ = revwalk_push_head(&mut walk);
    match list_branches(repo, None) {
        Err(_) => {},
        Ok(branches) => {
            let mut i: usize = 0;
            while i < branches.len()
                invariant
                    i <= branches.len(),
                decreases branches.len() - i,
            {
                match &branches[i] {
                    Some(branch) => match branch_target(branch) {
                        Some(tip) => {
                            let _ = revwalk_push(&mut walk, tip);
                        },
                        None => {},
                    },
                    None => {},
                }
                i = i + 1;
            }
        },
    }
    let mut items: Vec<Option<git2::Oid>> = Vec::new();
    let mut left: usize = limit;
    let mut ended = false;
    while left > 0 && !ended
        invariant
            items@.len() + left <= limit,
        decreases left,
    {
        match revwalk_next(&mut walk) {
            Some(item) => {
                items.push(item);
            },
            None => {
                ended = true;
            },
        }
        left = left - 1;
    }
    Some(items)
}

/// The time of a commit, where the repository can read it.
fn time_of(repo: &git2::Repository, oid: git2::Oid) -> (seconds: Option<i64>) {
    match find_commit(repo, oid) {
        Ok(commit) => Some(commit_seconds(&commit)),
        Err(_) => None,
    }
}

/// Checks out the newest commit of a repository and reads the times of its
/// newest and oldest commits.
fn survey(repo: &git2::Repository) -> (survey: Survey)
    ensures
        !(survey is Unregistered),
{
    match walk_commits(repo) {
        Some(items) => survey_walk(repo, &items),
        None => Survey::Unwalkable,
    }
}

/// Checks out the newest commit of a walk and reads the times of the two
/// ends of the walk. A walk without ends is the only one that is reported as
/// unwalkable, and the time of an oldest commit is reported only for a walk
/// that has one.
fn survey_walk(repo: &git2::Repository, items: &Vec<Option<git2::Oid>>) -> (survey: Survey)
    ensures
        !(survey is Unregistered),
        survey is Unwalkable <==> ends_of(items@) is None,
        survey matches Survey::Surveyed { oldest: Some(_), .. } ==> (ends_of(items@) matches Some(
            ends,
        ) && ends.1 is Some),
{
    let ends = walk_ends(items);
    let steps = match ends {
        Some((newest_id, oldest_id)) => inspect_ends(repo, newest_id, oldest_id),
        None => SurveySteps {
            detached: false,
            synced: false,
            directory: None,
            newest: None,
            oldest: None,
        },
    };
    survey_outcome(&ends, steps)
}

/// Checks out the newest commit and reads the times of the newest and, where
/// there is one, of the oldest commit, and records how each step went.
fn inspect_ends(repo: &git2::Repository, newest_id: git2::Oid, oldest_id: Option<git2::Oid>) -> (steps:
    SurveySteps)
    ensures
        oldest_id is None ==> steps.oldest is None,
{
    let mut steps = SurveySteps {
        detached: false,
        synced: false,
        directory: None,
        newest: None,
        oldest: None,
    };
    match detach_head(repo, newest_id) {
        Ok(_) => {},
        Err(_) => {
            return steps;
        },
    }
    steps.detached = true;
    if !force_checkout(repo) {
        return steps;
    }
    steps.synced = true;
    steps.directory = working_directory(repo);
    if steps.directory.is_none() {
        return steps;
    }
    steps.newest = time_of(repo, newest_id);
    if steps.newest.is_none() {
        return steps;
    }
    match oldest_id {
        Some(oid) => {
            steps.oldest = time_of(repo, oid);
        },
        None => {},
    }
    steps
}

/// Says what a survey comes to.
pub fn timeline_outcome(survey: Survey) -> (result: Result<Timeline, ListError>)
    ensures
        result == timeline_result(survey),
{
    match survey {
        Survey::Unregistered => Err(ListError::NotFound),
        Survey::Unwalkable => Err(ListError::NoCommits),
        Survey::OutOfSync => Err(ListError::OutOfSync),
        Survey::Unreadable => Err(ListError::UnreadableCommit),
        Survey::Surveyed { directory, newest, oldest } => {
            let created_time = match oldest {
                Some(seconds) => seconds,
                None => newest,
            };
            Ok(Timeline { directory, edited_time: newest, created_time })
        },
    }
}

/// Checks out the newest commit of a document and tells when the document
/// was created and last edited. The caller lists the working directory
/// next.
pub fn timeline(registry: &Registry, id: DocumentId) -> (result: Result<Timeline, ListError>)
    ensures
        timeline_allows(registry.knows(id), result),
{
    let progress = match registry.get(id) {
        None => Survey::Unregistered,
        Some(repo) => survey(repo),
    };
    timeline_outcome(progress)
}

/// The line of the listing for a document, from its times and the entries
/// of its working directory.
pub fn summarize(
    id: DocumentId,
    edited_time: i64,
    created_time: i64,
    entries: &Vec<WorkEntry>,
) -> (result: Result<FileSummary, ListError>)
    ensures
        result == summary_of(id, edited_time, created_time, entries@),
{
    match first_file(entries) {
        None => Err(ListError::NoWorkingFile),
        Some(at) => match &entries[at].name {
            None => Err(ListError::NoWorkingFile),
            Some(name) => Ok(FileSummary { name: name.clone(), id, edited_time, created_time }),
        },
    }
}

} // verus!
