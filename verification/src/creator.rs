//! Creating a document: a new repository with a root commit.
//!
//! A new identity is drawn, and an empty repository is initialised in the
//! directory that belongs to it. The caller writes the working file there.
//! Its content is then committed without a parent, and only after that
//! commit does the document enter the registry.

use vstd::prelude::*;
use crate::api::{CreateFileResult, DocumentId};
use crate::git::{init_repository, is_full_hash, oid_text};
use crate::layout::join;
use crate::normal_date_format::now;
use crate::registry::{repository_path, Registry};
use crate::snapshot::{head_reference, snapshot};

verus! {

/// Why a document could not be created.
#[derive(Clone, Copy, Debug, PartialEq, Eq, Structural)]
pub enum CreateError {
    /// The repository could not be initialised in its directory.
    RepositoryCreationError,
    /// The working file could not be written.
    FileWriteError,
    /// A document is registered under the identity that was drawn.
    IdentityTaken,
    /// The repository refused a step of the root commit.
    CommitError,
}

/// A repository that was initialised for a new document and is not yet
/// registered.
pub struct NewRepository {
    pub id: DocumentId,
    /// The directory of the repository, into which the working file goes.
    pub directory: String,
    pub repo: git2::Repository,
}

/// Whether `result` and the registry `after` are what a creation comes to.
/// `written` says whether the working file is in place, and `commit` is the
/// hash of the root commit where one was made. A working file that is
/// missing is reported first, an identity that is registered already
/// second, a root commit that was not made third; in each of these cases
/// the registry stays as it was. Otherwise the document is registered under
/// its identity, and the result carries the name, the identity, the hash and
/// the time as they were given.
pub open spec fn create_is(
    before: Map<u128, git2::Repository>,
    pending: NewRepository,
    name: String,
    created_time: i64,
    written: bool,
    commit: Option<String>,
    after: Map<u128, git2::Repository>,
    result: Result<CreateFileResult, CreateError>,
) -> bool {
    if !written {
        result == Err::<CreateFileResult, CreateError>(CreateError::FileWriteError) && after
            == before
    } else if before.contains_key(pending.id.value) {
        result == Err::<CreateFileResult, CreateError>(CreateError::IdentityTaken) && after
            == before
    } else {
        match commit {
            None => result == Err::<CreateFileResult, CreateError>(CreateError::CommitError)
                && after == before,
            Some(hash) => result == Ok::<CreateFileResult, CreateError>(
                CreateFileResult { name, id: pending.id, hash, created_time },
            ) && after == before.insert(pending.id.value, pending.repo),
        }
    }
}

/// The results that finishing a creation at a given time may have, and what
/// each means for the registry. A working file that was not written and an
/// identity that is registered already are always reported as such, in that
/// order, and only they. The document is registered exactly when the
/// creation succeeds, under an identity that was free, and nothing else in
/// the registry changes. A creation that succeeds reports the name, the
/// identity and the time as they were given, and a full hash.
pub open spec fn create_allows(
    before: Map<u128, git2::Repository>,
    pending: NewRepository,
    name: String,
    written: bool,
    created_time: i64,
    after: Map<u128, git2::Repository>,
    result: Result<CreateFileResult, CreateError>,
) -> bool {
    match result {
        Ok(created) => {
            &&& written
            &&& !before.contains_key(pending.id.value)
            &&& created.id == pending.id
            &&& created.name == name
            &&& created.created_time == created_time
            &&& is_full_hash(created.hash@)
            &&& after == before.insert(pending.id.value, pending.repo)
        },
        Err(e) => {
            &&& after == before
            &&& e != CreateError::RepositoryCreationError
            &&& e == CreateError::FileWriteError <==> !written
            &&& e == CreateError::IdentityTaken <==> written && before.contains_key(
                pending.id.value,
            )
        },
    }
}

/// Draws a new identity and initialises an empty repository for it under
/// `root`.
pub fn begin_create(root: &str) -> (pending: Result<NewRepository, CreateError>)
    ensures
        match pending {
            Ok(new) => new.directory@ == repository_path(root@, new.id),
            Err(e) => e == CreateError::RepositoryCreationError,
        },
{
    let id = DocumentId::fresh();
    let name = id.to_text();
    let directory = join(root, name.as_str());
    match init_repository(directory.as_str()) {
        Ok(repo) => Ok(NewRepository { id, directory, repo }),
        Err(_) => Err(CreateError::RepositoryCreationError),
    }
}

/// Says what a creation comes to, and registers the document where it
/// succeeded.
pub fn create_outcome(
    registry: &mut Registry,
    pending: NewRepository,
    name: String,
    created_time: i64,
    written: bool,
    commit: Option<String>,
) -> (result: Result<CreateFileResult, CreateError>)
    ensures
        create_is(
            old(registry)@,
            pending,
            name,
            created_time,
            written,
            commit,
            final(registry)@,
            result,
        ),
{
    if !written {
        return Err(CreateError::FileWriteError);
    }
    if registry.contains(pending.id) {
        return Err(CreateError::IdentityTaken);
    }
    match commit {
        None => Err(CreateError::CommitError),
        Some(hash) => {
            let id = pending.id;
            registry.insert(id, pending.repo);
            Ok(CreateFileResult { name, id, hash, created_time })
        },
    }
}

/// Commits the working file of a new repository as its root commit, with
/// `created_time` as the time of the commit, and registers the document.
/// `written` says whether the caller managed to write the working file. No
/// commit is made for a working file that is missing or an identity that is
/// taken.
pub fn finish_create_at(
    registry: &mut Registry,
    pending: NewRepository,
    name: String,
    written: bool,
    author: &str,
    created_time: i64,
) -> (result: Result<CreateFileResult, CreateError>)
    ensures
        create_allows(
            old(registry)@,
            pending,
            name,
            written,
            created_time,
            final(registry)@,
            result,
        ),
{
    let commit = if written && !registry.contains(pending.id) {
        match snapshot(&pending.repo, head_reference(), author, created_time, None) {
            Some(commit) => Some(oid_text(commit)),
            None => None,
        }
    } else {
        None
    };
    create_outcome(registry, pending, name, created_time, written, commit)
}

/// Commits the working file of a new repository as its root commit, at the
/// time of the call, and registers the document.
pub fn finish_create(
    registry: &mut Registry,
    pending: NewRepository,
    name: String,
    written: bool,
    author: &str,
) -> (result: Result<CreateFileResult, CreateError>)
    ensures
        exists|created_time: i64| #[trigger]
            create_allows(
                old(registry)@,
                pending,
                name,
                written,
                created_time,
                final(registry)@,
                result,
            ),
{
    finish_create_at(registry, pending, name, written, author, now())
}

} // verus!
