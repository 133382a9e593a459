//! What holds across the operations of the service.
//!
//! Each law is stated over the contracts of the operations that it relates:
//! the registry before and after, and the results that those contracts
//! allow.

use vstd::prelude::*;
use crate::api::{CreateFileResult, DocumentId, GitCommit, GitHistory};
use crate::creator::{create_allows, CreateError, NewRepository};
use crate::git::{is_full_hash, is_revision_text, lemma_full_hash_names_a_revision};
use crate::history::{history_allows, HistoryError};
use crate::listing::{timeline_allows, ListError, Timeline};
use crate::mutator::{prepare_allows, save_allows, SaveError};
use crate::registry::Registry;
use crate::resolver::{checkout_allows, ResolveError};

verus! {

/// A document that has been deleted is unknown to every later operation:
/// reading it at any revision, asking for its history, listing it and saving
/// it all answer that it is not found.
pub proof fn law_deleted_document_is_not_found(
    before: Registry,
    after: Registry,
    id: DocumentId,
    revision: Seq<char>,
    written: bool,
    parent: Seq<char>,
    read: Result<String, ResolveError>,
    log: Result<GitHistory, HistoryError>,
    listed: Result<Timeline, ListError>,
    prepared: Result<String, SaveError>,
    saved: Result<GitCommit, SaveError>,
)
    requires
        after@ == before@.remove(id.value),
        checkout_allows(after.knows(id), revision, read),
        history_allows(after.knows(id), log),
        timeline_allows(after.knows(id), listed),
        prepare_allows(after.knows(id), prepared),
        save_allows(after.knows(id), written, parent, saved),
    ensures
        !after.knows(id),
        read == Err::<String, ResolveError>(ResolveError::NotFound),
        log == Err::<GitHistory, HistoryError>(HistoryError::NotFound),
        listed == Err::<Timeline, ListError>(ListError::NotFound),
        prepared == Err::<String, SaveError>(SaveError::NotFound),
        saved == Err::<GitCommit, SaveError>(SaveError::NotFound),
{
}

/// Deleting one document leaves every other document registered with the
/// repository that it had.
pub proof fn law_delete_leaves_others(before: Registry, after: Registry, id: DocumentId, other: DocumentId)
    requires
        after@ == before@.remove(id.value),
        other != id,
    ensures
        after.knows(other) == before.knows(other),
        before.knows(other) ==> after@[other.value] == before@[other.value],
{
}

/// A document is known to the registry from the moment its creation
/// succeeds and was not known before, so no creation replaces a document;
/// a creation that fails leaves no trace in the registry.
/// Either way every other document stays as it was.
pub proof fn law_create_registers_only_on_success(
    before: Registry,
    after: Registry,
    pending: NewRepository,
    name: String,
    written: bool,
    created_time: i64,
    result: Result<CreateFileResult, CreateError>,
    other: DocumentId,
)
    requires
        create_allows(before@, pending, name, written, created_time, after@, result),
        other != pending.id,
    ensures
        result is Ok ==> !before.knows(pending.id) && after.knows(pending.id)
            && after@[pending.id.value] == pending.repo,
        result is Err ==> after@ == before@,
        after.knows(other) == before.knows(other),
        before.knows(other) ==> after@[other.value] == before@[other.value],
{
}

/// A save that succeeds reports a full hash for the new commit and, as its
/// parent, exactly the parent that the caller supplied, which is a
/// well-formed hash.
pub proof fn law_saved_commit_reports_parent(
    known: bool,
    written: bool,
    parent: Seq<char>,
    saved: Result<GitCommit, SaveError>,
)
    requires
        save_allows(known, written, parent, saved),
        saved is Ok,
    ensures
        known,
        written,
        is_revision_text(parent),
        is_full_hash(saved->Ok_0.hash@),
        saved->Ok_0.parent matches Some(reported) && reported@ == parent,
{
}

/// The hash that a creation reports is a full hash, and it is accepted as a
/// revision of the new document: reading the document at that hash is refused neither as
/// malformed nor for want of the document. What the repository then finds
/// under the hash is up to the repository.
pub proof fn law_created_hash_is_a_revision(
    before: Registry,
    after: Registry,
    pending: NewRepository,
    name: String,
    written: bool,
    created_time: i64,
    created: Result<CreateFileResult, CreateError>,
    read: Result<String, ResolveError>,
)
    requires
        create_allows(before@, pending, name, written, created_time, after@, created),
        created is Ok,
        checkout_allows(after.knows(created->Ok_0.id), created->Ok_0.hash@, read),
    ensures
        after.knows(created->Ok_0.id),
        is_full_hash(created->Ok_0.hash@),
        read != Err::<String, ResolveError>(ResolveError::BadRevision),
{
    lemma_full_hash_names_a_revision(created->Ok_0.hash@);
}

/// The hash that a save reports is accepted as a revision and as the parent
/// of a further save of the same document: neither is refused as malformed
/// or for want of the document.
pub proof fn law_saved_hash_is_a_revision(
    registry: Registry,
    id: DocumentId,
    parent: Seq<char>,
    saved: Result<GitCommit, SaveError>,
    read: Result<String, ResolveError>,
    next: Result<GitCommit, SaveError>,
)
    requires
        save_allows(registry.knows(id), true, parent, saved),
        saved is Ok,
        checkout_allows(registry.knows(id), saved->Ok_0.hash@, read),
        save_allows(registry.knows(id), true, saved->Ok_0.hash@, next),
    ensures
        read != Err::<String, ResolveError>(ResolveError::BadRevision),
        next is Ok ==> (next->Ok_0.parent matches Some(reported) && reported@
            == saved->Ok_0.hash@),
        next != Err::<GitCommit, SaveError>(SaveError::NotFound),
{
    lemma_full_hash_names_a_revision(saved->Ok_0.hash@);
}

/// Saves that succeed one after the other, each on top of the hash that the
/// one before it reported and the first on top of `root`, report a single
/// chain: every reported commit names the one before it as its parent, and
/// the first names `root`. What the repository holds after them is up to the
/// repository.
pub proof fn law_reported_saves_form_a_chain(
    known: bool,
    root: Seq<char>,
    parents: Seq<Seq<char>>,
    saved: Seq<Result<GitCommit, SaveError>>,
)
    requires
        parents.len() == saved.len(),
        forall|k: int| 0 <= k < saved.len() ==> (#[trigger] saved[k]) is Ok,
        forall|k: int|
            0 <= k < saved.len() ==> save_allows(known, true, parents[k], #[trigger] saved[k]),
        forall|k: int|
            0 <= k < saved.len() ==> #[trigger] parents[k] == (if k == 0 {
                root
            } else {
                saved[k - 1]->Ok_0.hash@
            }),
    ensures
        forall|k: int|
            0 <= k < saved.len() ==> ((#[trigger] saved[k])->Ok_0.parent matches Some(parent)
                && parent@ == (if k == 0 {
                root
            } else {
                saved[k - 1]->Ok_0.hash@
            })),
{
    assert forall|k: int| 0 <= k < saved.len() implies ((#[trigger] saved[k])->Ok_0.parent matches Some(
        parent,
    ) && parent@ == (if k == 0 {
        root
    } else {
        saved[k - 1]->Ok_0.hash@
    })) by {
        assert(save_allows(known, true, parents[k], saved[k]));
        assert(parents[k] == (if k == 0 {
            root
        } else {
            saved[k - 1]->Ok_0.hash@
        }));
    }
}

} // verus!
