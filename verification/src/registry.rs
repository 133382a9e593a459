//! The registry: which documents exist, and the open repository of each.
//!
//! The registry is the one map from document identity to repository handle.
//! It is filled once, from the directories found under the repository root,
//! and changes afterwards only when a document is created or deleted. Callers
//! share it behind one lock and hold that lock for as long as they work on any
//! repository.

use std::collections::HashMap;
use vstd::prelude::*;
use vstd::std_specs::hash::*;
use vstd::std_specs::iter::IteratorSpec;
use crate::api::DocumentId;
use crate::git::open_repository;
use crate::layout::{join, joined};

verus! {

broadcast use vstd::std_specs::hash::group_hash_axioms;

/// The map from document identity to open repository.
pub struct Registry {
    repos: HashMap<u128, git2::Repository>,
}

/// One entry of the repository root, as the caller found it there.
#[derive(Clone, Debug, PartialEq, Eq)]
pub struct DirectoryEntry {
    pub name: String,
    pub is_dir: bool,
}

/// Why a document could not be deleted.
#[derive(Clone, Copy, Debug, PartialEq, Eq, Structural)]
pub enum DeleteError {
    /// No such document is registered.
    NotFound,
    /// The document is no longer registered, but its directory is still on
    /// disk.
    DirectoryRemains,
}

impl View for Registry {
    type V = Map<u128, git2::Repository>;

    closed spec fn view(&self) -> Map<u128, git2::Repository> {
        self.repos@
    }
}

/// A directory of the repository root that is named by a document identity
/// and may therefore hold that document's repository.
#[derive(Clone, Debug, PartialEq, Eq)]
pub struct Candidate {
    pub id: DocumentId,
    pub path: String,
}

/// The directory of a document's repository under `root`.
pub open spec fn repository_path(root: Seq<char>, id: DocumentId) -> Seq<char> {
    joined(root, id.text())
}

/// Whether some directory among `entries` is named by the identity `value`.
pub open spec fn names_directory(entries: Seq<DirectoryEntry>, value: u128) -> bool {
    exists|i: int|
        0 <= i < entries.len() && (#[trigger] entries[i]).is_dir && DocumentId::parsed(
            entries[i].name@,
        ) == Some(DocumentId { value })
}

/// Whether an entry of the repository root is a directory whose name is a
/// document identity.
pub open spec fn is_candidate(entry: DirectoryEntry) -> bool {
    entry.is_dir && DocumentId::parsed(entry.name@) is Some
}

/// The identity and the path of every candidate among `entries`, in their
/// order.
pub open spec fn candidates_of(root: Seq<char>, entries: Seq<DirectoryEntry>) -> Seq<
    (DocumentId, Seq<char>),
>
    decreases entries.len(),
{
    if entries.len() == 0 {
        Seq::empty()
    } else {
        let rest = candidates_of(root, entries.drop_last());
        let last = entries.last();
        if is_candidate(last) {
            rest.push((DocumentId::parsed(last.name@)->0, joined(root, last.name@)))
        } else {
            rest
        }
    }
}

/// The identity and the path of each candidate.
pub open spec fn candidate_views(found: Seq<Candidate>) -> Seq<(DocumentId, Seq<char>)> {
    Seq::new(found.len(), |i: int| (found[i].id, found[i].path@))
}

/// Every candidate is a directory among the entries that is named by the
/// candidate's identity.
pub proof fn lemma_candidates_are_directories(root: Seq<char>, entries: Seq<DirectoryEntry>)
    ensures
        forall|k: int|
            0 <= k < candidates_of(root, entries).len() ==> names_directory(
                entries,
                (#[trigger] candidates_of(root, entries)[k]).0.value,
            ),
    decreases entries.len(),
{
    if entries.len() > 0 {
        let rest = entries.drop_last();
        lemma_candidates_are_directories(root, rest);
        assert forall|k: int| 0 <= k < candidates_of(root, entries).len() implies names_directory(
            entries,
            (#[trigger] candidates_of(root, entries)[k]).0.value,
        ) by {
            let value = candidates_of(root, entries)[k].0.value;
            if k < candidates_of(root, rest).len() {
                assert(candidates_of(root, entries)[k] == candidates_of(root, rest)[k]);
                assert(names_directory(rest, value));
                let i = choose|i: int|
                    0 <= i < rest.len() && (#[trigger] rest[i]).is_dir && DocumentId::parsed(
                        rest[i].name@,
                    ) == Some(DocumentId { value });
                assert(entries[i] == rest[i]);
            } else {
                assert(entries[entries.len() - 1] == entries.last());
            }
        }
    }
}

/// The directories among the entries of the repository root that are named
/// by a document identity, each with the path under which it is opened.
pub fn candidates(root: &str, entries: &Vec<DirectoryEntry>) -> (found: Vec<Candidate>)
    ensures
        candidate_views(found@) == candidates_of(root@, entries@),
{
    let mut found: Vec<Candidate> = Vec::new();
    let mut i: usize = 0;
    while i < entries.len()
        invariant
            i <= entries.len(),
            candidate_views(found@) == candidates_of(root@, entries@.take(i as int)),
        decreases entries.len() - i,
    {
        let entry = &entries[i];
        proof {
            assert(entries@.take(i + 1).drop_last() =~= entries@.take(i as int));
            assert(entries@.take(i + 1).last() == entries@[i as int]);
        }
        if entry.is_dir {
            if let Some(id) = DocumentId::parse(entry.name.as_str()) {
                let path = join(root, entry.name.as_str());
                let ghost before = candidate_views(found@);
                found.push(Candidate { id, path });
                assert(candidate_views(found@) =~= before.push((id, path@)));
            }
        }
        i = i + 1;
    }
    proof {
        assert(entries@.take(entries.len() as int) =~= entries@);
    }
    found
}

/// A candidate after the attempt to open it: its identity, and its
/// repository where it opened as one.
pub struct Opened {
    pub id: DocumentId,
    pub repo: Option<git2::Repository>,
}

/// Whether `opened` holds one attempt for each of the candidates `found`, in
/// their order.
pub open spec fn attempts(found: Seq<(DocumentId, Seq<char>)>, opened: Seq<Opened>) -> bool {
    &&& opened.len() == found.len()
    &&& forall|i: int| 0 <= i < opened.len() ==> (#[trigger] opened[i]).id == found[i].0
}

/// The registry that the attempts amount to: every candidate that opened is
/// registered under its identity, a later one in place of an earlier one of
/// the same identity.
pub open spec fn registered(opened: Seq<Opened>) -> Map<u128, git2::Repository>
    decreases opened.len(),
{
    if opened.len() == 0 {
        Map::empty()
    } else {
        let rest = registered(opened.drop_last());
        match opened.last().repo {
            Some(repo) => rest.insert(opened.last().id.value, repo),
            None => rest,
        }
    }
}

/// Only candidates that opened are registered.
pub proof fn lemma_registered_were_opened(opened: Seq<Opened>)
    ensures
        forall|value: u128| #[trigger]
            registered(opened).contains_key(value) ==> exists|j: int|
                0 <= j < opened.len() && (#[trigger] opened[j]).id.value == value
                    && opened[j].repo is Some,
    decreases opened.len(),
{
    if opened.len() > 0 {
        let rest = opened.drop_last();
        lemma_registered_were_opened(rest);
        assert forall|value: u128| #[trigger]
            registered(opened).contains_key(value) implies exists|j: int|
            0 <= j < opened.len() && (#[trigger] opened[j]).id.value == value
                && opened[j].repo is Some by {
            if registered(rest).contains_key(value) {
                let j = choose|j: int|
                    0 <= j < rest.len() && (#[trigger] rest[j]).id.value == value
                        && rest[j].repo is Some;
                assert(opened[j] == rest[j]);
            } else {
                assert(opened[opened.len() - 1] == opened.last());
            }
        }
    }
}

/// Every candidate that opened is registered, with the repository of the
/// last attempt under its identity that opened.
pub proof fn lemma_opened_are_registered(opened: Seq<Opened>, j: int)
    requires
        0 <= j < opened.len(),
        opened[j].repo is Some,
    ensures
        registered(opened).contains_key(opened[j].id.value),
        (forall|k: int|
            j < k < opened.len() ==> !((#[trigger] opened[k]).id == opened[j].id
                && opened[k].repo is Some)) ==> registered(opened)[opened[j].id.value]
            == opened[j].repo->0,
    decreases opened.len(),
{
    let rest = opened.drop_last();
    if j < opened.len() - 1 {
        assert(rest[j] == opened[j]);
        lemma_opened_are_registered(rest, j);
        assert(opened[opened.len() - 1] == opened.last());
        if forall|k: int|
            j < k < opened.len() ==> !((#[trigger] opened[k]).id == opened[j].id
                && opened[k].repo is Some) {
            assert forall|k: int| j < k < rest.len() implies !((#[trigger] rest[k]).id
                == rest[j].id && rest[k].repo is Some) by {
                assert(rest[k] == opened[k]);
            }
        }
    }
}

impl Registry {
    /// A registry without documents.
    pub fn new() -> (registry: Registry)
        ensures
            registry@ == Map::<u128, git2::Repository>::empty(),
    {
        Registry { repos: HashMap::new() }
    }

    /// Whether the document is registered.
    pub open spec fn knows(&self, id: DocumentId) -> bool {
        self@.contains_key(id.value)
    }

    pub fn len(&self) -> (n: usize)
        ensures
            n == self@.len(),
    {
        self.repos.len()
    }

    pub fn contains(&self, id: DocumentId) -> (known: bool)
        ensures
            known == self.knows(id),
    {
        self.repos.contains_key(&id.value)
    }

    /// The repository of a document, if the document is registered.
    pub fn get(&self, id: DocumentId) -> (found: Option<&git2::Repository>)
        ensures
            match found {
                Some(repo) => self.knows(id) && *repo == self@[id.value],
                None => !self.knows(id),
            },
    {
        self.repos.get(&id.value)
    }

    /// Registers a document, in place of any that had the same identity.
    pub fn insert(&mut self, id: DocumentId, repo: git2::Repository)
        ensures
            final(self)@ == old(self)@.insert(id.value, repo),
    {
        self.repos.insert(id.value, repo);
    }

    /// Takes a document out of the registry and hands back its repository.
    pub fn remove(&mut self, id: DocumentId) -> (removed: Option<git2::Repository>)
        ensures
            final(self)@ == old(self)@.remove(id.value),
            match removed {
                Some(repo) => old(self).knows(id) && repo == old(self)@[id.value],
                None => !old(self).knows(id),
            },
    {
        self.repos.remove(&id.value)
    }

    /// The identity of every registered document, each once, in no
    /// particular order.
    pub fn ids(&self) -> (ids: Vec<DocumentId>)
        ensures
            ids@.no_duplicates(),
            ids@.len() == self@.len(),
            forall|id: DocumentId| ids@.contains(id) <==> self.knows(id),
    {
        let mut ids: Vec<DocumentId> = Vec::new();
        let keys = self.repos.keys();
        let ghost all = keys.remaining();
        for key in it: keys
            invariant
                all == it.seq(),
                all.no_duplicates(),
                all.len() == self@.dom().len(),
                all.unref().to_set() == self@.dom(),
                ids@.len() == it.index(),
                forall|j: int| 0 <= j < ids@.len() ==> (#[trigger] ids@[j]).value == *all[j],
        {
            ids.push(DocumentId { value: *key });
        }
        proof {
            assert forall|a: int, b: int| 0 <= a < ids@.len() && 0 <= b < ids@.len() && a != b implies ids@[a] != ids@[b] by {
                assert(*all[a] != *all[b]);
            }
            assert forall|id: DocumentId| ids@.contains(id) <==> self.knows(id) by {
                if ids@.contains(id) {
                    let j = choose|j: int| 0 <= j < ids@.len() && ids@[j] == id;
                    assert(all.unref()[j] == id.value);
                    assert(all.unref().to_set().contains(id.value));
                }
                if self.knows(id) {
                    assert(all.unref().to_set().contains(id.value));
                    let j = choose|j: int| 0 <= j < all.unref().len() && all.unref()[j] == id.value;
                    assert(ids@[j] == id);
                }
            }
        }
        ids
    }

    /// Runs `action` on the repository of a document. Nothing runs for a
    /// document that is not registered.
    pub fn with_repository<R, F: FnOnce(&git2::Repository) -> R>(
        &self,
        id: DocumentId,
        action: F,
    ) -> (result: Option<R>)
        requires
            self.knows(id) ==> action.requires((&self@[id.value],)),
        ensures
            match result {
                Some(value) => self.knows(id) && action.ensures((&self@[id.value],), value),
                None => !self.knows(id),
            },
    {
        match self.repos.get(&id.value) {
            Some(repo) => Some(action(repo)),
            None => None,
        }
    }

    /// Removes a document from the registry and names the directory that the
    /// caller is to remove from disk. The entry is gone before the directory
    /// is touched.
    pub fn delete(&mut self, root: &str, id: DocumentId) -> (directory: Result<String, DeleteError>)
        ensures
            match directory {
                Ok(path) => old(self).knows(id) && final(self)@ == old(self)@.remove(id.value)
                    && path@ == repository_path(root@, id),
                Err(e) => e == DeleteError::NotFound && !old(self).knows(id) && final(self)@ == old(
                    self,
                )@,
            },
    {
        match self.repos.remove(&id.value) {
            None => {
                assert(self@ =~= old(self)@);
                Err(DeleteError::NotFound)
            },
            Some(_) => {
                let name = id.to_text();
                Ok(join(root, name.as_str()))
            },
        }
    }

    /// Registers every candidate that opened as a repository, in the order of
    /// the attempts.
    pub fn register_opened(opened: Vec<Opened>) -> (registry: Registry)
        ensures
            registry@ == registered(opened@),
    {
        let mut registry = Registry::new();
        let ghost all = opened@;
        for item in it: opened
            invariant
                it.seq() == all,
                registry@ == registered(all.take(it.index())),
        {
            proof {
                let next = all.take(it.index() + 1);
                assert(next.drop_last() =~= all.take(it.index()));
                assert(next.last() == item);
            }
            let id = item.id;
            match item.repo {
                Some(repo) => {
                    registry.insert(id, repo);
                },
                None => {},
            }
        }
        proof {
            assert(all.take(all.len() as int) =~= all);
        }
        registry
    }

    /// Builds the registry from the entries of the repository root. Every
    /// candidate is opened, in the order of the entries; one that opens as a
    /// repository is registered under its identity, in place of any that was
    /// registered under it before. Every other entry is passed over. Which
    /// candidates open is up to what is on disk; the registry is what those
    /// attempts amount to, so every registered document is named by a
    /// directory among the entries.
    pub fn discover(root: &str, entries: &Vec<DirectoryEntry>) -> (registry: Registry)
        ensures
            exists|opened: Seq<Opened>| #[trigger]
                attempts(candidates_of(root@, entries@), opened) && registry@ == registered(
                    opened,
                ),
            forall|value: u128| #[trigger]
                registry@.contains_key(value) ==> names_directory(entries@, value),
    {
        let found = candidates(root, entries);
        let mut opened: Vec<Opened> = Vec::new();
        let mut i: usize = 0;
        while i < found.len()
            invariant
                i <= found.len(),
                opened@.len() == i,
                forall|j: int| 0 <= j < i ==> (#[trigger] opened@[j]).id == found@[j].id,
            decreases found.len() - i,
        {
            let candidate = &found[i];
            let repo = match open_repository(candidate.path.as_str()) {
                Ok(repo) => Some(repo),
                Err(_) => None,
            };
            opened.push(Opened { id: candidate.id, repo });
            i = i + 1;
        }
        let ghost tried = opened@;
        let registry = Registry::register_opened(opened);
        proof {
            let expected = candidates_of(root@, entries@);
            assert(attempts(expected, tried)) by {
                assert forall|j: int| 0 <= j < tried.len() implies (#[trigger] tried[j]).id
                    == expected[j].0 by {
                    assert(candidate_views(found@)[j].0 == found@[j].id);
                }
            }
            lemma_registered_were_opened(tried);
            lemma_candidates_are_directories(root@, entries@);
            assert forall|value: u128| #[trigger] registry@.contains_key(value) implies names_directory(
                entries@,
                value,
            ) by {
                let j = choose|j: int|
                    0 <= j < tried.len() && (#[trigger] tried[j]).id.value == value
                        && tried[j].repo is Some;
                assert(expected[j].0.value == value);
            }
        }
        registry
    }
}

/// What deleting a document comes to, once the caller has tried to remove
/// its directory: an error if the directory is still there.
pub fn deletion_outcome(directory_removed: bool) -> (outcome: Result<(), DeleteError>)
    ensures
        outcome == (if directory_removed {
            Ok::<(), DeleteError>(())
        } else {
            Err(DeleteError::DirectoryRemains)
        }),
{
    if directory_removed {
        Ok(())
    } else {
        Err(DeleteError::DirectoryRemains)
    }
}

} // verus!
