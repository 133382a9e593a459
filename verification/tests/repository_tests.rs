//! The operations of the service on real repositories. The file work that
//! the library leaves to its caller is done here through `git2` itself.

use remote_text_server::api::{CreateFileResult, DocumentId, File, GitCommit};
use remote_text_server::creator::{
    begin_create, create_outcome, finish_create, finish_create_at, CreateError, NewRepository,
};
use remote_text_server::errors::{status_code, STATUS_OK};
use remote_text_server::history::{history, HistoryError};
use remote_text_server::listing::{summarize, timeline, ListError};
use remote_text_server::mutator::{prepare_save, save, SaveError};
use remote_text_server::normal_date_format::now;
use remote_text_server::registry::{
    deletion_outcome, DeleteError, DirectoryEntry, Opened, Registry,
};
use remote_text_server::resolver::{
    checkout_revision, file_count, read_working_file, ResolveError, WorkEntry,
};

fn scratch_root(tag: &str) -> String {
    format!("/tmp/remote_text_server_tests/{}-{}", tag, DocumentId::fresh().to_text())
}

/// Replaces the content of the working directory with one file.
fn put_file(repo: &git2::Repository, name: &str, content: &str) {
    let blob = repo.blob(content.as_bytes()).unwrap();
    let mut builder = repo.treebuilder(None).unwrap();
    builder.insert(name, blob, 0o100644).unwrap();
    let tree = repo.find_tree(builder.write().unwrap()).unwrap();
    let mut options = git2::build::CheckoutBuilder::new();
    options.force().remove_untracked(true);
    repo.checkout_tree(tree.as_object(), Some(&mut options)).unwrap();
}

/// Lists a working directory, with the content of every regular file.
fn list_entries(repo: &git2::Repository, directory: &str) -> Vec<WorkEntry> {
    let mut entries = Vec::new();
    for item in std::path::Path::new(directory).read_dir().unwrap() {
        let item = item.unwrap();
        let path = item.path();
        let is_file = path.is_file();
        let name = item.file_name().to_str().map(|n| n.to_string());
        let content = if is_file {
            repo.blob_path(&path)
                .ok()
                .and_then(|oid| repo.find_blob(oid).ok())
                .and_then(|blob| String::from_utf8(blob.content().to_vec()).ok())
        } else {
            None
        };
        entries.push(WorkEntry { name, is_file, content });
    }
    entries
}

fn create(registry: &mut Registry, root: &str, name: &str, content: Option<&str>) -> CreateFileResult {
    let pending = begin_create(root).unwrap();
    put_file(&pending.repo, name, content.unwrap_or(""));
    finish_create(registry, pending, name.to_string(), true, "127.0.0.1:4000").unwrap()
}

fn resolve(registry: &Registry, id: DocumentId, hash: &str) -> Result<File, ResolveError> {
    let directory = checkout_revision(registry, id, hash)?;
    let entries = list_entries(registry.get(id).unwrap(), &directory);
    read_working_file(id, &entries)
}

fn save_document(
    registry: &Registry,
    id: DocumentId,
    name: &str,
    content: &str,
    parent: &str,
    branch: &str,
) -> Result<GitCommit, SaveError> {
    prepare_save(registry, id)?;
    put_file(registry.get(id).unwrap(), name, content);
    save(registry, id, true, parent, branch, "127.0.0.1:4000")
}

fn is_hash(text: &str) -> bool {
    text.len() == 40 && text.chars().all(|c| c.is_ascii_digit() || ('a'..='f').contains(&c))
}

#[test]
fn create_then_resolve_returns_the_content() {
    let root = scratch_root("round-trip");
    let mut registry = Registry::new();
    for content in ["hello", "", "two\nlines\n", "caf\u{e9} \u{1F600}"] {
        let created = create(&mut registry, &root, "a.txt", Some(content));
        assert!(is_hash(&created.hash));
        assert_eq!(created.name, "a.txt");
        assert!(registry.contains(created.id));
        let file = resolve(&registry, created.id, &created.hash).unwrap();
        assert_eq!(
            file,
            File { name: "a.txt".to_string(), id: created.id, content: content.to_string() }
        );
    }
    assert_eq!(registry.len(), 4);
}

#[test]
fn save_then_resolve_returns_the_new_content() {
    let root = scratch_root("save");
    let mut registry = Registry::new();
    let created = create(&mut registry, &root, "a.txt", Some("first"));
    let saved =
        save_document(&registry, created.id, "a.txt", "second", &created.hash, "main").unwrap();
    assert!(is_hash(&saved.hash));
    assert_ne!(saved.hash, created.hash);
    assert_eq!(saved.parent, Some(created.hash.clone()));
    assert_eq!(resolve(&registry, created.id, &saved.hash).unwrap().content, "second");
    assert_eq!(resolve(&registry, created.id, &created.hash).unwrap().content, "first");
}

#[test]
fn save_may_rename_the_working_file() {
    let root = scratch_root("rename");
    let mut registry = Registry::new();
    let created = create(&mut registry, &root, "old.txt", Some("body"));
    let saved =
        save_document(&registry, created.id, "new.md", "body", &created.hash, "main").unwrap();
    let directory = checkout_revision(&registry, created.id, &saved.hash).unwrap();
    let entries = list_entries(registry.get(created.id).unwrap(), &directory);
    assert_eq!(file_count(&entries), 1);
    assert_eq!(read_working_file(created.id, &entries).unwrap().name, "new.md");
    assert_eq!(resolve(&registry, created.id, &created.hash).unwrap().name, "old.txt");
}

#[test]
fn history_of_sequential_saves_is_one_chain() {
    let root = scratch_root("chain");
    let mut registry = Registry::new();
    let created = create(&mut registry, &root, "a.txt", Some("0"));
    let saves = 5;
    let mut tip = created.hash.clone();
    let mut hashes = vec![tip.clone()];
    for n in 1..=saves {
        let saved =
            save_document(&registry, created.id, "a.txt", &n.to_string(), &tip, "main").unwrap();
        tip = saved.hash;
        hashes.push(tip.clone());
    }
    let log = history(&registry, created.id).unwrap();
    assert_eq!(log.commits.len(), saves + 1);
    let main = log.refs.iter().find(|r| r.name == "main").unwrap();
    assert_eq!(main.hash, tip);
    let mut at = Some(tip);
    let mut walked = Vec::new();
    while let Some(hash) = at {
        let commit = log.commits.iter().find(|c| c.hash == hash).unwrap();
        walked.push(commit.hash.clone());
        at = commit.parent.clone();
    }
    walked.reverse();
    assert_eq!(walked, hashes);
}

#[test]
fn example_scenario() {
    let root = scratch_root("example");
    let mut registry = Registry::new();
    let created = create(&mut registry, &root, "a.txt", Some("hello"));
    let x = created.id;
    let h0 = created.hash;
    let file = resolve(&registry, x, &h0).unwrap();
    assert_eq!((file.name.as_str(), file.content.as_str()), ("a.txt", "hello"));
    let saved = save_document(&registry, x, "a.txt", "world", &h0, "main").unwrap();
    let h1 = saved.hash.clone();
    assert_eq!(saved, GitCommit { hash: h1.clone(), parent: Some(h0.clone()) });
    let file = resolve(&registry, x, &h1).unwrap();
    assert_eq!((file.name.as_str(), file.content.as_str()), ("a.txt", "world"));
    let log = history(&registry, x).unwrap();
    assert_eq!(log.commits.len(), 2);
    let newest = log.commits.iter().find(|c| c.hash == h1).unwrap();
    assert_eq!(newest.parent, Some(h0.clone()));
    let oldest = log.commits.iter().find(|c| c.hash == h0).unwrap();
    assert_eq!(oldest.parent, None);
}

#[test]
fn saves_to_two_documents_do_not_interfere() {
    let root = scratch_root("pair");
    let mut registry = Registry::new();
    let one = create(&mut registry, &root, "one.txt", Some("1"));
    let two = create(&mut registry, &root, "two.txt", Some("2"));
    let saved_one = save_document(&registry, one.id, "one.txt", "1'", &one.hash, "main").unwrap();
    let saved_two = save_document(&registry, two.id, "two.txt", "2'", &two.hash, "main").unwrap();
    assert_eq!(resolve(&registry, one.id, &saved_one.hash).unwrap().content, "1'");
    assert_eq!(resolve(&registry, two.id, &saved_two.hash).unwrap().content, "2'");
    assert_eq!(history(&registry, one.id).unwrap().commits.len(), 2);
    assert_eq!(history(&registry, two.id).unwrap().commits.len(), 2);
    assert_eq!(
        resolve(&registry, one.id, &saved_two.hash).unwrap_err(),
        ResolveError::NotFound
    );
}

#[test]
fn stale_parent_gives_a_divergent_branch() {
    let root = scratch_root("stale");
    let mut registry = Registry::new();
    let created = create(&mut registry, &root, "a.txt", Some("base"));
    let left = save_document(&registry, created.id, "a.txt", "left", &created.hash, "main").unwrap();
    let right =
        save_document(&registry, created.id, "a.txt", "right", &created.hash, "main").unwrap();
    assert_eq!(right.parent, Some(created.hash.clone()));
    let log = history(&registry, created.id).unwrap();
    assert_eq!(log.commits.len(), 3);
    assert_eq!(log.refs.iter().find(|r| r.name == "main").unwrap().hash, right.hash);
    assert_eq!(resolve(&registry, created.id, &left.hash).unwrap().content, "left");
}

#[test]
fn save_on_an_older_revision_under_another_branch() {
    let root = scratch_root("branch");
    let mut registry = Registry::new();
    let created = create(&mut registry, &root, "a.txt", Some("v0"));
    let v1 = save_document(&registry, created.id, "a.txt", "v1", &created.hash, "main").unwrap();
    let side = save_document(&registry, created.id, "a.txt", "s1", &created.hash, "side").unwrap();
    let log = history(&registry, created.id).unwrap();
    assert_eq!(log.refs.iter().find(|r| r.name == "main").unwrap().hash, v1.hash);
    assert_eq!(log.refs.iter().find(|r| r.name == "side").unwrap().hash, side.hash);
}

#[test]
fn delete_forgets_the_document() {
    let root = scratch_root("delete");
    let mut registry = Registry::new();
    let unknown = DocumentId { value: 7 };
    assert_eq!(registry.delete(&root, unknown), Err(DeleteError::NotFound));
    let created = create(&mut registry, &root, "a.txt", Some("x"));
    let other = create(&mut registry, &root, "b.txt", Some("y"));
    let directory = registry.delete(&root, created.id).unwrap();
    assert_eq!(directory, format!("{}/{}", root, created.id.to_text()));
    assert!(!registry.contains(created.id));
    assert!(registry.contains(other.id));
    assert_eq!(
        checkout_revision(&registry, created.id, &created.hash),
        Err(ResolveError::NotFound)
    );
    assert_eq!(history(&registry, created.id), Err(HistoryError::NotFound));
    assert_eq!(timeline(&registry, created.id), Err(ListError::NotFound));
    assert_eq!(prepare_save(&registry, created.id), Err(SaveError::NotFound));
    assert_eq!(
        save(&registry, created.id, true, &created.hash, "main", "someone"),
        Err(SaveError::NotFound)
    );
    assert_eq!(registry.delete(&root, created.id), Err(DeleteError::NotFound));
    assert_eq!(deletion_outcome(true), Ok(()));
    assert_eq!(deletion_outcome(false), Err(DeleteError::DirectoryRemains));
}

#[test]
fn resolve_errors() {
    let root = scratch_root("resolve-errors");
    let mut registry = Registry::new();
    let created = create(&mut registry, &root, "a.txt", Some("x"));
    let id = created.id;
    assert_eq!(checkout_revision(&registry, id, "not a hash"), Err(ResolveError::BadRevision));
    assert_eq!(checkout_revision(&registry, id, ""), Err(ResolveError::BadRevision));
    let long = "a".repeat(41);
    assert_eq!(checkout_revision(&registry, id, &long), Err(ResolveError::BadRevision));
    let absent = "0123456789abcdef0123456789abcdef01234567";
    assert_eq!(checkout_revision(&registry, id, absent), Err(ResolveError::NotFound));
    assert_eq!(
        checkout_revision(&registry, DocumentId { value: 1 }, &created.hash),
        Err(ResolveError::NotFound)
    );
    assert_eq!(
        checkout_revision(&registry, DocumentId { value: 1 }, "not a hash"),
        Err(ResolveError::NotFound)
    );
    let upper = created.hash.to_uppercase();
    assert!(checkout_revision(&registry, id, &upper).is_ok());
}

#[test]
fn save_errors() {
    let root = scratch_root("save-errors");
    let mut registry = Registry::new();
    let created = create(&mut registry, &root, "a.txt", Some("x"));
    let id = created.id;
    assert_eq!(save(&registry, id, false, &created.hash, "main", "me"), Err(SaveError::InternalError));
    assert_eq!(save(&registry, id, false, "zz", "main", "me"), Err(SaveError::InternalError));
    assert_eq!(save(&registry, id, true, "zz", "main", "me"), Err(SaveError::BadParent));
    assert_eq!(save(&registry, id, true, "", "main", "me"), Err(SaveError::BadParent));
    let absent = "0123456789abcdef0123456789abcdef01234567";
    assert_eq!(save(&registry, id, true, absent, "main", "me"), Err(SaveError::BadParent));
    assert_eq!(
        save(&registry, id, true, &created.hash, "no good..name", "me"),
        Err(SaveError::InternalError)
    );
    assert_eq!(
        save(&registry, id, true, &created.hash, "main", "<me>"),
        Err(SaveError::InternalError)
    );
    assert_eq!(
        save(&registry, DocumentId { value: 3 }, false, "zz", "main", "me"),
        Err(SaveError::NotFound)
    );
    assert_eq!(history(&registry, id).unwrap().commits.len(), 1);
}

#[test]
fn save_reports_the_parent_as_given() {
    let root = scratch_root("parent");
    let mut registry = Registry::new();
    let created = create(&mut registry, &root, "a.txt", Some("x"));
    let upper = created.hash.to_uppercase();
    let saved = save_document(&registry, created.id, "a.txt", "y", &upper, "main").unwrap();
    assert_eq!(saved.parent, Some(upper));
    let log = history(&registry, created.id).unwrap();
    let recorded = log.commits.iter().find(|c| c.hash == saved.hash).unwrap();
    assert_eq!(recorded.parent, Some(created.hash));
}

#[test]
fn create_errors() {
    let mut registry = Registry::new();
    assert_eq!(begin_create("/dev/null/nowhere").err(), Some(CreateError::RepositoryCreationError));
    let root = scratch_root("create-errors");
    let pending = begin_create(&root).unwrap();
    assert_eq!(
        finish_create(&mut registry, pending, "a.txt".to_string(), false, "me"),
        Err(CreateError::FileWriteError)
    );
    let pending = begin_create(&root).unwrap();
    put_file(&pending.repo, "a.txt", "x");
    assert_eq!(
        finish_create(&mut registry, pending, "a.txt".to_string(), true, "<me>"),
        Err(CreateError::CommitError)
    );
    assert_eq!(registry.len(), 0);
}

#[test]
fn create_names_the_directory_after_the_identity() {
    let root = scratch_root("directory");
    let pending = begin_create(&root).unwrap();
    assert_eq!(pending.directory, format!("{}/{}", root, pending.id.to_text()));
    assert!(std::path::Path::new(&pending.directory).join(".git").is_dir());
}

#[test]
fn discover_registers_the_repositories_under_the_root() {
    let root = scratch_root("discover");
    let mut first = Registry::new();
    let a = create(&mut first, &root, "a.txt", Some("a"));
    let b = create(&mut first, &root, "b.txt", Some("b"));
    let stranger = DocumentId::fresh();
    let entries = vec![
        DirectoryEntry { name: a.id.to_text(), is_dir: true },
        DirectoryEntry { name: b.id.to_text(), is_dir: false },
        DirectoryEntry { name: "notes".to_string(), is_dir: true },
        DirectoryEntry { name: stranger.to_text(), is_dir: true },
    ];
    let found = Registry::discover(&root, &entries);
    assert_eq!(found.len(), 1);
    assert!(found.contains(a.id));
    assert!(!found.contains(b.id));
    assert!(!found.contains(stranger));
    assert_eq!(resolve(&found, a.id, &a.hash).unwrap().content, "a");
    let all = vec![
        DirectoryEntry { name: a.id.to_text(), is_dir: true },
        DirectoryEntry { name: b.id.to_text(), is_dir: true },
    ];
    let found = Registry::discover(&root, &all);
    assert_eq!(found.ids().len(), found.len());
    let mut ids = found.ids();
    ids.sort_by_key(|id| id.value);
    let mut expected = vec![a.id, b.id];
    expected.sort_by_key(|id| id.value);
    assert_eq!(ids, expected);
    assert_eq!(Registry::discover(&root, &Vec::new()).len(), 0);
}

#[test]
fn with_repository_runs_only_for_known_documents() {
    let root = scratch_root("with");
    let mut registry = Registry::new();
    let created = create(&mut registry, &root, "a.txt", Some("a"));
    let head = registry.with_repository(created.id, |repo| {
        repo.head().unwrap().target().unwrap().to_string()
    });
    assert_eq!(head, Some(created.hash));
    let mut ran = false;
    let nothing = registry.with_repository(DocumentId { value: 9 }, |_| {
        ran = true;
    });
    assert_eq!(nothing, None);
    assert!(!ran);
}

#[test]
fn listing_tells_creation_and_last_edit() {
    let root = scratch_root("listing");
    let mut registry = Registry::new();
    let created = create(&mut registry, &root, "a.txt", Some("a"));
    let id = created.id;
    let only = timeline(&registry, id).unwrap();
    assert_eq!(only.created_time, created.created_time);
    assert_eq!(only.edited_time, created.created_time);
    while now() <= created.created_time {}
    let saved = save_document(&registry, id, "b.txt", "b", &created.hash, "main").unwrap();
    let both = timeline(&registry, id).unwrap();
    assert_eq!(both.created_time, created.created_time);
    assert!(both.edited_time > both.created_time);
    let entries = list_entries(registry.get(id).unwrap(), &both.directory);
    let line = summarize(id, both.edited_time, both.created_time, &entries).unwrap();
    assert_eq!(line.name, "b.txt");
    assert_eq!(line.id, id);
    assert_eq!(resolve(&registry, id, &saved.hash).unwrap().name, "b.txt");
}

#[test]
fn listing_a_repository_without_commits_fails() {
    let root = scratch_root("empty");
    let pending = begin_create(&root).unwrap();
    let id = pending.id;
    let mut registry = Registry::new();
    registry.insert(id, pending.repo);
    assert_eq!(timeline(&registry, id), Err(ListError::NoCommits));
    let log = history(&registry, id).unwrap();
    assert_eq!(log.commits.len(), 0);
    assert_eq!(log.refs.len(), 0);
    assert!(registry.remove(id).is_some());
    assert!(registry.remove(id).is_none());
}

#[test]
fn test_get_file() {
    let root = scratch_root("get-file");
    let mut registry = Registry::new();
    let created = create(&mut registry, &root, "TestFile", None);
    assert_eq!(created.name, "TestFile");
    let head = registry
        .get(created.id)
        .unwrap()
        .revparse_single("HEAD")
        .unwrap()
        .id()
        .to_string();
    let found = resolve(&registry, created.id, &head);
    let status = match &found {
        Ok(_) => STATUS_OK,
        Err(e) => status_code(e.kind()),
    };
    assert_eq!(status, 200);
    assert_eq!(found.unwrap().name, "TestFile");
}

#[test]
fn test_get_file_filter() {
    let root = scratch_root("get-file-filter");
    let mut registry = Registry::new();
    let created = create(&mut registry, &root, "TestFile", None);
    assert_eq!(created.name, "TestFile");
    let head = registry
        .get(created.id)
        .unwrap()
        .revparse_single("HEAD")
        .unwrap()
        .id()
        .to_string();
    assert_eq!(head, created.hash);
    let status = match resolve(&registry, created.id, &head) {
        Ok(_) => STATUS_OK,
        Err(e) => status_code(e.kind()),
    };
    assert_eq!(status, 200);
}

#[test]
fn test_save_file_filter() {
    let root = scratch_root("save-file-filter");
    let mut registry = Registry::new();
    let created = create(&mut registry, &root, "TestFile", None);
    assert_eq!(created.name, "TestFile");
    let stranger = DocumentId::fresh();
    let status = match save(&registry, stranger, true, "", "", "") {
        Ok(_) => STATUS_OK,
        Err(e) => status_code(e.kind()),
    };
    assert_eq!(status, 404);
    let status = match save_document(&registry, created.id, "TestFileChild", "", "", "") {
        Ok(_) => STATUS_OK,
        Err(e) => status_code(e.kind()),
    };
    assert_eq!(status, 400);
}

#[test]
fn test_delete_file_filter() {
    let root = scratch_root("delete-file-filter");
    let mut registry = Registry::new();
    let created = create(&mut registry, &root, "TestFile", None);
    assert_eq!(created.name, "TestFile");
    let status = match registry.delete(&root, created.id) {
        Ok(_) => STATUS_OK,
        Err(e) => status_code(e.kind()),
    };
    assert_eq!(status, 200);
}

#[test]
fn delete_nonexistent_repo() {
    let mut registry = Registry::new();
    let status = match registry.delete("./files", DocumentId::fresh()) {
        Ok(_) => STATUS_OK,
        Err(e) => status_code(e.kind()),
    };
    assert_eq!(status, 404);
}

#[test]
fn filter_tests_test_create_file_filter() {
    let root = scratch_root("create-file-filter");
    let mut registry = Registry::new();
    let created = create(&mut registry, &root, "TestFile", None);
    assert_eq!(created.name, "TestFile");
    assert!(registry.contains(created.id));
}

#[test]
fn filter_tests_test_list_files_filter() {
    let root = scratch_root("list-files-filter");
    let mut registry = Registry::new();
    let a = create(&mut registry, &root, "a.txt", Some("a"));
    let b = create(&mut registry, &root, "b.txt", Some("b"));
    let mut names = Vec::new();
    for id in registry.ids() {
        let times = timeline(&registry, id).unwrap();
        let entries = list_entries(registry.get(id).unwrap(), &times.directory);
        let line = summarize(id, times.edited_time, times.created_time, &entries).unwrap();
        names.push((line.id, line.name));
    }
    names.sort_by_key(|(id, _)| id.value);
    let mut expected = vec![(a.id, "a.txt".to_string()), (b.id, "b.txt".to_string())];
    expected.sort_by_key(|(id, _)| id.value);
    assert_eq!(names, expected);
}

#[test]
fn opened_candidates_are_registered_in_order() {
    let root = scratch_root("opened");
    let first = begin_create(&root).unwrap();
    let second = begin_create(&root).unwrap();
    let third = begin_create(&root).unwrap();
    let (a, b) = (first.id, second.id);
    let closed = DocumentId { value: 5 };
    let last_path = third.repo.path().to_path_buf();
    let opened = vec![
        Opened { id: a, repo: Some(first.repo) },
        Opened { id: closed, repo: None },
        Opened { id: b, repo: Some(second.repo) },
        Opened { id: a, repo: Some(third.repo) },
    ];
    let registry = Registry::register_opened(opened);
    assert_eq!(registry.len(), 2);
    assert!(registry.contains(a));
    assert!(registry.contains(b));
    assert!(!registry.contains(closed));
    assert_eq!(registry.get(a).unwrap().path(), last_path.as_path());
    assert_eq!(Registry::register_opened(Vec::new()).len(), 0);
    let none = vec![Opened { id: a, repo: None }, Opened { id: b, repo: None }];
    assert_eq!(Registry::register_opened(none).len(), 0);
}

#[test]
fn listing_walks_every_branch() {
    let root = scratch_root("branches");
    let mut registry = Registry::new();
    let created = create(&mut registry, &root, "a.txt", Some("a"));
    let id = created.id;
    while now() <= created.created_time {}
    let side = save_document(&registry, id, "a.txt", "side", &created.hash, "side").unwrap();
    let back = checkout_revision(&registry, id, &created.hash).unwrap();
    assert!(std::path::Path::new(&back).is_dir());
    let times = timeline(&registry, id).unwrap();
    assert_eq!(times.created_time, created.created_time);
    assert!(times.edited_time > times.created_time);
    let entries = list_entries(registry.get(id).unwrap(), &times.directory);
    assert_eq!(read_working_file(id, &entries).unwrap().content, "side");
    assert!(is_hash(&side.hash));
}

#[test]
fn creation_outcomes() {
    let root = scratch_root("outcomes");
    let mut registry = Registry::new();
    let hash = "0123456789abcdef0123456789abcdef01234567".to_string();
    let name = "a.txt".to_string();

    let pending = begin_create(&root).unwrap();
    assert_eq!(
        create_outcome(&mut registry, pending, name.clone(), 7, false, Some(hash.clone())),
        Err(CreateError::FileWriteError)
    );
    let pending = begin_create(&root).unwrap();
    assert_eq!(
        create_outcome(&mut registry, pending, name.clone(), 7, true, None),
        Err(CreateError::CommitError)
    );
    assert_eq!(registry.len(), 0);

    let pending = begin_create(&root).unwrap();
    let id = pending.id;
    assert_eq!(
        create_outcome(&mut registry, pending, name.clone(), 7, true, Some(hash.clone())),
        Ok(CreateFileResult { name: name.clone(), id, hash: hash.clone(), created_time: 7 })
    );
    assert!(registry.contains(id));
    assert_eq!(registry.len(), 1);

    let again = begin_create(&root).unwrap();
    let taken = NewRepository { id, directory: again.directory, repo: again.repo };
    assert_eq!(
        create_outcome(&mut registry, taken, name.clone(), 8, true, Some(hash.clone())),
        Err(CreateError::IdentityTaken)
    );
    let again = begin_create(&root).unwrap();
    let taken = NewRepository { id, directory: again.directory, repo: again.repo };
    assert_eq!(
        create_outcome(&mut registry, taken, name.clone(), 8, false, None),
        Err(CreateError::FileWriteError)
    );
    assert_eq!(registry.len(), 1);
}

#[test]
fn creation_reports_the_time_it_was_given() {
    let root = scratch_root("time");
    let mut registry = Registry::new();
    let pending = begin_create(&root).unwrap();
    let id = pending.id;
    put_file(&pending.repo, "a.txt", "x");
    let created =
        finish_create_at(&mut registry, pending, "a.txt".to_string(), true, "me", 1681453769)
            .unwrap();
    assert_eq!(created.created_time, 1681453769);
    assert_eq!(created.id, id);
    assert!(is_hash(&created.hash));
    let times = timeline(&registry, id).unwrap();
    assert_eq!((times.created_time, times.edited_time), (1681453769, 1681453769));
    let log = history(&registry, id).unwrap();
    assert_eq!(log.commits, vec![GitCommit { hash: created.hash.clone(), parent: None }]);

    let again = begin_create(&root).unwrap();
    put_file(&again.repo, "a.txt", "y");
    let taken = NewRepository { id, directory: again.directory, repo: again.repo };
    assert_eq!(
        finish_create_at(&mut registry, taken, "a.txt".to_string(), true, "me", 5),
        Err(CreateError::IdentityTaken)
    );
    assert_eq!(resolve(&registry, id, &created.hash).unwrap().content, "x");

    let before = now();
    let fresh = create(&mut registry, &root, "b.txt", Some("b"));
    assert!(before <= fresh.created_time && fresh.created_time <= now());
}

#[test]
fn a_failed_detach_is_not_a_missing_revision() {
    let root = scratch_root("tree");
    let mut registry = Registry::new();
    let created = create(&mut registry, &root, "a.txt", Some("x"));
    let tree = registry
        .get(created.id)
        .unwrap()
        .find_commit(git2::Oid::from_str(&created.hash).unwrap())
        .unwrap()
        .tree_id()
        .to_string();
    assert_eq!(checkout_revision(&registry, created.id, &tree), Err(ResolveError::NotFound));
    assert_eq!(
        save(&registry, created.id, true, &tree, "main", "me"),
        Err(SaveError::BadParent)
    );
}
