//! The version-control primitives that the service is built on.
//!
//! Everything here is a thin binding to the `git2` crate. The bodies are not
//! verified: each function makes one call and hands the result back. What a
//! call finds depends on what is on disk, so nothing is claimed of the results
//! except where a doc comment says so.

use vstd::prelude::*;

verus! {

/// `git2::Repository`: an open repository. Opaque.
#[verifier::external_type_specification]
#[verifier::external_body]
pub struct ExRepository(git2::Repository);

/// `git2::Oid`: the identity of an object. Opaque.
#[verifier::external_type_specification]
#[verifier::external_body]
pub struct ExOid(git2::Oid);

/// `git2::Error`: why a call failed. Opaque.
#[verifier::external_type_specification]
#[verifier::external_body]
pub struct ExError(git2::Error);

/// `git2::Commit`: a commit that was looked up in a repository. Opaque.
#[verifier::external_type_specification]
#[verifier::external_body]
pub struct ExCommit<'a>(git2::Commit<'a>);

/// `git2::Tree`: a tree that was looked up in a repository. Opaque.
#[verifier::external_type_specification]
#[verifier::external_body]
pub struct ExTree<'a>(git2::Tree<'a>);

/// `git2::Index`: the staging area of a repository. Opaque.
#[verifier::external_type_specification]
#[verifier::external_body]
pub struct ExIndex(git2::Index);

/// `git2::Signature`: a name, an address and a time. Opaque.
#[verifier::external_type_specification]
#[verifier::external_body]
pub struct ExSignature<'a>(git2::Signature<'a>);

/// `git2::Branch`: a branch that was found in a repository. Opaque.
#[verifier::external_type_specification]
#[verifier::external_body]
pub struct ExBranch<'a>(git2::Branch<'a>);

/// `git2::BranchType`: whether a branch is local or follows a remote.
#[verifier::external_type_specification]
pub struct ExBranchType(git2::BranchType);

/// `git2::build::CheckoutBuilder`: the options of a checkout. Opaque.
#[verifier::external_type_specification]
#[verifier::external_body]
pub struct ExCheckoutBuilder<'a>(git2::build::CheckoutBuilder<'a>);

/// `git2::Revwalk`: a traversal of the commit graph. Opaque.
#[verifier::external_type_specification]
#[verifier::external_body]
pub struct ExRevwalk<'a>(git2::Revwalk<'a>);

pub open spec fn is_hex_digit(c: char) -> bool {
    ('0' <= c && c <= '9') || ('a' <= c && c <= 'f') || ('A' <= c && c <= 'F')
}

/// The texts that name a revision: one to forty hexadecimal digits.
pub open spec fn is_revision_text(text: Seq<char>) -> bool {
    &&& 1 <= text.len() <= 40
    &&& forall|i: int| 0 <= i < text.len() ==> is_hex_digit(#[trigger] text[i])
}

pub open spec fn is_lower_hex_digit(c: char) -> bool {
    ('0' <= c && c <= '9') || ('a' <= c && c <= 'f')
}

/// The texts in which the identity of an object is written out: forty
/// hexadecimal digits, the letters among them in lower case. Every such text
/// names a revision.
pub open spec fn is_full_hash(text: Seq<char>) -> bool {
    &&& text.len() == 40
    &&& forall|i: int| 0 <= i < text.len() ==> is_lower_hex_digit(#[trigger] text[i])
}

/// A full hash is one of the texts that name a revision.
pub proof fn lemma_full_hash_names_a_revision(text: Seq<char>)
    requires
        is_full_hash(text),
    ensures
        is_revision_text(text),
{
    assert forall|i: int| 0 <= i < text.len() implies is_hex_digit(#[trigger] text[i]) by {
        assert(is_lower_hex_digit(text[i]));
    }
}

/// `git2::Oid::from_str`. It fails exactly on a text that is empty, longer
/// than forty characters, or holds a character that is no hexadecimal digit.
#[verifier::external_body]
pub(crate) fn parse_oid(text: &str) -> (parsed: Result<git2::Oid, git2::Error>)
    ensures
        parsed is Ok <==> is_revision_text(text@),
{
    git2::Oid::from_str(text)
}

/// `Display` of `git2::Oid`, through `to_string`: the identity written as
/// forty hexadecimal digits, the letters among them in lower case.
#[verifier::external_body]
pub(crate) fn oid_text(oid: git2::Oid) -> (text: String)
    ensures
        is_full_hash(text@),
{
    oid.to_string()
}

/// `git2::Repository::open`.
#[verifier::external_body]
pub(crate) fn open_repository(path: &str) -> (opened: Result<git2::Repository, git2::Error>) {
    git2::Repository::open(path)
}

/// `git2::Repository::init`.
#[verifier::external_body]
pub(crate) fn init_repository(path: &str) -> (created: Result<git2::Repository, git2::Error>) {
    git2::Repository::init(path)
}

/// `git2::Repository::workdir`, as text. `None` where the repository has no
/// working directory or its path is not valid UTF-8.
#[verifier::external_body]
pub(crate) fn working_directory(repo: &git2::Repository) -> (dir: Option<String>) {
    repo.workdir().and_then(|p| p.to_str()).map(|p| p.to_owned())
}

/// `git2::Repository::set_head_detached`.
#[verifier::external_body]
pub(crate) fn detach_head(repo: &git2::Repository, oid: git2::Oid) -> (done: Result<
    (),
    git2::Error,
>) {
    repo.set_head_detached(oid)
}

/// `git2::build::CheckoutBuilder::new`.
#[verifier::external_body]
pub(crate) fn checkout_options() -> (options: git2::build::CheckoutBuilder<'static>) {
    git2::build::CheckoutBuilder::new()
}

/// `git2::build::CheckoutBuilder::force`.
#[verifier::external_body]
pub(crate) fn set_force(options: &mut git2::build::CheckoutBuilder<'_>) {
    options.force();
}

/// `git2::Repository::checkout_head`, with the given options.
#[verifier::external_body]
pub(crate) fn checkout_head(
    repo: &git2::Repository,
    options: &mut git2::build::CheckoutBuilder<'_>,
) -> (done: Result<(), git2::Error>) {
    repo.checkout_head(Some(options))
}

/// `git2::Repository::set_head`.
#[verifier::external_body]
pub(crate) fn set_head(repo: &git2::Repository, reference: &str) -> (done: Result<
    (),
    git2::Error,
>) {
    repo.set_head(reference)
}

/// `git2::Repository::find_commit`.
#[verifier::external_body]
pub(crate) fn find_commit<'a>(repo: &'a git2::Repository, oid: git2::Oid) -> (found: Result<
    git2::Commit<'a>,
    git2::Error,
>) {
    repo.find_commit(oid)
}

/// `git2::Repository::find_tree`.
#[verifier::external_body]
pub(crate) fn find_tree<'a>(repo: &'a git2::Repository, oid: git2::Oid) -> (found: Result<
    git2::Tree<'a>,
    git2::Error,
>) {
    repo.find_tree(oid)
}

/// `git2::Repository::branch`. The branch that it returns is dropped.
#[verifier::external_body]
pub(crate) fn create_branch(
    repo: &git2::Repository,
    name: &str,
    target: &git2::Commit<'_>,
    force: bool,
) -> (done: Result<(), git2::Error>) {
    repo.branch(name, target, force).map(|_| ())
}

/// `git2::Repository::index`.
#[verifier::external_body]
pub(crate) fn repository_index(repo: &git2::Repository) -> (index: Result<
    git2::Index,
    git2::Error,
>) {
    repo.index()
}

/// `git2::Index::add_all`, with one path specification, the default options
/// and no callback.
#[verifier::external_body]
pub(crate) fn index_add_all(index: &mut git2::Index, pathspec: &str) -> (done: Result<
    (),
    git2::Error,
>) {
    index.add_all([pathspec].iter(), git2::IndexAddOption::DEFAULT, None)
}

/// `git2::Index::write`.
#[verifier::external_body]
pub(crate) fn index_write(index: &mut git2::Index) -> (done: Result<(), git2::Error>) {
    index.write()
}

/// `git2::Index::write_tree`.
#[verifier::external_body]
pub(crate) fn index_write_tree(index: &mut git2::Index) -> (tree: Result<git2::Oid, git2::Error>) {
    index.write_tree()
}

/// `git2::Signature::new`, with the `git2::Time` that `git2::Time::new`
/// makes of the seconds and the offset in minutes.
#[verifier::external_body]
pub(crate) fn new_signature(
    name: &str,
    email: &str,
    seconds: i64,
    offset_minutes: i32,
) -> (signature: Result<git2::Signature<'static>, git2::Error>) {
    git2::Signature::new(name, email, &git2::Time::new(seconds, offset_minutes))
}

/// `git2::Repository::commit`, onto the reference `update_ref`, with at most
/// one parent.
#[verifier::external_body]
pub(crate) fn create_commit(
    repo: &git2::Repository,
    update_ref: &str,
    author: &git2::Signature<'_>,
    committer: &git2::Signature<'_>,
    message: &str,
    tree: &git2::Tree<'_>,
    parent: Option<&git2::Commit<'_>>,
) -> (created: Result<git2::Oid, git2::Error>) {
    let parents: Vec<&git2::Commit<'_>> = parent.into_iter().collect();
    repo.commit(Some(update_ref), author, committer, message, tree, &parents)
}

/// `git2::Commit::id`.
#[verifier::external_body]
pub(crate) fn commit_id(commit: &git2::Commit<'_>) -> (oid: git2::Oid) {
    commit.id()
}

/// `git2::Commit::parent_ids`: the identities of the parents, collected in
/// their order.
#[verifier::external_body]
pub(crate) fn parent_ids(commit: &git2::Commit<'_>) -> (ids: Vec<git2::Oid>) {
    commit.parent_ids().collect()
}

/// `git2::Commit::time`, in seconds since the epoch.
#[verifier::external_body]
pub(crate) fn commit_seconds(commit: &git2::Commit<'_>) -> (seconds: i64) {
    commit.time().seconds()
}

/// `git2::Repository::odb` and `git2::Odb::foreach`: the identity of every
/// object in the store, in the order in which the store hands them out.
#[verifier::external_body]
pub(crate) fn object_ids(repo: &git2::Repository) -> (ids: Result<Vec<git2::Oid>, git2::Error>) {
    let odb = repo.odb()?;
    let mut ids = Vec::new();
    odb.foreach(|oid| {
        ids.push(*oid);
        true
    })?;
    Ok(ids)
}

/// `git2::Repository::branches`, with the given filter: the branches in the
/// order in which they are handed out, `None` in the place of each that
/// cannot be read.
#[verifier::external_body]
pub(crate) fn list_branches<'a>(
    repo: &'a git2::Repository,
    filter: Option<git2::BranchType>,
) -> (branches: Result<Vec<Option<git2::Branch<'a>>>, git2::Error>) {
    Ok(repo.branches(filter)?.map(|item| item.ok().map(|(branch, _)| branch)).collect())
}

/// `git2::Branch::name`. `None` where the call fails or the name is not
/// valid UTF-8.
#[verifier::external_body]
pub(crate) fn branch_name(branch: &git2::Branch<'_>) -> (name: Option<String>) {
    branch.name().ok().flatten().map(|n| n.to_owned())
}

/// `git2::Reference::peel_to_commit`, on the reference of the branch.
#[verifier::external_body]
pub(crate) fn branch_commit<'a>(branch: &git2::Branch<'a>) -> (commit: Result<
    git2::Commit<'a>,
    git2::Error,
>) {
    branch.get().peel_to_commit()
}

/// `git2::Reference::target`, on the reference of the branch.
#[verifier::external_body]
pub(crate) fn branch_target(branch: &git2::Branch<'_>) -> (oid: Option<git2::Oid>) {
    branch.get().target()
}

/// `git2::Repository::revwalk`.
#[verifier::external_body]
pub(crate) fn new_revwalk<'a>(repo: &'a git2::Repository) -> (walk: Result<
    git2::Revwalk<'a>,
    git2::Error,
>) {
    repo.revwalk()
}

/// `git2::Revwalk::set_sorting`, with `git2::Sort::TIME`.
#[verifier::external_body]
pub(crate) fn revwalk_sort_by_time(walk: &mut git2::Revwalk<'_>) -> (done: Result<
    (),
    git2::Error,
>) {
    walk.set_sorting(git2::Sort::TIME)
}

/// `git2::Revwalk::push_head`.
#[verifier::external_body]
pub(crate) fn revwalk_push_head(walk: &mut git2::Revwalk<'_>) -> (done: Result<
    (),
    git2::Error,
>) {
    walk.push_head()
}

/// `git2::Revwalk::push`.
#[verifier::external_body]
pub(crate) fn revwalk_push(walk: &mut git2::Revwalk<'_>, oid: git2::Oid) -> (done: Result<
    (),
    git2::Error,
>) {
    walk.push(oid)
}

/// `Iterator::next` of `git2::Revwalk`: the next item of the walk, with
/// `None` inside for an item that the walk cannot name, and `None` at the
/// end of the walk.
#[verifier::external_body]
pub(crate) fn revwalk_next(walk: &mut git2::Revwalk<'_>) -> (item: Option<Option<git2::Oid>>) {
    walk.next().map(|item| item.ok())
}

} // verus!
