//! Values exchanged with callers of the service.

use vstd::prelude::*;

verus! {

/// Identity of a managed document: a 128-bit value assigned once at creation.
#[derive(Clone, Copy, Debug, PartialEq, Eq, Structural, Hash)]
pub struct DocumentId {
    pub value: u128,
}

/// A document as it existed at one revision.
#[derive(Clone, Debug, PartialEq, Eq)]
pub struct File {
    pub name: String,
    pub id: DocumentId,
    pub content: String,
}

/// One line of the document listing. Times are seconds since the Unix epoch.
#[derive(Clone, Debug, PartialEq, Eq)]
pub struct FileSummary {
    pub name: String,
    pub id: DocumentId,
    pub edited_time: i64,
    pub created_time: i64,
}

/// What creating a document returns.
#[derive(Clone, Debug, PartialEq, Eq)]
pub struct CreateFileResult {
    pub name: String,
    pub id: DocumentId,
    pub hash: String,
    pub created_time: i64,
}

/// The kind of a rendered preview.
#[derive(Clone, Copy, Debug, PartialEq, Eq, Structural)]
pub enum PreviewDetailType {
    PDF,
    HTML,
}

/// A rendered preview of one revision.
#[derive(Clone, Debug, PartialEq, Eq)]
pub struct PreviewDetail {
    pub name: String,
    pub id: DocumentId,
    pub kind: PreviewDetailType,
    pub data: String,
}

/// A commit and its first parent, both as hexadecimal hashes.
#[derive(Clone, Debug, PartialEq, Eq)]
pub struct GitCommit {
    pub hash: String,
    pub parent: Option<String>,
}

/// A branch and the commit it points to.
#[derive(Clone, Debug, PartialEq, Eq)]
pub struct GitRef {
    pub name: String,
    pub hash: String,
}

/// Every commit and every branch of one repository.
#[derive(Clone, Debug, PartialEq, Eq)]
pub struct GitHistory {
    pub commits: Vec<GitCommit>,
    pub refs: Vec<GitRef>,
}

/// How a compiler run ended.
#[derive(Clone, Copy, Debug, PartialEq, Eq, Structural)]
pub enum CompilationState {
    SUCCESS,
    FAILURE,
}

/// The status and log of a compiler run.
#[derive(Clone, Debug, PartialEq, Eq)]
pub struct CompilationOutput {
    pub state: CompilationState,
    pub log: String,
}

} // verus!
