//! The kinds of failure, and the status that each is answered with.
//!
//! Every operation has its own error type. Each error belongs to one of a
//! few kinds, and the kind alone decides the status that a caller sees.

use vstd::prelude::*;
use crate::creator::CreateError;
use crate::history::HistoryError;
use crate::listing::ListError;
use crate::mutator::SaveError;
use crate::preview::PreviewError;
use crate::registry::DeleteError;
use crate::resolver::ResolveError;

verus! {

/// The kinds of failure.
#[derive(Clone, Copy, Debug, PartialEq, Eq, Structural)]
pub enum ErrorKind {
    /// An unknown document, or a revision that does not resolve.
    NotFound,
    /// A malformed revision or parent hash.
    BadRequest,
    /// A repository that is not in the state that the service keeps it in.
    InternalInconsistency,
    /// A failure of the file system, the repository or a process launch.
    InternalIO,
    /// A document for which no compiler can be chosen.
    Unsupported,
}

/// The status for a request that succeeded.
pub const STATUS_OK: u16 = 200;

/// The status that each kind of failure is answered with.
pub open spec fn status_of(kind: ErrorKind) -> u16 {
    match kind {
        ErrorKind::NotFound => 404,
        ErrorKind::BadRequest => 400,
        ErrorKind::InternalInconsistency => 500,
        ErrorKind::InternalIO => 500,
        ErrorKind::Unsupported => 418,
    }
}

pub open spec fn resolve_kind(error: ResolveError) -> ErrorKind {
    match error {
        ResolveError::NotFound => ErrorKind::NotFound,
        ResolveError::BadRevision => ErrorKind::BadRequest,
        ResolveError::InternalInconsistency => ErrorKind::InternalInconsistency,
        ResolveError::ReadError => ErrorKind::InternalIO,
    }
}

pub open spec fn save_kind(error: SaveError) -> ErrorKind {
    match error {
        SaveError::NotFound => ErrorKind::NotFound,
        SaveError::BadParent => ErrorKind::BadRequest,
        SaveError::InternalError => ErrorKind::InternalIO,
    }
}

pub open spec fn create_kind(error: CreateError) -> ErrorKind {
    ErrorKind::InternalIO
}

pub open spec fn delete_kind(error: DeleteError) -> ErrorKind {
    match error {
        DeleteError::NotFound => ErrorKind::NotFound,
        DeleteError::DirectoryRemains => ErrorKind::InternalIO,
    }
}

pub open spec fn history_kind(error: HistoryError) -> ErrorKind {
    match error {
        HistoryError::NotFound => ErrorKind::NotFound,
        HistoryError::InternalError => ErrorKind::InternalIO,
    }
}

pub open spec fn list_kind(error: ListError) -> ErrorKind {
    match error {
        ListError::NotFound => ErrorKind::NotFound,
        ListError::NoCommits => ErrorKind::InternalInconsistency,
        ListError::OutOfSync => ErrorKind::InternalInconsistency,
        ListError::UnreadableCommit => ErrorKind::InternalIO,
        ListError::NoWorkingFile => ErrorKind::InternalInconsistency,
    }
}

pub open spec fn preview_kind(error: PreviewError) -> ErrorKind {
    match error {
        PreviewError::NoExtension => ErrorKind::Unsupported,
        PreviewError::CacheUnavailable => ErrorKind::InternalIO,
        PreviewError::MissingLog => ErrorKind::InternalInconsistency,
        PreviewError::MissingStatus => ErrorKind::InternalInconsistency,
        PreviewError::InvalidStatus => ErrorKind::InternalInconsistency,
        PreviewError::LaunchFailed => ErrorKind::InternalIO,
        PreviewError::LogUnavailable => ErrorKind::InternalIO,
        PreviewError::StoreFailed => ErrorKind::InternalIO,
        PreviewError::NotRendered => ErrorKind::NotFound,
    }
}

/// The status that a kind of failure is answered with.
pub fn status_code(kind: ErrorKind) -> (status: u16)
    ensures
        status == status_of(kind),
{
    match kind {
        ErrorKind::NotFound => 404,
        ErrorKind::BadRequest => 400,
        ErrorKind::InternalInconsistency => 500,
        ErrorKind::InternalIO => 500,
        ErrorKind::Unsupported => 418,
    }
}

impl ResolveError {
    pub fn kind(self) -> (kind: ErrorKind)
        ensures
            kind == resolve_kind(self),
    {
        match self {
            ResolveError::NotFound => ErrorKind::NotFound,
            ResolveError::BadRevision => ErrorKind::BadRequest,
            ResolveError::InternalInconsistency => ErrorKind::InternalInconsistency,
            ResolveError::ReadError => ErrorKind::InternalIO,
        }
    }
}

impl SaveError {
    pub fn kind(self) -> (kind: ErrorKind)
        ensures
            kind == save_kind(self),
    {
        match self {
            SaveError::NotFound => ErrorKind::NotFound,
            SaveError::BadParent => ErrorKind::BadRequest,
            SaveError::InternalError => ErrorKind::InternalIO,
        }
    }
}

impl CreateError {
    pub fn kind(self) -> (kind: ErrorKind)
        ensures
            kind == create_kind(self),
    {
        ErrorKind::InternalIO
    }
}

impl DeleteError {
    pub fn kind(self) -> (kind: ErrorKind)
        ensures
            kind == delete_kind(self),
    {
        match self {
            DeleteError::NotFound => ErrorKind::NotFound,
            DeleteError::DirectoryRemains => ErrorKind::InternalIO,
        }
    }
}

impl HistoryError {
    pub fn kind(self) -> (kind: ErrorKind)
        ensures
            kind == history_kind(self),
    {
        match self {
            HistoryError::NotFound => ErrorKind::NotFound,
            HistoryError::InternalError => ErrorKind::InternalIO,
        }
    }
}

impl ListError {
    pub fn kind(self) -> (kind: ErrorKind)
        ensures
            kind == list_kind(self),
    {
        match self {
            ListError::NotFound => ErrorKind::NotFound,
            ListError::NoCommits => ErrorKind::InternalInconsistency,
            ListError::OutOfSync => ErrorKind::InternalInconsistency,
            ListError::UnreadableCommit => ErrorKind::InternalIO,
            ListError::NoWorkingFile => ErrorKind::InternalInconsistency,
        }
    }
}

impl PreviewError {
    pub fn kind(self) -> (kind: ErrorKind)
        ensures
            kind == preview_kind(self),
    {
        match self {
            PreviewError::NoExtension => ErrorKind::Unsupported,
            PreviewError::CacheUnavailable => ErrorKind::InternalIO,
        PreviewError::MissingLog => ErrorKind::InternalInconsistency,
            PreviewError::MissingStatus => ErrorKind::InternalInconsistency,
            PreviewError::InvalidStatus => ErrorKind::InternalInconsistency,
            PreviewError::LaunchFailed => ErrorKind::InternalIO,
            PreviewError::LogUnavailable => ErrorKind::InternalIO,
            PreviewError::StoreFailed => ErrorKind::InternalIO,
            PreviewError::NotRendered => ErrorKind::NotFound,
        }
    }
}

} // verus!
