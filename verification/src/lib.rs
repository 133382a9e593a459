//! Repository-state management for a document versioning service.
//!
//! Every managed document lives in a version-control repository of its own.
//! This crate keeps the registry of those repositories and drives the
//! version-control steps behind creating, saving, reading and listing
//! documents, together with the rules for rendering previews. Everything that
//! touches the file system or starts a process is left to the caller, which
//! hands the outcome back as plain values.
//!
//! The repositories are kept by the `git2` crate. What a repository answers
//! depends on what is on disk, so the contracts of the operations say which
//! results are possible and which inputs are always refused; for every
//! operation a second function says exactly what each answer of the
//! repository comes to.

pub mod api;
pub mod layout;
pub mod text;
pub mod seqs;
pub mod ident;
pub mod normal_date_format;
pub mod git;
pub mod registry;
pub mod snapshot;
pub mod creator;
pub mod resolver;
pub mod mutator;
pub mod history;
pub mod listing;
pub mod preview;
pub mod auth;
pub mod errors;
pub mod laws;
