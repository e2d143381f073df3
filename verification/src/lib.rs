//! Version history and remote synchronisation for a tree of documents,
//! kept in a git repository.
//!
//! Every snapshot of the tree is a commit. The history of one file is
//! reconstructed from the commit graph, any earlier content of a file can be
//! brought back, and the primary branch can be pushed to one remote over
//! key-based transport.
//!
//! The repository itself is worked on through the `git2` crate; the calls
//! are gathered in [`git`]. What is decided around them (which commits
//! belong to a file's history, which credential is offered and how often,
//! when a request is turned down before anything is attempted, what a
//! failure amounts to) is stated over plain values and proved.

pub mod credentials;
pub mod error;
pub mod git;
pub mod history;
pub mod ids;
pub mod keys;
pub mod paths;
pub mod remote;
pub mod repository;
pub mod restore;
pub mod snapshot;
pub mod text;
pub mod transfer;
