//! Committing a snapshot of the working tree.

use vstd::prelude::*;
use vstd::string::*;
use crate::error::{ErrorKind, VcsError};
use crate::git::{
    create_commit, find_tree, index_add_all, index_add_path, index_update_all, index_write,
    index_write_tree, oid_to_hex, peel_to_commit, repository_head, repository_index, signature_now,
};
use crate::ids::is_full_id;
use crate::repository::open_repository;
use crate::text::no_text;

verus! {

/// The name every snapshot is signed with.
pub const COMMITTER_NAME: &'static str = "Excalidraw Local";

/// The address every snapshot is signed with.
pub const COMMITTER_EMAIL: &'static str = "excalidraw@local.app";

/// The pattern that matches every path of the working tree.
pub const EVERY_PATH: &'static str = "*";

/// The reference a new commit moves.
pub const HEAD: &'static str = "HEAD";

/// The failure kinds a commit can end in.
pub open spec fn is_commit_failure(kind: ErrorKind) -> bool {
    ||| kind == ErrorKind::NotInitialized
    ||| kind == ErrorKind::OpenFailure
    ||| kind == ErrorKind::StagingFailure
    ||| kind == ErrorKind::CommitFailure
}

/// Stages the one file at `path`, or with no path everything that was
/// added, changed or removed below the root, and writes the staging area.
fn stage(index: &mut git2::Index, path: Option<&str>) -> (r: Result<(), git2::Error>) {
    match path {
        Some(path) => match index_add_path(index, path) {
            Ok(_) => {},
            Err(error) => {
                return Err(error);
            },
        },
        None => {
            match index_add_all(index, EVERY_PATH) {
                Ok(_) => {},
                Err(error) => {
                    return Err(error);
                },
            }
            match index_update_all(index, EVERY_PATH) {
                Ok(_) => {},
                Err(error) => {
                    return Err(error);
                },
            }
        },
    }
    index_write(index)
}

/// Commits the staged tree of `repo` with `message`, on top of the head
/// commit if there is one and without parent otherwise.
fn commit_index(repo: &git2::Repository, index: &mut git2::Index, message: &str) -> (r: Result<
    git2::Oid,
    git2::Error,
>) {
    let signature = match signature_now(COMMITTER_NAME, COMMITTER_EMAIL) {
        Ok(signature) => signature,
        Err(error) => {
            return Err(error);
        },
    };
    let tree_id = match index_write_tree(index) {
        Ok(tree_id) => tree_id,
        Err(error) => {
            return Err(error);
        },
    };
    let tree = match find_tree(repo, tree_id) {
        Ok(tree) => tree,
        Err(error) => {
            return Err(error);
        },
    };
    match repository_head(repo) {
        Ok(head) => match peel_to_commit(&head) {
            Ok(parent) => create_commit(repo, HEAD, &signature, message, &tree, Some(&parent)),
            Err(error) => Err(error),
        },
        Err(_) => create_commit(repo, HEAD, &signature, message, &tree, None),
    }
}

/// Stages as `stage` does and commits the result in the repository at
/// `repo_path`.
fn commit_staged(repo_path: &str, path: Option<&str>, message: &str) -> (r: Result<String, VcsError>)
    ensures
        match r {
            Ok(commit_id) => is_full_id(commit_id@),
            Err(e) => is_commit_failure(e.kind),
        },
{
    let repo = match open_repository(repo_path) {
        Ok(repo) => repo,
        Err(e) => {
            return Err(e);
        },
    };
    let mut index = match repository_index(&repo) {
        Ok(index) => index,
        Err(error) => {
            return Err(VcsError::from_git(ErrorKind::StagingFailure, no_text(), &error));
        },
    };
    match stage(&mut index, path) {
        Ok(_) => {},
        Err(error) => {
            let context = match path {
                Some(path) => path,
                None => no_text(),
            };
            return Err(VcsError::from_git(ErrorKind::StagingFailure, context, &error));
        },
    }
    match commit_index(&repo, &mut index, message) {
        Ok(oid) => Ok(oid_to_hex(&oid)),
        Err(error) => Err(VcsError::from_git(ErrorKind::CommitFailure, no_text(), &error)),
    }
}

/// Commits everything that was added, changed or removed below the root of
/// the repository at `repo_path`, with `message`, and gives the new
/// commit's identifier. The commit's one parent is the head commit; where
/// there is no head it has none.
pub fn commit_all_changes(repo_path: &str, message: &str) -> (r: Result<String, VcsError>)
    ensures
        match r {
            Ok(commit_id) => is_full_id(commit_id@),
            Err(e) => is_commit_failure(e.kind),
        },
{
    commit_staged(repo_path, None, message)
}

/// Stages the one file at `path`, relative to the root of the repository
/// at `repo_path`, and commits the staged state with `message`.
pub fn commit_path(repo_path: &str, path: &str, message: &str) -> (r: Result<String, VcsError>)
    ensures
        match r {
            Ok(commit_id) => is_full_id(commit_id@),
            Err(e) => is_commit_failure(e.kind),
        },
{
    commit_staged(repo_path, Some(path), message)
}

} // verus!
