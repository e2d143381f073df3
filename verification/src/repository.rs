//! Creating and opening the repository of a document tree.

use vstd::prelude::*;
use vstd::string::*;
use crate::error::{describe, failure, ErrorKind, VcsError};
use crate::git::{repository_init, repository_open};
use crate::text::no_text;

verus! {

/// What the caller found at the place of the repository: whether the
/// directory is there, and whether it holds repository metadata.
#[derive(Clone, Copy, Debug, PartialEq, Eq, Structural)]
pub struct DirectoryProbe {
    pub exists: bool,
    pub has_metadata: bool,
}

/// What an initialisation has to do.
#[derive(Clone, Copy, Debug, PartialEq, Eq, Structural)]
pub enum InitAction {
    /// Nothing can be done: there is no directory.
    Reject,
    /// Nothing needs doing: the repository is there.
    Keep,
    /// A repository is to be created.
    Create,
}

/// How an initialisation that succeeded ended.
#[derive(Clone, Copy, Debug, PartialEq, Eq, Structural)]
pub enum InitStatus {
    /// The repository was there already and was left as it is.
    AlreadyInitialized,
    /// A repository was created.
    Initialized,
}

/// What an initialisation has to do, given what was found.
pub open spec fn init_action(probe: DirectoryProbe) -> InitAction {
    if !probe.exists {
        InitAction::Reject
    } else if probe.has_metadata {
        InitAction::Keep
    } else {
        InitAction::Create
    }
}

/// What an initialisation has to do, given what was found.
pub fn plan_init(probe: DirectoryProbe) -> (action: InitAction)
    ensures
        action == init_action(probe),
{
    if !probe.exists {
        InitAction::Reject
    } else if probe.has_metadata {
        InitAction::Keep
    } else {
        InitAction::Create
    }
}

/// A second initialisation changes nothing: where the metadata is found,
/// as a first one that succeeded leaves it, the repository is kept and no
/// failure is possible.
pub proof fn lemma_init_idempotent(second: DirectoryProbe)
    requires
        second.exists,
        second.has_metadata,
    ensures
        init_action(second) == InitAction::Keep,
{
}

/// Makes the directory at `repo_path` a repository unless it is one
/// already. Without a directory nothing is created; with metadata in place
/// nothing is touched.
pub fn init_git_repo(repo_path: &str, probe: DirectoryProbe) -> (r: Result<InitStatus, VcsError>)
    ensures
        match init_action(probe) {
            InitAction::Reject => r matches Err(e) && e@ == failure(
                ErrorKind::NotFound,
                repo_path@,
                Seq::<char>::empty(),
            ),
            InitAction::Keep => r == Ok::<InitStatus, VcsError>(InitStatus::AlreadyInitialized),
            InitAction::Create => match r {
                Ok(status) => status == InitStatus::Initialized,
                Err(e) => e.kind == ErrorKind::InitFailure && e.context@ == repo_path@,
            },
        },
{
    match plan_init(probe) {
        InitAction::Reject => Err(VcsError::new(ErrorKind::NotFound, repo_path, no_text())),
        InitAction::Keep => Ok(InitStatus::AlreadyInitialized),
        InitAction::Create => match repository_init(repo_path) {
            Ok(_) => Ok(InitStatus::Initialized),
            Err(error) => Err(VcsError::from_git(ErrorKind::InitFailure, repo_path, &error)),
        },
    }
}

/// Opens the repository at `repo_path`.
pub fn open_repository(repo_path: &str) -> (r: Result<git2::Repository, VcsError>)
    ensures
        r matches Err(e) ==> {
            &&& e.kind == ErrorKind::NotInitialized || e.kind == ErrorKind::OpenFailure
            &&& e.context@ == repo_path@
        },
{
    match repository_open(repo_path) {
        Ok(repo) => Ok(repo),
        Err(error) => Err(VcsError::open_failure(repo_path, describe(&error))),
    }
}

} // verus!
