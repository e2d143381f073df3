//! The one remote of a repository, and which addresses it may have.

use vstd::prelude::*;
use vstd::string::*;
use crate::error::{ErrorKind, VcsError};
use crate::git::{find_remote, remote_create, remote_set_url};
use crate::repository::open_repository;
use crate::text::{chars_of, has_prefix, starts_with};

verus! {

/// The name of the one remote that is managed.
pub const REMOTE_NAME: &'static str = "origin";

/// How an address in the short form of secure shell begins.
pub open spec fn scp_prefix() -> Seq<char> {
    seq!['g', 'i', 't', '@']
}

/// How an address in the long form of secure shell begins.
pub open spec fn ssh_prefix() -> Seq<char> {
    seq!['s', 's', 'h', ':', '/', '/']
}

/// `url` is an address that key-based transport can reach.
pub open spec fn is_ssh_url(url: Seq<char>) -> bool {
    has_prefix(url, scp_prefix()) || has_prefix(url, ssh_prefix())
}

/// Whether `url` is an address that key-based transport can reach.
pub fn is_ssh_address(url: &str) -> (yes: bool)
    ensures
        yes == is_ssh_url(url@),
{
    proof {
        reveal_strlit("git@");
        reveal_strlit("ssh://");
        assert("git@"@ =~= scp_prefix());
        assert("ssh://"@ =~= ssh_prefix());
    }
    let text = chars_of(url);
    starts_with(&text, &chars_of("git@")) || starts_with(&text, &chars_of("ssh://"))
}

/// What setting the remote's address does to the configuration.
#[derive(Clone, Copy, Debug, PartialEq, Eq, Structural)]
pub enum RemoteChange {
    /// There was no remote: one is added.
    Created,
    /// The remote was there: its address is replaced.
    Updated,
}

/// What setting the address does where the remote `exists` or does not.
pub open spec fn remote_change(exists: bool) -> RemoteChange {
    if exists {
        RemoteChange::Updated
    } else {
        RemoteChange::Created
    }
}

/// The address of the managed remote after `change` was made with `url`,
/// where `before` was its address, if it had one. An update needs a remote
/// to update and a creation needs its absence; elsewhere nothing changes.
pub open spec fn remote_after(
    before: Option<Seq<char>>,
    change: RemoteChange,
    url: Seq<char>,
) -> Option<Seq<char>> {
    match (change, before) {
        (RemoteChange::Updated, Some(_)) => Some(url),
        (RemoteChange::Created, None) => Some(url),
        _ => before,
    }
}

/// The address after the address was set to `url`.
pub open spec fn remote_set(before: Option<Seq<char>>, url: Seq<char>) -> Option<Seq<char>> {
    remote_after(before, remote_change(before is Some), url)
}

/// What setting the address does where the remote `exists` or does not.
pub fn plan_remote_change(exists: bool) -> (change: RemoteChange)
    ensures
        change == remote_change(exists),
{
    if exists {
        RemoteChange::Updated
    } else {
        RemoteChange::Created
    }
}

/// Setting the address twice leaves the one remote with the later address:
/// whatever was there before, the second setting is an update, not a
/// second remote.
pub proof fn lemma_remote_upsert(before: Option<Seq<char>>, first: Seq<char>, second: Seq<char>)
    ensures
        remote_set(before, first) == Some(first),
        remote_change(remote_set(before, first) is Some) == RemoteChange::Updated,
        remote_set(remote_set(before, first), second) == Some(second),
{
}

/// Sets the address of the remote of the repository at `repo_path` to
/// `url`: the remote is updated if it is there and added if it is not. No
/// other remote is touched.
pub fn set_git_remote(repo_path: &str, url: &str) -> (r: Result<RemoteChange, VcsError>)
    ensures
        r matches Err(e) ==> {
            ||| e.kind == ErrorKind::NotInitialized
            ||| e.kind == ErrorKind::OpenFailure
            ||| e.kind == ErrorKind::RemoteFailure && e.context@ == url@
        },
{
    let repo = match open_repository(repo_path) {
        Ok(repo) => repo,
        Err(e) => {
            return Err(e);
        },
    };
    let exists = find_remote(&repo, REMOTE_NAME).is_ok();
    match plan_remote_change(exists) {
        RemoteChange::Updated => match remote_set_url(&repo, REMOTE_NAME, url) {
            Ok(_) => Ok(RemoteChange::Updated),
            Err(error) => Err(VcsError::from_git(ErrorKind::RemoteFailure, url, &error)),
        },
        RemoteChange::Created => match remote_create(&repo, REMOTE_NAME, url) {
            Ok(_) => Ok(RemoteChange::Created),
            Err(error) => Err(VcsError::from_git(ErrorKind::RemoteFailure, url, &error)),
        },
    }
}

} // verus!
