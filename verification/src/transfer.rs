//! Pushing to the remote and probing the connection.

use vstd::prelude::*;
use vstd::string::*;
use crate::credentials::{
    after_step, opt_text, step_of, untried, CredentialRequest, CredentialResolver, CredentialStep,
    Refusal,
};
use crate::error::{describe, failure, ErrorKind, FailureClass, VcsError, VcsErrorView};
use crate::git::{
    admits_ssh_key, allows_ssh_key, config_set_str, cred_from_agent, cred_ssh_key, credential_callbacks,
    error_of_class, find_remote, remote_create, remote_fetch, remote_push, repository_config,
};
use crate::remote::{is_ssh_address, is_ssh_url, REMOTE_NAME};
use crate::repository::open_repository;
use crate::text::no_text;

verus! {

/// The sentence a refusal is reported with.
pub open spec fn refusal_text(reason: Refusal) -> Seq<char> {
    match reason {
        Refusal::UnsupportedMode => "No supported authentication method"@,
        Refusal::Exhausted => "No further credential to offer"@,
    }
}

/// The sentence a refusal is reported with.
pub fn refusal_message(reason: Refusal) -> (text: &'static str)
    ensures
        text@ == refusal_text(reason),
{
    match reason {
        Refusal::UnsupportedMode => "No supported authentication method",
        Refusal::Exhausted => "No further credential to offer",
    }
}

/// The request that the transport makes when it asks for a credential
/// for the user name `username_from_url` and accepts the types `allowed`.
pub open spec fn request_of(
    username_from_url: Option<Seq<char>>,
    allowed: git2::CredentialType,
) -> CredentialRequest {
    CredentialRequest { username_from_url, ssh_key_allowed: admits_ssh_key(allowed) }
}

/// Answers one request of the transport for a credential: asks `resolver`
/// for the next step and carries it out. The resolver moves on as its step
/// says, so a credential is handed out only by using up a strategy. A
/// refusal is a failure; where a strategy is tried, the credential or the
/// failure is what making the credential gives.
pub fn answer_credential_request(
    resolver: &mut CredentialResolver,
    username_from_url: Option<&str>,
    allowed: git2::CredentialType,
) -> (r: Result<git2::Cred, git2::Error>)
    ensures
        final(resolver)@ == after_step(
            old(resolver)@,
            request_of(opt_text(username_from_url), allowed),
        ),
        step_of(old(resolver)@, request_of(opt_text(username_from_url), allowed)) is Refuse ==> r is Err,
        r is Ok ==> untried(final(resolver)@) < untried(old(resolver)@),
{
    let ssh_key_allowed = allows_ssh_key(allowed);
    match resolver.next_step(username_from_url, ssh_key_allowed) {
        CredentialStep::KeyFile { username, path } => cred_ssh_key(username.as_str(), path.as_str()),
        CredentialStep::Agent { username } => cred_from_agent(username.as_str()),
        CredentialStep::Refuse { reason } => Err(
            error_of_class(FailureClass::Auth, refusal_message(reason)),
        ),
    }
}

/// What is pushed: the primary branch, to the branch of the same name.
pub const PRIMARY_REFSPEC: &'static str = "refs/heads/master:refs/heads/master";

/// The configuration key of the committer's name.
pub const USER_NAME_KEY: &'static str = "user.name";

/// The configuration key of the committer's address.
pub const USER_EMAIL_KEY: &'static str = "user.email";

/// A private key file that the caller named, and whether it is there.
#[derive(Clone, Debug, PartialEq, Eq)]
pub struct KeyFileProbe {
    pub path: String,
    pub exists: bool,
}

/// The mathematical value of a `KeyFileProbe`.
pub struct KeyFileProbeView {
    pub path: Seq<char>,
    pub exists: bool,
}

impl View for KeyFileProbe {
    type V = KeyFileProbeView;

    open spec fn view(&self) -> KeyFileProbeView {
        KeyFileProbeView { path: self.path@, exists: self.exists }
    }
}

/// The value of an optional probe.
pub open spec fn opt_probe_view(key: Option<KeyFileProbe>) -> Option<KeyFileProbeView> {
    match key {
        Some(k) => Some(k@),
        None => None,
    }
}

/// Why a probe of the connection is turned down before anything is
/// attempted, if it is: first an address that is not one of secure shell,
/// then a key file that was named and is not there.
pub open spec fn probe_rejection(url: Seq<char>, key: Option<KeyFileProbeView>) -> Option<
    VcsErrorView,
> {
    if !is_ssh_url(url) {
        Some(failure(ErrorKind::InvalidUrlScheme, url, Seq::<char>::empty()))
    } else {
        match key {
            Some(k) => if k.exists {
                None
            } else {
                Some(failure(ErrorKind::KeyNotFound, k.path, Seq::<char>::empty()))
            },
            None => None,
        }
    }
}

/// Checks what can be checked of a probe without touching the repository
/// or the network.
pub fn check_probe_request(url: &str, key: &Option<KeyFileProbe>) -> (r: Result<(), VcsError>)
    ensures
        match probe_rejection(url@, opt_probe_view(*key)) {
            Some(rejection) => r matches Err(e) && e@ == rejection,
            None => r is Ok,
        },
{
    if !is_ssh_address(url) {
        return Err(VcsError::new(ErrorKind::InvalidUrlScheme, url, no_text()));
    }
    match key {
        Some(k) => if k.exists {
            Ok(())
        } else {
            Err(VcsError::new(ErrorKind::KeyNotFound, k.path.as_str(), no_text()))
        },
        None => Ok(()),
    }
}

/// The failure kinds a push can end in.
pub open spec fn is_push_failure(kind: ErrorKind) -> bool {
    ||| kind == ErrorKind::NotInitialized
    ||| kind == ErrorKind::OpenFailure
    ||| kind == ErrorKind::RemoteNotFound
    ||| kind == ErrorKind::AuthFailure
    ||| kind == ErrorKind::TransferFailure
}

/// The failure kinds a probe can end in once the request has passed the
/// checks that need neither repository nor network.
pub open spec fn is_probe_failure(kind: ErrorKind) -> bool {
    ||| kind == ErrorKind::NotInitialized
    ||| kind == ErrorKind::OpenFailure
    ||| kind == ErrorKind::RemoteFailure
    ||| kind == ErrorKind::AuthFailure
    ||| kind == ErrorKind::TransferFailure
}

/// Pushes the primary branch of the repository at `repo_path` to its
/// remote. The credential is the key in the file at `ssh_key_path` if one
/// is named and a key of the key agent otherwise, each offered once.
/// Without a remote nothing is attempted.
pub fn push_to_remote(repo_path: &str, ssh_key_path: Option<&str>) -> (r: Result<(), VcsError>)
    ensures
        r matches Err(e) ==> is_push_failure(e.kind),
{
    let repo = match open_repository(repo_path) {
        Ok(repo) => repo,
        Err(e) => {
            return Err(e);
        },
    };
    let callbacks = credential_callbacks(CredentialResolver::new(None, ssh_key_path));
    let mut remote = match find_remote(&repo, REMOTE_NAME) {
        Ok(remote) => remote,
        Err(error) => {
            return Err(VcsError::from_git(ErrorKind::RemoteNotFound, no_text(), &error));
        },
    };
    match remote_push(&mut remote, PRIMARY_REFSPEC, callbacks) {
        Ok(_) => Ok(()),
        Err(error) => Err(VcsError::transfer_failure(describe(&error))),
    }
}

/// Stores the committer's name and address in the configuration of `repo`.
fn store_identity(repo: &git2::Repository, username: &str, email: &str) -> (r: Result<
    (),
    git2::Error,
>) {
    let mut config = match repository_config(repo) {
        Ok(config) => config,
        Err(error) => {
            return Err(error);
        },
    };
    match config_set_str(&mut config, USER_NAME_KEY, username) {
        Ok(_) => {},
        Err(error) => {
            return Err(error);
        },
    }
    config_set_str(&mut config, USER_EMAIL_KEY, email)
}

/// Probes the connection to the remote of the repository at `repo_path`.
/// An address that is not one of secure shell, and then a key file that
/// was named and is not there, are turned down before the repository is
/// opened or the network touched. After that the committer's name and
/// address are stored, the remote is looked up (and added with `url` if it
/// is not there), and a fetch is made from it. The credential is the key in
/// the file named if there is one and a key of the key agent otherwise,
/// each offered once, for the user name of the address or else `username`.
/// Success is reported as `true`; there is no other successful result.
pub fn test_git_connection(
    repo_path: &str,
    url: &str,
    username: &str,
    email: &str,
    ssh_key: Option<KeyFileProbe>,
) -> (r: Result<bool, VcsError>)
    ensures
        match probe_rejection(url@, opt_probe_view(ssh_key)) {
            Some(rejection) => r matches Err(e) && e@ == rejection,
            None => match r {
                Ok(connected) => connected,
                Err(e) => is_probe_failure(e.kind),
            },
        },
{
    match check_probe_request(url, &ssh_key) {
        Ok(_) => {},
        Err(e) => {
            return Err(e);
        },
    }
    let repo = match open_repository(repo_path) {
        Ok(repo) => repo,
        Err(e) => {
            return Err(e);
        },
    };
    match store_identity(&repo, username, email) {
        Ok(_) => {},
        Err(error) => {
            return Err(VcsError::from_git(ErrorKind::RemoteFailure, no_text(), &error));
        },
    }
    let mut remote = match find_remote(&repo, REMOTE_NAME) {
        Ok(remote) => remote,
        Err(_) => match remote_create(&repo, REMOTE_NAME, url) {
            Ok(remote) => remote,
            Err(error) => {
                return Err(VcsError::from_git(ErrorKind::RemoteFailure, url, &error));
            },
        },
    };
    let key_path: Option<&str> = match &ssh_key {
        Some(k) => Some(k.path.as_str()),
        None => None,
    };
    let callbacks = credential_callbacks(CredentialResolver::new(Some(username), key_path));
    match remote_fetch(&mut remote, callbacks) {
        Ok(_) => Ok(true),
        Err(error) => Err(VcsError::transfer_failure(describe(&error))),
    }
}

} // verus!
