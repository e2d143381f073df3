//! What can go wrong, as a kind with the value it is about and the detail
//! given by the layer below.

use vstd::prelude::*;
use vstd::string::*;
use crate::git::{error_class, error_text, failure_class_of, failure_text_of};
use crate::text::{concat, no_text};

verus! {

/// The kinds of failure an operation can end in.
#[derive(Clone, Copy, Debug, PartialEq, Eq, Structural)]
pub enum ErrorKind {
    /// The directory to hold the repository does not exist.
    NotFound,
    /// The directory holds no repository.
    NotInitialized,
    /// A repository could not be created.
    InitFailure,
    /// The repository is there but could not be opened.
    OpenFailure,
    /// Changes could not be staged.
    StagingFailure,
    /// The staged tree could not be written or committed.
    CommitFailure,
    /// The commit graph could not be walked.
    HistoryFailure,
    /// A path has no base name.
    InvalidPath,
    /// A commit identifier is malformed or names no commit.
    InvalidCommitId,
    /// The commit's tree has no entry of that name, or its content is not a file's.
    PathNotFound,
    /// The restored content could not be written to the working file.
    WriteFailure,
    /// No remote is configured.
    RemoteNotFound,
    /// The remote or the connection settings could not be stored.
    RemoteFailure,
    /// The remote's address is not one that key-based transport can reach.
    InvalidUrlScheme,
    /// The private key file that was named does not exist.
    KeyNotFound,
    /// No credential was accepted.
    AuthFailure,
    /// The transfer failed for another reason.
    TransferFailure,
    /// The key pair could not be generated or read back.
    KeyGenerationFailure,
}

/// How the layer below classes a failure, as far as the library tells
/// failures apart.
#[derive(Clone, Copy, Debug, PartialEq, Eq, Structural)]
pub enum FailureClass {
    /// Something that was looked up is not there.
    NotFound,
    /// Authentication was refused.
    Auth,
    /// Anything else.
    Other,
}

/// What the layer below reported of a failure: its class and its text.
#[derive(Clone, Debug, PartialEq, Eq)]
pub struct GitFailure {
    pub class: FailureClass,
    pub detail: String,
}

/// A failure: its kind, the value it is about (a path, a commit identifier,
/// an address; empty where there is none) and the detail reported from below.
#[derive(Clone, Debug, PartialEq, Eq)]
pub struct VcsError {
    pub kind: ErrorKind,
    pub context: String,
    pub detail: String,
}

/// The mathematical value of a `VcsError`.
pub struct VcsErrorView {
    pub kind: ErrorKind,
    pub context: Seq<char>,
    pub detail: Seq<char>,
}

impl View for VcsError {
    type V = VcsErrorView;

    open spec fn view(&self) -> VcsErrorView {
        VcsErrorView { kind: self.kind, context: self.context@, detail: self.detail@ }
    }
}

/// The failure of `kind` about `context` with `detail`.
pub open spec fn failure(kind: ErrorKind, context: Seq<char>, detail: Seq<char>) -> VcsErrorView {
    VcsErrorView { kind, context, detail }
}

/// The sentence a failure is reported with.
pub open spec fn message_text(e: VcsErrorView) -> Seq<char> {
    match e.kind {
        ErrorKind::NotFound => "Directory does not exist"@,
        ErrorKind::NotInitialized => "Failed to open repository: "@ + e.detail,
        ErrorKind::InitFailure => "Failed to initialize repository: "@ + e.detail,
        ErrorKind::OpenFailure => "Failed to open repository: "@ + e.detail,
        ErrorKind::StagingFailure => "Failed to stage changes: "@ + e.detail,
        ErrorKind::CommitFailure => "Failed to commit: "@ + e.detail,
        ErrorKind::HistoryFailure => "Failed to read history: "@ + e.detail,
        ErrorKind::InvalidPath => "Invalid file path"@,
        ErrorKind::InvalidCommitId => "Invalid commit ID: "@ + e.detail,
        ErrorKind::PathNotFound => "File not found in commit: "@ + e.detail,
        ErrorKind::WriteFailure => "Failed to write file: "@ + e.detail,
        ErrorKind::RemoteNotFound => "Failed to find remote 'origin': "@ + e.detail,
        ErrorKind::RemoteFailure => "Failed to configure remote: "@ + e.detail,
        ErrorKind::InvalidUrlScheme =>
            "Only SSH URLs are supported (e.g., git@github.com:username/repo.git). Please use an SSH URL instead."@,
        ErrorKind::KeyNotFound => "SSH key not found at path: "@ + e.context
            + ". Please check if the file exists."@,
        ErrorKind::AuthFailure => "Authentication failed: "@ + e.detail,
        ErrorKind::TransferFailure => "Failed to reach remote: "@ + e.detail,
        ErrorKind::KeyGenerationFailure => e.detail,
    }
}

/// The kind of a failure to open a repository, by the class of what the
/// layer below reported: nothing found there, or something else wrong.
pub open spec fn open_failure_kind(class: FailureClass) -> ErrorKind {
    match class {
        FailureClass::NotFound => ErrorKind::NotInitialized,
        _ => ErrorKind::OpenFailure,
    }
}

/// The kind of a failed transfer, by the class of what the layer below
/// reported: a refused authentication, or something else wrong.
pub open spec fn transfer_failure_kind(class: FailureClass) -> ErrorKind {
    match class {
        FailureClass::Auth => ErrorKind::AuthFailure,
        _ => ErrorKind::TransferFailure,
    }
}

/// The kind of a failure to open a repository.
pub fn open_kind(class: FailureClass) -> (kind: ErrorKind)
    ensures
        kind == open_failure_kind(class),
{
    match class {
        FailureClass::NotFound => ErrorKind::NotInitialized,
        _ => ErrorKind::OpenFailure,
    }
}

/// The kind of a failed transfer.
pub fn transfer_kind(class: FailureClass) -> (kind: ErrorKind)
    ensures
        kind == transfer_failure_kind(class),
{
    match class {
        FailureClass::Auth => ErrorKind::AuthFailure,
        _ => ErrorKind::TransferFailure,
    }
}

/// The class and the text of `error`, as plain values.
pub fn describe(error: &git2::Error) -> (cause: GitFailure)
    ensures
        cause.class == failure_class_of(*error),
        cause.detail@ == failure_text_of(*error),
{
    GitFailure { class: error_class(error), detail: error_text(error) }
}

impl VcsError {
    /// A failure of `kind` about `context`, with the text of `cause` as its detail.
    pub fn caused_by(kind: ErrorKind, context: &str, cause: GitFailure) -> (e: VcsError)
        ensures
            e@ == failure(kind, context@, cause.detail@),
    {
        VcsError { kind, context: String::from_str(context), detail: cause.detail }
    }

    /// A failure of `kind` about `context`, with the text of `error` as its detail.
    pub fn from_git(kind: ErrorKind, context: &str, error: &git2::Error) -> (e: VcsError)
        ensures
            e@ == failure(kind, context@, failure_text_of(*error)),
    {
        VcsError::caused_by(kind, context, describe(error))
    }

    /// The failure to open the repository at `path` that `cause` amounts to:
    /// there is no repository where nothing was found, and the repository
    /// cannot be opened otherwise.
    pub fn open_failure(path: &str, cause: GitFailure) -> (e: VcsError)
        ensures
            e@ == failure(open_failure_kind(cause.class), path@, cause.detail@),
    {
        VcsError::caused_by(open_kind(cause.class), path, cause)
    }

    /// The failed transfer that `cause` amounts to: a failure of
    /// authentication where that is what was reported, and a failure of the
    /// transfer otherwise.
    pub fn transfer_failure(cause: GitFailure) -> (e: VcsError)
        ensures
            e@ == failure(transfer_failure_kind(cause.class), Seq::<char>::empty(), cause.detail@),
    {
        VcsError::caused_by(transfer_kind(cause.class), no_text(), cause)
    }

    /// A failure of `kind` about `context` with `detail`.
    pub fn new(kind: ErrorKind, context: &str, detail: &str) -> (e: VcsError)
        ensures
            e@ == failure(kind, context@, detail@),
    {
        VcsError { kind, context: String::from_str(context), detail: String::from_str(detail) }
    }

    /// The sentence this failure is reported with.
    pub fn message(&self) -> (text: String)
        ensures
            text@ == message_text(self@),
    {
        let detail = self.detail.as_str();
        match self.kind {
            ErrorKind::NotFound => String::from_str("Directory does not exist"),
            ErrorKind::NotInitialized => concat("Failed to open repository: ", detail),
            ErrorKind::InitFailure => concat("Failed to initialize repository: ", detail),
            ErrorKind::OpenFailure => concat("Failed to open repository: ", detail),
            ErrorKind::StagingFailure => concat("Failed to stage changes: ", detail),
            ErrorKind::CommitFailure => concat("Failed to commit: ", detail),
            ErrorKind::HistoryFailure => concat("Failed to read history: ", detail),
            ErrorKind::InvalidPath => String::from_str("Invalid file path"),
            ErrorKind::InvalidCommitId => concat("Invalid commit ID: ", detail),
            ErrorKind::PathNotFound => concat("File not found in commit: ", detail),
            ErrorKind::WriteFailure => concat("Failed to write file: ", detail),
            ErrorKind::RemoteNotFound => concat("Failed to find remote 'origin': ", detail),
            ErrorKind::RemoteFailure => concat("Failed to configure remote: ", detail),
            ErrorKind::InvalidUrlScheme => String::from_str(
                "Only SSH URLs are supported (e.g., git@github.com:username/repo.git). Please use an SSH URL instead.",
            ),
            ErrorKind::KeyNotFound => {
                let head = concat("SSH key not found at path: ", self.context.as_str());
                concat(head.as_str(), ". Please check if the file exists.")
            },
            ErrorKind::AuthFailure => concat("Authentication failed: ", detail),
            ErrorKind::TransferFailure => concat("Failed to reach remote: ", detail),
            ErrorKind::KeyGenerationFailure => self.detail.clone(),
        }
    }
}

} // verus!
