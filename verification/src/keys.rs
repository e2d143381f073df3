//! Generating the key pair of a repository: what the key tool is to be
//! run with, and what its outcome amounts to. Running the tool and reading
//! the key back is the caller's part.

use vstd::prelude::*;
use vstd::string::*;
use crate::error::{failure, ErrorKind, VcsError, VcsErrorView};
use crate::history::texts_view;
use crate::paths::{join_path, joined};
use crate::text::{concat, no_text};

verus! {

/// The directory of the keys, below the repository.
pub const KEY_DIRECTORY: &'static str = ".ssh";

/// The file name of the private key.
pub const KEY_FILE: &'static str = "excalidraw_deploy_key";

/// The key tool.
pub const KEY_TOOL: &'static str = "ssh-keygen";

/// The type of key that is generated.
pub const KEY_TYPE: &'static str = "ed25519";

/// What to run to generate the key pair, and where the keys will be.
#[derive(Clone, Debug, PartialEq, Eq)]
pub struct KeyGenerationPlan {
    /// The directory to create if it is not there.
    pub key_directory: String,
    /// The file the private key is written to.
    pub private_key_path: String,
    /// The file the public key is written to.
    pub public_key_path: String,
    /// The program to run.
    pub program: String,
    /// Its arguments.
    pub arguments: Vec<String>,
}

/// The mathematical value of a `KeyGenerationPlan`.
pub struct KeyGenerationPlanView {
    pub key_directory: Seq<char>,
    pub private_key_path: Seq<char>,
    pub public_key_path: Seq<char>,
    pub program: Seq<char>,
    pub arguments: Seq<Seq<char>>,
}

impl View for KeyGenerationPlan {
    type V = KeyGenerationPlanView;

    open spec fn view(&self) -> KeyGenerationPlanView {
        KeyGenerationPlanView {
            key_directory: self.key_directory@,
            private_key_path: self.private_key_path@,
            public_key_path: self.public_key_path@,
            program: self.program@,
            arguments: texts_view(self.arguments@),
        }
    }
}

/// Where the private key of the repository at `repo_path` is.
pub open spec fn private_key_location(repo_path: Seq<char>) -> Seq<char> {
    joined(joined(repo_path, KEY_DIRECTORY@), KEY_FILE@)
}

/// The plan for the repository at `repo_path` and a key labelled `email`:
/// a key of the fixed type, without pass phrase, written quietly to the key
/// file below the key directory, its public half beside it.
pub open spec fn key_plan(repo_path: Seq<char>, email: Seq<char>) -> KeyGenerationPlanView {
    KeyGenerationPlanView {
        key_directory: joined(repo_path, KEY_DIRECTORY@),
        private_key_path: private_key_location(repo_path),
        public_key_path: private_key_location(repo_path) + ".pub"@,
        program: KEY_TOOL@,
        arguments: seq![
            "-t"@,
            KEY_TYPE@,
            "-C"@,
            email,
            "-f"@,
            private_key_location(repo_path),
            "-N"@,
            Seq::<char>::empty(),
            "-q"@,
        ],
    }
}

/// The plan for the repository at `repo_path` and a key labelled `email`.
pub fn plan_key_generation(repo_path: &str, email: &str) -> (plan: KeyGenerationPlan)
    ensures
        plan@ == key_plan(repo_path@, email@),
{
    let key_directory = join_path(repo_path, KEY_DIRECTORY);
    let private_key_path = join_path(key_directory.as_str(), KEY_FILE);
    let public_key_path = concat(private_key_path.as_str(), ".pub");
    let mut arguments: Vec<String> = Vec::new();
    arguments.push(String::from_str("-t"));
    arguments.push(String::from_str(KEY_TYPE));
    arguments.push(String::from_str("-C"));
    arguments.push(String::from_str(email));
    arguments.push(String::from_str("-f"));
    arguments.push(private_key_path.clone());
    arguments.push(String::from_str("-N"));
    arguments.push(String::from_str(no_text()));
    arguments.push(String::from_str("-q"));
    assert(texts_view(arguments@) =~= key_plan(repo_path@, email@).arguments);
    KeyGenerationPlan {
        key_directory,
        private_key_path,
        public_key_path,
        program: String::from_str(KEY_TOOL),
        arguments,
    }
}

/// How carrying out a plan ended.
#[derive(Clone, Debug, PartialEq, Eq)]
pub enum KeyGenerationOutcome {
    /// The key directory could not be created.
    DirectoryFailed { detail: String },
    /// The key tool could not be started.
    LaunchFailed { detail: String },
    /// The key tool ran and reported failure, with these diagnostics.
    ToolFailed { diagnostics: String },
    /// The key tool succeeded but the public key could not be read.
    PublicKeyUnreadable { detail: String },
    /// The key pair is there; this is the text of the public key.
    Generated { public_key: String },
}

/// The mathematical value of a `KeyGenerationOutcome`.
pub enum KeyGenerationOutcomeView {
    DirectoryFailed { detail: Seq<char> },
    LaunchFailed { detail: Seq<char> },
    ToolFailed { diagnostics: Seq<char> },
    PublicKeyUnreadable { detail: Seq<char> },
    Generated { public_key: Seq<char> },
}

impl View for KeyGenerationOutcome {
    type V = KeyGenerationOutcomeView;

    open spec fn view(&self) -> KeyGenerationOutcomeView {
        match self {
            KeyGenerationOutcome::DirectoryFailed { detail } => KeyGenerationOutcomeView::DirectoryFailed {
                detail: detail@,
            },
            KeyGenerationOutcome::LaunchFailed { detail } => KeyGenerationOutcomeView::LaunchFailed {
                detail: detail@,
            },
            KeyGenerationOutcome::ToolFailed { diagnostics } => KeyGenerationOutcomeView::ToolFailed {
                diagnostics: diagnostics@,
            },
            KeyGenerationOutcome::PublicKeyUnreadable { detail } =>
                KeyGenerationOutcomeView::PublicKeyUnreadable { detail: detail@ },
            KeyGenerationOutcome::Generated { public_key } => KeyGenerationOutcomeView::Generated {
                public_key: public_key@,
            },
        }
    }
}

/// A generated key pair: the text of the public key and the file of the
/// private key.
#[derive(Clone, Debug, PartialEq, Eq)]
pub struct GeneratedKey {
    pub public_key: String,
    pub private_key_path: String,
}

/// The failure that `outcome` amounts to, unless it is success.
pub open spec fn key_failure(plan: KeyGenerationPlanView, outcome: KeyGenerationOutcomeView) -> Option<
    VcsErrorView,
> {
    match outcome {
        KeyGenerationOutcomeView::DirectoryFailed { detail } => Some(
            failure(
                ErrorKind::KeyGenerationFailure,
                plan.key_directory,
                "Failed to create .ssh directory: "@ + detail,
            ),
        ),
        KeyGenerationOutcomeView::LaunchFailed { detail } => Some(
            failure(
                ErrorKind::KeyGenerationFailure,
                plan.private_key_path,
                "Failed to execute ssh-keygen: "@ + detail,
            ),
        ),
        KeyGenerationOutcomeView::ToolFailed { diagnostics } => Some(
            failure(
                ErrorKind::KeyGenerationFailure,
                plan.private_key_path,
                "ssh-keygen failed: "@ + diagnostics,
            ),
        ),
        KeyGenerationOutcomeView::PublicKeyUnreadable { detail } => Some(
            failure(
                ErrorKind::KeyGenerationFailure,
                plan.public_key_path,
                "Failed to read public key: "@ + detail + ". Path: "@ + plan.public_key_path,
            ),
        ),
        KeyGenerationOutcomeView::Generated { public_key } => None,
    }
}

/// What the outcome of carrying out `plan` amounts to: the generated key,
/// or the failure with what the tool or the file system reported.
pub fn conclude_key_generation(plan: &KeyGenerationPlan, outcome: KeyGenerationOutcome) -> (r: Result<
    GeneratedKey,
    VcsError,
>)
    ensures
        match key_failure(plan@, outcome@) {
            Some(failed) => r matches Err(e) && e@ == failed,
            None => r matches Ok(key) && outcome@ == (KeyGenerationOutcomeView::Generated {
                public_key: key.public_key@,
            }) && key.private_key_path@ == plan.private_key_path@,
        },
{
    let kind = ErrorKind::KeyGenerationFailure;
    match outcome {
        KeyGenerationOutcome::DirectoryFailed { detail } => {
            let text = concat("Failed to create .ssh directory: ", detail.as_str());
            Err(VcsError::new(kind, plan.key_directory.as_str(), text.as_str()))
        },
        KeyGenerationOutcome::LaunchFailed { detail } => {
            let text = concat("Failed to execute ssh-keygen: ", detail.as_str());
            Err(VcsError::new(kind, plan.private_key_path.as_str(), text.as_str()))
        },
        KeyGenerationOutcome::ToolFailed { diagnostics } => {
            let text = concat("ssh-keygen failed: ", diagnostics.as_str());
            Err(VcsError::new(kind, plan.private_key_path.as_str(), text.as_str()))
        },
        KeyGenerationOutcome::PublicKeyUnreadable { detail } => {
            let head = concat("Failed to read public key: ", detail.as_str());
            let middle = concat(head.as_str(), ". Path: ");
            let text = concat(middle.as_str(), plan.public_key_path.as_str());
            Err(VcsError::new(kind, plan.public_key_path.as_str(), text.as_str()))
        },
        KeyGenerationOutcome::Generated { public_key } => Ok(
            GeneratedKey { public_key, private_key_path: plan.private_key_path.clone() },
        ),
    }
}

} // verus!
