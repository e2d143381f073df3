//! The calls into the `git2` crate. What is stated of them here is taken
//! on trust from that crate's source; everything else in the library is
//! proved on top of it.

use vstd::prelude::*;
use crate::credentials::CredentialResolver;
use crate::error::FailureClass;
use crate::ids::{is_full_id, is_hex_id};
use crate::transfer::answer_credential_request;

verus! {

#[verifier::external_type_specification]
#[verifier::external_body]
pub struct ExRepository(git2::Repository);

#[verifier::external_type_specification]
#[verifier::external_body]
pub struct ExError(git2::Error);

#[verifier::external_type_specification]
#[verifier::external_body]
pub struct ExOid(git2::Oid);

#[verifier::external_type_specification]
#[verifier::external_body]
pub struct ExCommit<'repo>(git2::Commit<'repo>);

#[verifier::external_type_specification]
#[verifier::external_body]
pub struct ExTree<'repo>(git2::Tree<'repo>);

#[verifier::external_type_specification]
#[verifier::external_body]
pub struct ExIndex(git2::Index);

#[verifier::external_type_specification]
#[verifier::external_body]
pub struct ExSignature<'a>(git2::Signature<'a>);

#[verifier::external_type_specification]
#[verifier::external_body]
pub struct ExReference<'repo>(git2::Reference<'repo>);

#[verifier::external_type_specification]
#[verifier::external_body]
pub struct ExRevwalk<'repo>(git2::Revwalk<'repo>);

#[verifier::external_type_specification]
#[verifier::external_body]
pub struct ExDiff<'repo>(git2::Diff<'repo>);

#[verifier::external_type_specification]
#[verifier::external_body]
pub struct ExRemote<'repo>(git2::Remote<'repo>);

#[verifier::external_type_specification]
#[verifier::external_body]
pub struct ExRemoteCallbacks<'a>(git2::RemoteCallbacks<'a>);

#[verifier::external_type_specification]
#[verifier::external_body]
pub struct ExConfig(git2::Config);

#[verifier::external_type_specification]
#[verifier::external_body]
pub struct ExCred(git2::Cred);

#[verifier::external_type_specification]
#[verifier::external_body]
pub struct ExCredentialType(git2::CredentialType);

/// `git2::Repository::init`: creates a repository in the directory at
/// `path`. Nothing is claimed of the outcome.
#[verifier::external_body]
pub(crate) fn repository_init(path: &str) -> (r: Result<git2::Repository, git2::Error>) {
    git2::Repository::init(path)
}

/// `git2::Repository::open`: opens the repository at `path`. Nothing is
/// claimed of the outcome.
#[verifier::external_body]
pub(crate) fn repository_open(path: &str) -> (r: Result<git2::Repository, git2::Error>) {
    git2::Repository::open(path)
}

/// What `git2::Error::code` gives of an error, reduced to the three classes
/// the library tells apart.
pub uninterp spec fn failure_class_of(error: git2::Error) -> FailureClass;

/// What `git2::Error`'s `Display` gives of an error: the text it is
/// reported with.
pub uninterp spec fn failure_text_of(error: git2::Error) -> Seq<char>;

/// What `git2::Oid`'s `Display` gives of an identifier: its text.
pub uninterp spec fn oid_text(oid: git2::Oid) -> Seq<char>;

/// What `git2::CredentialType::is_ssh_key` gives of the credential types a
/// transport accepts: whether a key-based credential is among them.
pub uninterp spec fn admits_ssh_key(allowed: git2::CredentialType) -> bool;

/// `git2::Error::code`: the class of `error`, reduced to the three the
/// library tells apart. The class is a matter of the error alone.
#[verifier::external_body]
pub(crate) fn error_class(error: &git2::Error) -> (class: FailureClass)
    ensures
        class == failure_class_of(*error),
{
    match error.code() {
        git2::ErrorCode::NotFound => FailureClass::NotFound,
        git2::ErrorCode::Auth => FailureClass::Auth,
        _ => FailureClass::Other,
    }
}

/// `git2::Error`'s `Display`: the text `error` is reported with. The text
/// is a matter of the error alone.
#[verifier::external_body]
pub(crate) fn error_text(error: &git2::Error) -> (text: String)
    ensures
        text@ == failure_text_of(*error),
{
    error.to_string()
}

/// `git2::Error::new`: an error of `class`, of no particular origin, that
/// carries `message`.
#[verifier::external_body]
pub(crate) fn error_of_class(class: FailureClass, message: &str) -> (error: git2::Error) {
    let code = match class {
        FailureClass::NotFound => git2::ErrorCode::NotFound,
        FailureClass::Auth => git2::ErrorCode::Auth,
        FailureClass::Other => git2::ErrorCode::GenericError,
    };
    git2::Error::new(code, git2::ErrorClass::None, message)
}

/// `git2::Oid::from_str`: reads `text` as an object identifier. It is
/// accepted exactly if it is one to forty hexadecimal digits.
#[verifier::external_body]
pub(crate) fn oid_from_hex(text: &str) -> (r: Result<git2::Oid, git2::Error>)
    ensures
        r is Ok <==> is_hex_id(text@),
{
    git2::Oid::from_str(text)
}

/// `git2::Oid`'s `Display`: the text of the identifier, which is forty
/// lower-case hexadecimal digits and a matter of the identifier alone.
#[verifier::external_body]
pub(crate) fn oid_to_hex(oid: &git2::Oid) -> (text: String)
    ensures
        text@ == oid_text(*oid),
        is_full_id(text@),
{
    oid.to_string()
}

/// `git2::Signature::now`: a signature of `name` and `email` with the
/// current time.
#[verifier::external_body]
pub(crate) fn signature_now(name: &str, email: &str) -> (r: Result<
    git2::Signature<'static>,
    git2::Error,
>) {
    git2::Signature::now(name, email)
}

/// `git2::Repository::index`: the repository's staging area.
#[verifier::external_body]
pub(crate) fn repository_index(repo: &git2::Repository) -> (r: Result<git2::Index, git2::Error>) {
    repo.index()
}

/// `git2::Index::add_all`: stages the files of the working tree that match
/// `pattern`, with the default options.
#[verifier::external_body]
pub(crate) fn index_add_all(index: &mut git2::Index, pattern: &str) -> (r: Result<(), git2::Error>) {
    index.add_all([pattern].iter(), git2::IndexAddOption::DEFAULT, None)
}

/// `git2::Index::update_all`: brings the staged entries that match
/// `pattern` in line with the working tree, dropping those whose file is gone.
#[verifier::external_body]
pub(crate) fn index_update_all(index: &mut git2::Index, pattern: &str) -> (r: Result<
    (),
    git2::Error,
>) {
    index.update_all([pattern].iter(), None)
}

/// `git2::Index::add_path`: stages the one file at `path`, relative to the
/// working tree.
#[verifier::external_body]
pub(crate) fn index_add_path(index: &mut git2::Index, path: &str) -> (r: Result<(), git2::Error>) {
    index.add_path(std::path::Path::new(path))
}

/// `git2::Index::write`: writes the staging area to disk.
#[verifier::external_body]
pub(crate) fn index_write(index: &mut git2::Index) -> (r: Result<(), git2::Error>) {
    index.write()
}

/// `git2::Index::write_tree`: stores the staged state as a tree and gives
/// the tree's identifier.
#[verifier::external_body]
pub(crate) fn index_write_tree(index: &mut git2::Index) -> (r: Result<git2::Oid, git2::Error>) {
    index.write_tree()
}

/// `git2::Repository::find_tree`: the tree with identifier `oid`.
#[verifier::external_body]
pub(crate) fn find_tree<'repo>(repo: &'repo git2::Repository, oid: git2::Oid) -> (r: Result<
    git2::Tree<'repo>,
    git2::Error,
>) {
    repo.find_tree(oid)
}

/// `git2::Repository::head`: the reference that the head points at.
#[verifier::external_body]
pub(crate) fn repository_head<'repo>(repo: &'repo git2::Repository) -> (r: Result<
    git2::Reference<'repo>,
    git2::Error,
>) {
    repo.head()
}

/// `git2::Reference::peel_to_commit`: the commit that `reference` leads to.
#[verifier::external_body]
pub(crate) fn peel_to_commit<'repo>(reference: &git2::Reference<'repo>) -> (r: Result<
    git2::Commit<'repo>,
    git2::Error,
>) {
    reference.peel_to_commit()
}

/// `git2::Repository::commit`: stores a commit of `tree` with `message`,
/// signed by `signature` as author and committer, with `parent` as its one
/// parent or with none, moves `update_ref` to it and gives its identifier.
#[verifier::external_body]
pub(crate) fn create_commit(
    repo: &git2::Repository,
    update_ref: &str,
    signature: &git2::Signature,
    message: &str,
    tree: &git2::Tree,
    parent: Option<&git2::Commit>,
) -> (r: Result<git2::Oid, git2::Error>) {
    let parents: Vec<&git2::Commit> = parent.into_iter().collect();
    repo.commit(Some(update_ref), signature, signature, message, tree, &parents)
}

/// `git2::Repository::revwalk`: a walk over the commit graph, with nothing
/// to start from yet.
#[verifier::external_body]
pub(crate) fn repository_revwalk<'repo>(repo: &'repo git2::Repository) -> (r: Result<
    git2::Revwalk<'repo>,
    git2::Error,
>) {
    repo.revwalk()
}

/// `git2::Revwalk::push_head`: makes the walk start from the head.
#[verifier::external_body]
pub(crate) fn revwalk_push_head(walk: &mut git2::Revwalk) -> (r: Result<(), git2::Error>) {
    walk.push_head()
}

/// `git2::Revwalk`'s `Iterator::next`, to the end or to the first failure:
/// the identifiers of the commits in the order the walk yields them.
#[verifier::external_body]
pub(crate) fn revwalk_ids(walk: git2::Revwalk) -> (r: Result<Vec<git2::Oid>, git2::Error>) {
    walk.collect()
}

/// `git2::Repository::find_commit`: the commit with identifier `oid`.
#[verifier::external_body]
pub(crate) fn find_commit<'repo>(repo: &'repo git2::Repository, oid: git2::Oid) -> (r: Result<
    git2::Commit<'repo>,
    git2::Error,
>) {
    repo.find_commit(oid)
}

/// `git2::Commit::message`: the commit's message, unless it is not UTF-8.
#[verifier::external_body]
pub(crate) fn commit_message(commit: &git2::Commit) -> (message: Option<String>) {
    commit.message().map(String::from)
}

/// `git2::Commit::author` and `git2::Signature::name`: the name of the
/// commit's author, unless it is not UTF-8.
#[verifier::external_body]
pub(crate) fn commit_author_name(commit: &git2::Commit) -> (name: Option<String>) {
    commit.author().name().map(String::from)
}

/// `git2::Commit::time` and `git2::Time::seconds`: the commit's time in
/// seconds since the epoch.
#[verifier::external_body]
pub(crate) fn commit_seconds(commit: &git2::Commit) -> (seconds: i64) {
    commit.time().seconds()
}

/// `git2::Commit::parent_count`: how many parents the commit has.
#[verifier::external_body]
pub(crate) fn commit_parent_count(commit: &git2::Commit) -> (count: usize) {
    commit.parent_count()
}

/// `git2::Commit::parent`: the commit's parent at position `position`.
#[verifier::external_body]
pub(crate) fn commit_parent<'repo>(commit: &git2::Commit<'repo>, position: usize) -> (r: Result<
    git2::Commit<'repo>,
    git2::Error,
>) {
    commit.parent(position)
}

/// `git2::Commit::tree`: the tree the commit records.
#[verifier::external_body]
pub(crate) fn commit_tree<'repo>(commit: &git2::Commit<'repo>) -> (r: Result<
    git2::Tree<'repo>,
    git2::Error,
>) {
    commit.tree()
}

/// `git2::Repository::diff_tree_to_tree`: the difference from `old` (the
/// empty tree where there is none) to `new`, with the default options.
#[verifier::external_body]
pub(crate) fn diff_trees<'repo>(
    repo: &'repo git2::Repository,
    old: Option<&git2::Tree>,
    new: &git2::Tree,
) -> (r: Result<git2::Diff<'repo>, git2::Error>) {
    repo.diff_tree_to_tree(old, Some(new), None)
}

/// `git2::Diff::deltas`, with `git2::DiffDelta::new_file` and
/// `git2::DiffFile::path`: for each changed file in turn, the path of its
/// new side, where it has one that is UTF-8.
#[verifier::external_body]
pub(crate) fn diff_new_paths(diff: &git2::Diff) -> (paths: Vec<Option<String>>) {
    diff.deltas().map(|delta| delta.new_file().path().and_then(|p| p.to_str()).map(String::from)).collect()
}

/// `git2::Tree::get_path` and `git2::TreeEntry::id`: the identifier of the
/// entry at `path` in `tree`.
#[verifier::external_body]
pub(crate) fn tree_entry_id(tree: &git2::Tree, path: &str) -> (r: Result<git2::Oid, git2::Error>) {
    tree.get_path(std::path::Path::new(path)).map(|entry| entry.id())
}

/// `git2::Repository::find_blob` and `git2::Blob::content`: the bytes of
/// the blob with identifier `oid`.
#[verifier::external_body]
pub(crate) fn blob_content(repo: &git2::Repository, oid: git2::Oid) -> (r: Result<
    Vec<u8>,
    git2::Error,
>) {
    repo.find_blob(oid).map(|blob| blob.content().to_vec())
}

/// `git2::Repository::find_remote`: the remote called `name`.
#[verifier::external_body]
pub(crate) fn find_remote<'repo>(repo: &'repo git2::Repository, name: &str) -> (r: Result<
    git2::Remote<'repo>,
    git2::Error,
>) {
    repo.find_remote(name)
}

/// `git2::Repository::remote_set_url`: stores `url` as the address of the
/// remote called `name`.
#[verifier::external_body]
pub(crate) fn remote_set_url(repo: &git2::Repository, name: &str, url: &str) -> (r: Result<
    (),
    git2::Error,
>) {
    repo.remote_set_url(name, url)
}

/// `git2::Repository::remote`: adds a remote called `name` with address `url`.
#[verifier::external_body]
pub(crate) fn remote_create<'repo>(repo: &'repo git2::Repository, name: &str, url: &str) -> (r:
    Result<git2::Remote<'repo>, git2::Error>) {
    repo.remote(name, url)
}

/// `git2::Repository::config`: the repository's configuration.
#[verifier::external_body]
pub(crate) fn repository_config(repo: &git2::Repository) -> (r: Result<git2::Config, git2::Error>) {
    repo.config()
}

/// `git2::Config::set_str`: stores `value` under `key`.
#[verifier::external_body]
pub(crate) fn config_set_str(config: &mut git2::Config, key: &str, value: &str) -> (r: Result<
    (),
    git2::Error,
>) {
    config.set_str(key, value)
}

/// `git2::CredentialType::is_ssh_key`: whether a key-based credential is
/// among those the transport accepts. That is a matter of `allowed` alone.
#[verifier::external_body]
pub(crate) fn allows_ssh_key(allowed: git2::CredentialType) -> (yes: bool)
    ensures
        yes == admits_ssh_key(allowed),
{
    allowed.is_ssh_key()
}

/// `git2::Cred::ssh_key`: a credential for `username` from the private key
/// in the file at `private_key`, without pass phrase.
#[verifier::external_body]
pub(crate) fn cred_ssh_key(username: &str, private_key: &str) -> (r: Result<git2::Cred, git2::Error>) {
    git2::Cred::ssh_key(username, None, std::path::Path::new(private_key), None)
}

/// `git2::Cred::ssh_key_from_agent`: a credential for `username` that asks
/// the key agent.
#[verifier::external_body]
pub(crate) fn cred_from_agent(username: &str) -> (r: Result<git2::Cred, git2::Error>) {
    git2::Cred::ssh_key_from_agent(username)
}

/// `git2::RemoteCallbacks::new` and `git2::RemoteCallbacks::credentials`:
/// callbacks that answer each request for a credential through `resolver`.
#[verifier::external_body]
pub(crate) fn credential_callbacks(resolver: CredentialResolver) -> (callbacks:
    git2::RemoteCallbacks<'static>) {
    let mut resolver = resolver;
    let mut callbacks = git2::RemoteCallbacks::new();
    callbacks.credentials(move |_url, username, allowed| {
        answer_credential_request(&mut resolver, username, allowed)
    });
    callbacks
}

/// `git2::Remote::push`, with options made by `git2::PushOptions::new` and
/// `git2::PushOptions::remote_callbacks`: pushes `refspec` to `remote`,
/// with `callbacks`.
#[verifier::external_body]
pub(crate) fn remote_push(
    remote: &mut git2::Remote,
    refspec: &str,
    callbacks: git2::RemoteCallbacks,
) -> (r: Result<(), git2::Error>) {
    let mut options = git2::PushOptions::new();
    options.remote_callbacks(callbacks);
    remote.push(&[refspec], Some(&mut options))
}

/// `git2::Remote::fetch`, with options made by `git2::FetchOptions::new`
/// and `git2::FetchOptions::remote_callbacks`: fetches what `remote` is
/// configured to fetch, with `callbacks`.
#[verifier::external_body]
pub(crate) fn remote_fetch(remote: &mut git2::Remote, callbacks: git2::RemoteCallbacks) -> (r:
    Result<(), git2::Error>) {
    let mut options = git2::FetchOptions::new();
    options.remote_callbacks(callbacks);
    let refspecs: [&str; 0] = [];
    remote.fetch(&refspecs, Some(&mut options), None)
}

} // verus!
