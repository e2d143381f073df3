//! Bringing back the content a file had at a commit.

use vstd::prelude::*;
use vstd::string::*;
use vstd::utf8::{decode_utf8, encode_utf8, valid_utf8};
use crate::error::{ErrorKind, VcsError};
use crate::git::{blob_content, commit_tree, find_commit, oid_from_hex, tree_entry_id};
use crate::ids::is_hex_id;
use crate::paths::{base_name, base_name_of};
use crate::repository::open_repository;
use crate::text::no_text;

verus! {

/// What `String::from_utf8_lossy` makes of bytes that are not UTF-8.
pub uninterp spec fn lossy_text(bytes: Seq<u8>) -> Seq<char>;

/// The text that `bytes` are restored as: what they encode where they are
/// UTF-8, and otherwise that text with each invalid sequence replaced.
pub open spec fn restored_text(bytes: Seq<u8>) -> Seq<char> {
    if valid_utf8(bytes) {
        decode_utf8(bytes)
    } else {
        lossy_text(bytes)
    }
}

/// `String::from_utf8_lossy`: the text that `bytes` encode; bytes that are
/// not UTF-8 come out with each invalid sequence replaced.
#[verifier::external_body]
fn decode_lossy(bytes: &Vec<u8>) -> (text: String)
    ensures
        valid_utf8(bytes@) ==> text@ == decode_utf8(bytes@),
        !valid_utf8(bytes@) ==> text@ == lossy_text(bytes@),
{
    String::from_utf8_lossy(bytes).into_owned()
}

/// A file to write: the path as the caller gave it, and its content.
#[derive(Clone, Debug, PartialEq, Eq)]
pub struct RestoredFile {
    pub path: String,
    pub content: String,
}

/// Text that was committed comes back as it was: restoring the bytes that
/// encode `text` gives `text`.
pub proof fn lemma_restore_round_trip(text: Seq<char>)
    ensures
        restored_text(encode_utf8(text)) == text,
{
    vstd::utf8::encode_utf8_valid_utf8(text);
    vstd::utf8::encode_utf8_decode_utf8(text);
}

/// Content that is UTF-8 comes back byte for byte: the restored text
/// encodes to the bytes that were stored.
pub proof fn lemma_restore_keeps_bytes(bytes: Seq<u8>)
    requires
        valid_utf8(bytes),
    ensures
        encode_utf8(restored_text(bytes)) == bytes,
{
    vstd::utf8::decode_utf8_encode_utf8(bytes);
}

/// The file to write for the blob `bytes`, to be put at `file_path`.
pub fn restored_file(file_path: &str, bytes: &Vec<u8>) -> (file: RestoredFile)
    ensures
        file.path@ == file_path@,
        file.content@ == restored_text(bytes@),
{
    RestoredFile { path: String::from_str(file_path), content: decode_lossy(bytes) }
}

/// The failure kinds a restore can end in.
pub open spec fn is_restore_failure(kind: ErrorKind) -> bool {
    ||| kind == ErrorKind::NotInitialized
    ||| kind == ErrorKind::OpenFailure
    ||| kind == ErrorKind::InvalidCommitId
    ||| kind == ErrorKind::InvalidPath
    ||| kind == ErrorKind::PathNotFound
}

/// The content that the file of `file_path`'s base name had at the commit
/// `commit_id` of the repository at `repo_path`, to be written at
/// `file_path`. The entry is looked up at the root of the commit's tree.
/// Nothing is written or committed here: writing the file, which discards
/// what it holds, is left to the caller.
pub fn restore_version(repo_path: &str, file_path: &str, commit_id: &str) -> (r: Result<
    RestoredFile,
    VcsError,
>)
    ensures
        match r {
            Ok(file) => {
                &&& file.path@ == file_path@
                &&& is_hex_id(commit_id@)
                &&& base_name(file_path@) is Some
            },
            Err(e) => {
                &&& is_restore_failure(e.kind)
                &&& e.kind == ErrorKind::InvalidCommitId ==> e.context@ == commit_id@
                &&& e.kind == ErrorKind::InvalidPath ==> base_name(file_path@) is None && e.context@
                    == file_path@
                &&& e.kind == ErrorKind::PathNotFound ==> e.context@ == file_path@
            },
        },
        !is_hex_id(commit_id@) ==> (r matches Err(e) && e.kind != ErrorKind::InvalidPath && e.kind
            != ErrorKind::PathNotFound),
{
    let repo = match open_repository(repo_path) {
        Ok(repo) => repo,
        Err(e) => {
            return Err(e);
        },
    };
    let oid = match oid_from_hex(commit_id) {
        Ok(oid) => oid,
        Err(error) => {
            return Err(VcsError::from_git(ErrorKind::InvalidCommitId, commit_id, &error));
        },
    };
    let commit = match find_commit(&repo, oid) {
        Ok(commit) => commit,
        Err(error) => {
            return Err(VcsError::from_git(ErrorKind::InvalidCommitId, commit_id, &error));
        },
    };
    let name = match base_name_of(file_path) {
        Some(name) => name,
        None => {
            return Err(VcsError::new(ErrorKind::InvalidPath, file_path, no_text()));
        },
    };
    let tree = match commit_tree(&commit) {
        Ok(tree) => tree,
        Err(error) => {
            return Err(VcsError::from_git(ErrorKind::PathNotFound, file_path, &error));
        },
    };
    let entry_id = match tree_entry_id(&tree, name.as_str()) {
        Ok(entry_id) => entry_id,
        Err(error) => {
            return Err(VcsError::from_git(ErrorKind::PathNotFound, file_path, &error));
        },
    };
    match blob_content(&repo, entry_id) {
        Ok(bytes) => Ok(restored_file(file_path, &bytes)),
        Err(error) => Err(VcsError::from_git(ErrorKind::PathNotFound, file_path, &error)),
    }
}

} // verus!
