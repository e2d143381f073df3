use std::io::Write;
use std::path::Path;

use doc_vcs::error::ErrorKind;
use doc_vcs::remote::{is_ssh_address, plan_remote_change, set_git_remote, RemoteChange};
use doc_vcs::repository::{init_git_repo, DirectoryProbe, InitStatus};
use doc_vcs::snapshot::commit_all_changes;
use doc_vcs::transfer::{check_probe_request, push_to_remote, test_git_connection, KeyFileProbe};

fn write_file(dir: &Path, name: &str, content: &[u8]) {
    let mut file = tempfile::NamedTempFile::new_in(dir).unwrap();
    file.write_all(content).unwrap();
    file.persist(dir.join(name)).unwrap();
}

fn fresh_repo() -> (tempfile::TempDir, String) {
    let dir = tempfile::tempdir().unwrap();
    let root = dir.path().to_str().unwrap().to_string();
    let probe = DirectoryProbe { exists: true, has_metadata: false };
    assert_eq!(init_git_repo(&root, probe), Ok(InitStatus::Initialized));
    git2::Repository::open(&root).unwrap().set_head("refs/heads/master").unwrap();
    (dir, root)
}

fn key(path: &str, exists: bool) -> Option<KeyFileProbe> {
    Some(KeyFileProbe { path: path.to_string(), exists })
}

#[test]
fn ssh_addresses() {
    assert!(is_ssh_address("git@github.com:user/repo.git"));
    assert!(is_ssh_address("ssh://git@example.com/repo.git"));
    assert!(is_ssh_address("git@"));
    assert!(is_ssh_address("ssh://"));
    assert!(!is_ssh_address("https://example.com/repo.git"));
    assert!(!is_ssh_address("http://git@example.com"));
    assert!(!is_ssh_address("git"));
    assert!(!is_ssh_address("ssh:/"));
    assert!(!is_ssh_address(" git@host:repo"));
    assert!(!is_ssh_address("GIT@host:repo"));
    assert!(!is_ssh_address(""));
    assert!(!is_ssh_address("/local/path"));
}

#[test]
fn remote_change_by_presence() {
    assert_eq!(plan_remote_change(false), RemoteChange::Created);
    assert_eq!(plan_remote_change(true), RemoteChange::Updated);
}

#[test]
fn probe_request_checks_address_before_key() {
    let e = check_probe_request("https://example.com/repo.git", &key("/missing", false)).unwrap_err();
    assert_eq!(e.kind, ErrorKind::InvalidUrlScheme);
    assert_eq!(e.context, "https://example.com/repo.git");
    let e = check_probe_request("git@example.com:repo.git", &key("/missing", false)).unwrap_err();
    assert_eq!(e.kind, ErrorKind::KeyNotFound);
    assert_eq!(e.context, "/missing");
    assert_eq!(e.detail, "");
    assert_eq!(e.message(), "SSH key not found at path: /missing. Please check if the file exists.");
    assert_eq!(check_probe_request("git@example.com:repo.git", &key("/there", true)), Ok(()));
    assert_eq!(check_probe_request("ssh://example.com/repo.git", &None), Ok(()));
}

#[test]
fn probe_of_https_address_fails_at_once() {
    let error = test_git_connection(
        "/nonexistent/repository",
        "https://example.com/repo.git",
        "user",
        "user@example.com",
        None,
    )
    .unwrap_err();
    assert_eq!(error.kind, ErrorKind::InvalidUrlScheme);
    assert_eq!(error.context, "https://example.com/repo.git");
    assert_eq!(error.detail, "");
    assert_eq!(
        error.message(),
        "Only SSH URLs are supported (e.g., git@github.com:username/repo.git). Please use an SSH URL instead."
    );
}

#[test]
fn probe_with_missing_key_fails_before_the_repository_is_opened() {
    let error = test_git_connection(
        "/nonexistent/repository",
        "git@example.com:repo.git",
        "user",
        "user@example.com",
        key("/no/such/key", false),
    )
    .unwrap_err();
    assert_eq!(error.kind, ErrorKind::KeyNotFound);
    assert_eq!(error.context, "/no/such/key");
}

#[test]
fn probe_of_missing_repository_is_not_initialized() {
    let dir = tempfile::tempdir().unwrap();
    let error = test_git_connection(
        dir.path().to_str().unwrap(),
        "git@example.com:repo.git",
        "user",
        "user@example.com",
        None,
    )
    .unwrap_err();
    assert_eq!(error.kind, ErrorKind::NotInitialized);
}

#[test]
fn set_remote_twice_leaves_one_remote_with_the_later_address() {
    let (dir, root) = fresh_repo();
    assert_eq!(set_git_remote(&root, "git@example.com:first.git"), Ok(RemoteChange::Created));
    assert_eq!(set_git_remote(&root, "git@example.com:second.git"), Ok(RemoteChange::Updated));
    let repo = git2::Repository::open(dir.path()).unwrap();
    let remotes = repo.remotes().unwrap();
    assert_eq!(remotes.len(), 1);
    assert_eq!(remotes.get(0), Some("origin"));
    assert_eq!(repo.find_remote("origin").unwrap().url(), Some("git@example.com:second.git"));
}

#[test]
fn set_remote_leaves_other_remotes_alone() {
    let (dir, root) = fresh_repo();
    let repo = git2::Repository::open(dir.path()).unwrap();
    repo.remote("backup", "git@example.com:backup.git").unwrap();
    assert_eq!(set_git_remote(&root, "git@example.com:main.git"), Ok(RemoteChange::Created));
    assert_eq!(repo.find_remote("backup").unwrap().url(), Some("git@example.com:backup.git"));
    assert_eq!(repo.remotes().unwrap().len(), 2);
}

#[test]
fn set_remote_failures() {
    let dir = tempfile::tempdir().unwrap();
    let root = dir.path().to_str().unwrap();
    assert_eq!(set_git_remote(root, "git@example.com:a.git").unwrap_err().kind, ErrorKind::NotInitialized);

    let (_dir, root) = fresh_repo();
    let error = set_git_remote(&root, "bad\0address").unwrap_err();
    assert_eq!(error.kind, ErrorKind::RemoteFailure);
    assert_eq!(error.context, "bad\0address");
    assert!(error.message().starts_with("Failed to configure remote: "));
}

#[test]
fn push_without_remote_is_remote_not_found() {
    let (dir, root) = fresh_repo();
    write_file(dir.path(), "board.json", b"1");
    commit_all_changes(&root, "one").unwrap();
    let error = push_to_remote(&root, None).unwrap_err();
    assert_eq!(error.kind, ErrorKind::RemoteNotFound);
    assert!(error.message().starts_with("Failed to find remote 'origin': "));
}

#[test]
fn push_without_repository_is_not_initialized() {
    let dir = tempfile::tempdir().unwrap();
    let error = push_to_remote(dir.path().to_str().unwrap(), None).unwrap_err();
    assert_eq!(error.kind, ErrorKind::NotInitialized);
}

#[test]
fn push_to_unreachable_remote_is_a_transfer_failure() {
    let (dir, root) = fresh_repo();
    write_file(dir.path(), "board.json", b"1");
    commit_all_changes(&root, "one").unwrap();
    let nowhere = dir.path().join("no-such-remote");
    set_git_remote(&root, nowhere.to_str().unwrap()).unwrap();
    let error = push_to_remote(&root, None).unwrap_err();
    assert_eq!(error.kind, ErrorKind::TransferFailure);
    assert!(error.message().starts_with("Failed to reach remote: "));
}

#[test]
fn push_moves_the_primary_branch_to_the_remote() {
    let (dir, root) = fresh_repo();
    let remote_dir = tempfile::tempdir().unwrap();
    let remote = git2::Repository::init_bare(remote_dir.path()).unwrap();
    write_file(dir.path(), "board.json", b"1");
    let id = commit_all_changes(&root, "one").unwrap();
    set_git_remote(&root, remote_dir.path().to_str().unwrap()).unwrap();
    assert_eq!(push_to_remote(&root, None), Ok(()));
    let pushed = remote.find_reference("refs/heads/master").unwrap().target().unwrap();
    assert_eq!(pushed.to_string(), id);
}

#[test]
fn probe_stores_identity_and_adds_the_remote() {
    let (dir, root) = fresh_repo();
    let result = test_git_connection(
        &root,
        "ssh://git@127.0.0.1:1/repo.git",
        "Ada",
        "ada@example.com",
        None,
    );
    let error = result.unwrap_err();
    assert!(error.kind == ErrorKind::TransferFailure || error.kind == ErrorKind::AuthFailure);
    let repo = git2::Repository::open(dir.path()).unwrap();
    let config = repo.config().unwrap().open_level(git2::ConfigLevel::Local).unwrap();
    assert_eq!(config.get_string("user.name").unwrap(), "Ada");
    assert_eq!(config.get_string("user.email").unwrap(), "ada@example.com");
    assert_eq!(repo.find_remote("origin").unwrap().url(), Some("ssh://git@127.0.0.1:1/repo.git"));
}

#[test]
fn probe_of_reachable_remote_reports_true() {
    let (dir, root) = fresh_repo();
    let remote_dir = tempfile::tempdir().unwrap();
    git2::Repository::init_bare(remote_dir.path()).unwrap();
    write_file(dir.path(), "board.json", b"1");
    commit_all_changes(&root, "one").unwrap();
    set_git_remote(&root, remote_dir.path().to_str().unwrap()).unwrap();
    let result = test_git_connection(&root, "git@example.com:repo.git", "Ada", "ada@example.com", None);
    assert_eq!(result, Ok(true));
    let repo = git2::Repository::open(dir.path()).unwrap();
    assert_eq!(repo.find_remote("origin").unwrap().url(), remote_dir.path().to_str());
}
