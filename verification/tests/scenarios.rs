use std::io::Write;
use std::path::Path;

use doc_vcs::error::ErrorKind;
use doc_vcs::history::{diff_for_commit, get_file_history, load_walk};
use doc_vcs::repository::{init_git_repo, open_repository, plan_init, DirectoryProbe, InitAction, InitStatus};
use doc_vcs::restore::restore_version;
use doc_vcs::snapshot::{commit_all_changes, commit_path};

fn probe(path: &Path) -> DirectoryProbe {
    DirectoryProbe { exists: path.exists(), has_metadata: path.join(".git").exists() }
}

fn write_file(dir: &Path, name: &str, content: &[u8]) {
    let mut file = tempfile::NamedTempFile::new_in(dir).unwrap();
    file.write_all(content).unwrap();
    file.persist(dir.join(name)).unwrap();
}

fn make_dir(parent: &Path, name: &str) -> std::path::PathBuf {
    tempfile::Builder::new().prefix(name).rand_bytes(0).tempdir_in(parent).unwrap().keep()
}

fn fresh_repo() -> (tempfile::TempDir, String) {
    let dir = tempfile::tempdir().unwrap();
    let root = dir.path().to_str().unwrap().to_string();
    assert_eq!(init_git_repo(&root, probe(dir.path())), Ok(InitStatus::Initialized));
    (dir, root)
}

fn is_full_id(id: &str) -> bool {
    id.len() == 40 && id.chars().all(|c| c.is_ascii_digit() || ('a'..='f').contains(&c))
}

#[test]
fn init_plan_by_probe() {
    assert_eq!(plan_init(DirectoryProbe { exists: false, has_metadata: false }), InitAction::Reject);
    assert_eq!(plan_init(DirectoryProbe { exists: false, has_metadata: true }), InitAction::Reject);
    assert_eq!(plan_init(DirectoryProbe { exists: true, has_metadata: true }), InitAction::Keep);
    assert_eq!(plan_init(DirectoryProbe { exists: true, has_metadata: false }), InitAction::Create);
}

#[test]
fn init_without_directory_is_not_found() {
    let dir = tempfile::tempdir().unwrap();
    let missing = dir.path().join("missing");
    let root = missing.to_str().unwrap();
    let error = init_git_repo(root, probe(&missing)).unwrap_err();
    assert_eq!(error.kind, ErrorKind::NotFound);
    assert_eq!(error.context, root);
    assert_eq!(error.detail, "");
    assert_eq!(error.message(), "Directory does not exist");
    assert!(!missing.exists());
}

#[test]
fn init_twice_keeps_the_repository() {
    let (dir, root) = fresh_repo();
    assert!(dir.path().join(".git").exists());
    write_file(dir.path(), "board.json", b"{}");
    let id = commit_all_changes(&root, "first").unwrap();
    assert_eq!(init_git_repo(&root, probe(dir.path())), Ok(InitStatus::AlreadyInitialized));
    assert_eq!(init_git_repo(&root, probe(dir.path())), Ok(InitStatus::AlreadyInitialized));
    let repo = git2::Repository::open(dir.path()).unwrap();
    assert_eq!(repo.head().unwrap().target().unwrap().to_string(), id);
}

#[test]
fn init_failure_is_reported() {
    let dir = tempfile::tempdir().unwrap();
    write_file(dir.path(), "plain", b"not a directory");
    let below_file = dir.path().join("plain").join("repo");
    let claimed = DirectoryProbe { exists: true, has_metadata: false };
    let error = init_git_repo(below_file.to_str().unwrap(), claimed).unwrap_err();
    assert_eq!(error.kind, ErrorKind::InitFailure);
    assert_eq!(error.context, below_file.to_str().unwrap());
    assert!(error.message().starts_with("Failed to initialize repository: "));
}

#[test]
fn open_without_repository_is_not_initialized() {
    let dir = tempfile::tempdir().unwrap();
    let root = dir.path().to_str().unwrap();
    let error = open_repository(root).err().unwrap();
    assert_eq!(error.kind, ErrorKind::NotInitialized);
    assert_eq!(error.context, root);
    assert_eq!(commit_all_changes(root, "m").unwrap_err().kind, ErrorKind::NotInitialized);
    assert_eq!(get_file_history(root, "board.json").unwrap_err().kind, ErrorKind::NotInitialized);
    assert_eq!(
        restore_version(root, "board.json", "abc").unwrap_err().kind,
        ErrorKind::NotInitialized
    );
}

#[test]
fn open_of_damaged_repository_fails() {
    let dir = tempfile::tempdir().unwrap();
    write_file(dir.path(), ".git", b"not a pointer to a repository\n");
    let root = dir.path().to_str().unwrap();
    let error = open_repository(root).err().unwrap();
    assert_eq!(error.kind, ErrorKind::OpenFailure);
    assert_eq!(error.context, root);
    assert!(error.message().starts_with("Failed to open repository: "));
}

#[test]
fn first_commit_shows_in_history() {
    let (dir, root) = fresh_repo();
    write_file(dir.path(), "board.json", b"{}");
    let id = commit_all_changes(&root, "first").unwrap();
    assert!(is_full_id(&id));
    let history = get_file_history(&root, "board.json").unwrap();
    assert_eq!(history.len(), 1);
    assert_eq!(history[0].message, "first");
    assert_eq!(history[0].commit_id, id);
    assert_eq!(history[0].author, "Excalidraw Local");
    assert!(history[0].timestamp > 0);
}

#[test]
fn commits_are_chained_to_the_head() {
    let (dir, root) = fresh_repo();
    write_file(dir.path(), "board.json", b"one");
    let first = commit_all_changes(&root, "v1").unwrap();
    write_file(dir.path(), "board.json", b"two");
    let second = commit_all_changes(&root, "v2").unwrap();
    assert_ne!(first, second);
    let repo = git2::Repository::open(dir.path()).unwrap();
    let head = repo.head().unwrap().peel_to_commit().unwrap();
    assert_eq!(head.id().to_string(), second);
    assert_eq!(head.parent_count(), 1);
    assert_eq!(head.parent(0).unwrap().id().to_string(), first);
    assert_eq!(head.parent(0).unwrap().parent_count(), 0);
    assert_eq!(head.author().name(), Some("Excalidraw Local"));
    assert_eq!(head.committer().email(), Some("excalidraw@local.app"));
    assert_eq!(head.message(), Some("v2"));
}

#[test]
fn restore_gives_the_content_of_the_commit() {
    let (dir, root) = fresh_repo();
    write_file(dir.path(), "board.json", b"content A");
    let v1 = commit_all_changes(&root, "v1").unwrap();
    write_file(dir.path(), "board.json", b"content B");
    let v2 = commit_all_changes(&root, "v2").unwrap();
    let target = dir.path().join("board.json");
    let target = target.to_str().unwrap();

    let restored = restore_version(&root, target, &v1).unwrap();
    assert_eq!(restored.content, "content A");
    assert_eq!(restored.path, target);
    assert_eq!(restore_version(&root, "board.json", &v2).unwrap().content, "content B");
    assert_eq!(restore_version(&root, "board.json", &v1.to_uppercase()).unwrap().content, "content A");

    let head = git2::Repository::open(dir.path()).unwrap().head().unwrap().target().unwrap();
    assert_eq!(head.to_string(), v2);
}

#[test]
fn restore_replaces_invalid_utf8() {
    let (dir, root) = fresh_repo();
    write_file(dir.path(), "blob.bin", b"ok\xff\xfeend");
    let id = commit_all_changes(&root, "binary").unwrap();
    let restored = restore_version(&root, "blob.bin", &id).unwrap();
    assert_eq!(restored.content, "ok\u{fffd}\u{fffd}end");
}

#[test]
fn restore_rejects_malformed_and_unknown_ids() {
    let (dir, root) = fresh_repo();
    write_file(dir.path(), "board.json", b"{}");
    commit_all_changes(&root, "first").unwrap();
    for bad in ["", "xyz", "12 34", &"a".repeat(41), "\u{e9}"] {
        let error = restore_version(&root, "board.json", bad).unwrap_err();
        assert_eq!(error.kind, ErrorKind::InvalidCommitId, "{:?}", bad);
        assert_eq!(error.context, bad);
        assert!(error.message().starts_with("Invalid commit ID: "));
    }
    let unknown = "0123456789abcdef0123456789abcdef01234567";
    let error = restore_version(&root, "board.json", unknown).unwrap_err();
    assert_eq!(error.kind, ErrorKind::InvalidCommitId);
    assert_eq!(error.context, unknown);
}

#[test]
fn restore_of_missing_file_is_path_not_found() {
    let (dir, root) = fresh_repo();
    write_file(dir.path(), "board.json", b"{}");
    let sub = make_dir(dir.path(), "sub");
    write_file(&sub, "inner.json", b"[]");
    let id = commit_all_changes(&root, "first").unwrap();

    let error = restore_version(&root, "absent.json", &id).unwrap_err();
    assert_eq!(error.kind, ErrorKind::PathNotFound);
    assert_eq!(error.context, "absent.json");

    let error = restore_version(&root, "sub", &id).unwrap_err();
    assert_eq!(error.kind, ErrorKind::PathNotFound);

    let error = restore_version(&root, "sub/inner.json", &id).unwrap_err();
    assert_eq!(error.kind, ErrorKind::PathNotFound);

    let error = restore_version(&root, "sub/..", &id).unwrap_err();
    assert_eq!(error.kind, ErrorKind::InvalidPath);
    assert_eq!(error.context, "sub/..");
}

#[test]
fn history_lists_only_commits_that_changed_the_file() {
    let (dir, root) = fresh_repo();
    write_file(dir.path(), "board.json", b"1");
    write_file(dir.path(), "other.txt", b"a");
    let c1 = commit_all_changes(&root, "both").unwrap();
    write_file(dir.path(), "other.txt", b"b");
    let c2 = commit_all_changes(&root, "other only").unwrap();
    write_file(dir.path(), "board.json", b"2");
    let c3 = commit_all_changes(&root, "board only").unwrap();

    let board: Vec<String> =
        get_file_history(&root, "/any/where/board.json").unwrap().into_iter().map(|e| e.commit_id).collect();
    assert_eq!(board, vec![c3.clone(), c1.clone()]);
    let other: Vec<String> =
        get_file_history(&root, "other.txt").unwrap().into_iter().map(|e| e.commit_id).collect();
    assert_eq!(other, vec![c2.clone(), c1.clone()]);
    assert_eq!(get_file_history(&root, "absent").unwrap(), Vec::new());

    let history = get_file_history(&root, "board.json").unwrap();
    for pair in history.windows(2) {
        assert!(pair[0].timestamp >= pair[1].timestamp);
    }
}

#[test]
fn history_matches_files_in_subdirectories_by_base_name() {
    let (dir, root) = fresh_repo();
    let sub = make_dir(dir.path(), "notes");
    write_file(&sub, "board.json", b"nested");
    let id = commit_all_changes(&root, "nested").unwrap();
    let history = get_file_history(&root, "board.json").unwrap();
    assert_eq!(history.len(), 1);
    assert_eq!(history[0].commit_id, id);
}

#[test]
fn history_notes_removal() {
    let (dir, root) = fresh_repo();
    let mut board = tempfile::Builder::new()
        .prefix("board.json")
        .rand_bytes(0)
        .tempfile_in(dir.path())
        .unwrap();
    board.write_all(b"1").unwrap();
    board.flush().unwrap();
    write_file(dir.path(), "keep.txt", b"k");
    let added = commit_all_changes(&root, "add").unwrap();
    drop(board);
    assert!(!dir.path().join("board.json").exists());
    let removed = commit_all_changes(&root, "remove").unwrap();
    let history = get_file_history(&root, "board.json").unwrap();
    let ids: Vec<String> = history.into_iter().map(|e| e.commit_id).collect();
    assert_eq!(ids, vec![removed.clone(), added.clone()]);
    assert_eq!(restore_version(&root, "board.json", &added).unwrap().content, "1");
    assert_eq!(
        restore_version(&root, "board.json", &removed).unwrap_err().kind,
        ErrorKind::PathNotFound
    );
}

#[test]
fn history_of_repository_without_commits_fails() {
    let (_dir, root) = fresh_repo();
    let error = get_file_history(&root, "board.json").unwrap_err();
    assert_eq!(error.kind, ErrorKind::HistoryFailure);
    assert!(error.message().starts_with("Failed to read history: "));
}

#[test]
fn history_of_file_with_accented_name() {
    let (dir, root) = fresh_repo();
    write_file(dir.path(), "caf\u{e9}.json", b"1");
    let id = commit_all_changes(&root, "accent").unwrap();
    let history = get_file_history(&root, "docs/caf\u{e9}.json").unwrap();
    assert_eq!(history.len(), 1);
    assert_eq!(history[0].commit_id, id);
    assert_eq!(restore_version(&root, "caf\u{e9}.json", &id).unwrap().content, "1");
}

#[test]
fn history_rejects_path_without_base_name() {
    let (dir, root) = fresh_repo();
    write_file(dir.path(), "board.json", b"1");
    commit_all_changes(&root, "add").unwrap();
    let error = get_file_history(&root, "/").unwrap_err();
    assert_eq!(error.kind, ErrorKind::InvalidPath);
    assert_eq!(error.context, "/");
}

#[test]
fn walk_records_hold_what_the_commits_hold() {
    let (dir, root) = fresh_repo();
    write_file(dir.path(), "board.json", b"1");
    let c1 = commit_all_changes(&root, "one").unwrap();
    write_file(dir.path(), "other.txt", b"x");
    let c2 = commit_all_changes(&root, "two").unwrap();
    let repo = open_repository(&root).unwrap();
    let walk = load_walk(&repo).unwrap();
    assert_eq!(walk.len(), 2);
    assert_eq!(walk[0].commit_id, c2);
    assert_eq!(walk[0].message.as_deref(), Some("two"));
    assert_eq!(walk[0].author.as_deref(), Some("Excalidraw Local"));
    assert_eq!(walk[0].changed, Some(vec!["other.txt".to_string()]));
    assert_eq!(walk[1].commit_id, c1);
    assert_eq!(walk[1].changed, Some(vec!["board.json".to_string()]));
    assert!(walk[0].timestamp >= walk[1].timestamp);
}

#[test]
fn diff_for_commit_compares_with_first_parent() {
    let (dir, root) = fresh_repo();
    write_file(dir.path(), "board.json", b"1");
    let c1 = commit_all_changes(&root, "one").unwrap();
    write_file(dir.path(), "other.txt", b"x");
    let c2 = commit_all_changes(&root, "two").unwrap();
    let repo = git2::Repository::open(dir.path()).unwrap();
    let root_commit = repo.find_commit(git2::Oid::from_str(&c1).unwrap()).unwrap();
    let child = repo.find_commit(git2::Oid::from_str(&c2).unwrap()).unwrap();
    assert_eq!(diff_for_commit(&repo, &root_commit, "board.json"), Ok(true));
    assert_eq!(diff_for_commit(&repo, &root_commit, "other.txt"), Ok(false));
    assert_eq!(diff_for_commit(&repo, &child, "board.json"), Ok(false));
    assert_eq!(diff_for_commit(&repo, &child, "other.txt"), Ok(true));
    assert_eq!(diff_for_commit(&repo, &child, ""), Ok(false));
}

#[test]
fn commit_path_stages_one_file() {
    let (dir, root) = fresh_repo();
    write_file(dir.path(), "board.json", b"1");
    write_file(dir.path(), "other.txt", b"x");
    let id = commit_path(&root, "board.json", "only board").unwrap();
    assert!(is_full_id(&id));
    let repo = git2::Repository::open(dir.path()).unwrap();
    let tree = repo.head().unwrap().peel_to_tree().unwrap();
    assert_eq!(tree.len(), 1);
    assert!(tree.get_name("board.json").is_some());
    assert_eq!(get_file_history(&root, "other.txt").unwrap(), Vec::new());
}

#[test]
fn commit_path_of_missing_file_is_a_staging_failure() {
    let (_dir, root) = fresh_repo();
    let error = commit_path(&root, "absent.json", "nothing").unwrap_err();
    assert_eq!(error.kind, ErrorKind::StagingFailure);
    assert_eq!(error.context, "absent.json");
    assert!(error.message().starts_with("Failed to stage changes: "));
}

#[test]
fn commit_with_unstorable_message_is_a_commit_failure() {
    let (dir, root) = fresh_repo();
    write_file(dir.path(), "board.json", b"1");
    let error = commit_all_changes(&root, "bad\0message").unwrap_err();
    assert_eq!(error.kind, ErrorKind::CommitFailure);
    assert!(error.message().starts_with("Failed to commit: "));
}

#[test]
fn commit_of_empty_tree_has_no_history_for_any_file() {
    let (_dir, root) = fresh_repo();
    let id = commit_all_changes(&root, "empty").unwrap();
    assert!(is_full_id(&id));
    assert_eq!(get_file_history(&root, "board.json").unwrap(), Vec::new());
}
