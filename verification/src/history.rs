//! The history of one file: the commits of a walk that changed a file of
//! that base name, newest first as the walk yields them.

use vstd::prelude::*;
use vstd::string::*;
use crate::error::{failure, ErrorKind, VcsError};
use crate::git::{
    commit_author_name, commit_message, commit_parent, commit_parent_count, commit_seconds,
    commit_tree, diff_new_paths, diff_trees, find_commit, oid_text, oid_to_hex, repository_revwalk,
    revwalk_ids, revwalk_push_head,
};
use crate::ids::is_full_id;
use crate::paths::{base_name, base_name_of, is_file_name, lemma_base_name_is_file_name};
use crate::repository::open_repository;
use crate::text::no_text;

verus! {

/// One line of a file's history.
#[derive(Clone, Debug, PartialEq, Eq)]
pub struct HistoryEntry {
    pub commit_id: String,
    pub message: String,
    pub timestamp: i64,
    pub author: String,
}

/// The mathematical value of a `HistoryEntry`.
pub struct HistoryEntryView {
    pub commit_id: Seq<char>,
    pub message: Seq<char>,
    pub timestamp: int,
    pub author: Seq<char>,
}

impl View for HistoryEntry {
    type V = HistoryEntryView;

    open spec fn view(&self) -> HistoryEntryView {
        HistoryEntryView {
            commit_id: self.commit_id@,
            message: self.message@,
            timestamp: self.timestamp as int,
            author: self.author@,
        }
    }
}

/// What the walk found of one commit: its identifier, its message and its
/// author's name (each absent if it is not text), its time, and the paths
/// that differ from its first parent, or from the empty tree if it has no
/// parent. `changed` is absent if that difference could not be computed.
#[derive(Clone, Debug, PartialEq, Eq)]
pub struct CommitRecord {
    pub commit_id: String,
    pub message: Option<String>,
    pub author: Option<String>,
    pub timestamp: i64,
    pub changed: Option<Vec<String>>,
}

/// The mathematical value of a `CommitRecord`.
pub struct CommitRecordView {
    pub commit_id: Seq<char>,
    pub message: Option<Seq<char>>,
    pub author: Option<Seq<char>>,
    pub timestamp: int,
    pub changed: Option<Seq<Seq<char>>>,
}

/// The characters of each string of `texts`.
pub open spec fn texts_view(texts: Seq<String>) -> Seq<Seq<char>> {
    texts.map_values(|t: String| t@)
}

/// The characters of an optional owned string.
pub open spec fn opt_string_view(text: Option<String>) -> Option<Seq<char>> {
    match text {
        Some(t) => Some(t@),
        None => None,
    }
}

impl View for CommitRecord {
    type V = CommitRecordView;

    open spec fn view(&self) -> CommitRecordView {
        CommitRecordView {
            commit_id: self.commit_id@,
            message: opt_string_view(self.message),
            author: opt_string_view(self.author),
            timestamp: self.timestamp as int,
            changed: match self.changed {
                Some(paths) => Some(texts_view(paths@)),
                None => None,
            },
        }
    }
}

/// The values of the records of a walk.
pub open spec fn walk_view(walk: Seq<CommitRecord>) -> Seq<CommitRecordView> {
    walk.map_values(|r: CommitRecord| r@)
}

/// The values of the entries of a history.
pub open spec fn entries_view(entries: Seq<HistoryEntry>) -> Seq<HistoryEntryView> {
    entries.map_values(|e: HistoryEntry| e@)
}

/// The author's name shown for a commit whose author's name is not text.
pub open spec fn unknown_author() -> Seq<char> {
    seq!['U', 'n', 'k', 'n', 'o', 'w', 'n']
}

/// One of `paths` has the base name `name`.
pub open spec fn names_file(paths: Seq<Seq<char>>, name: Seq<char>) -> bool {
    exists|i: int| 0 <= i < paths.len() && base_name(#[trigger] paths[i]) == Some(name)
}

/// The commit of `record` changed a file of base name `name`.
pub open spec fn record_matches(record: CommitRecordView, name: Seq<char>) -> bool {
    match record.changed {
        Some(paths) => names_file(paths, name),
        None => false,
    }
}

/// `record_matches` with the name fixed.
pub open spec fn matching(name: Seq<char>) -> spec_fn(CommitRecordView) -> bool {
    |record: CommitRecordView| record_matches(record, name)
}

/// The history line of `record`: a message that is not text shows as
/// empty, an author's name that is not text as unknown.
pub open spec fn entry_of(record: CommitRecordView) -> HistoryEntryView {
    HistoryEntryView {
        commit_id: record.commit_id,
        message: match record.message {
            Some(m) => m,
            None => Seq::<char>::empty(),
        },
        timestamp: record.timestamp,
        author: match record.author {
            Some(a) => a,
            None => unknown_author(),
        },
    }
}

/// `entry_of` as a function value.
pub open spec fn to_entry() -> spec_fn(CommitRecordView) -> HistoryEntryView {
    |record: CommitRecordView| entry_of(record)
}

/// The history of the file of base name `name` over `walk`: the lines of
/// the records that match, in the walk's order.
pub open spec fn history_of(walk: Seq<CommitRecordView>, name: Seq<char>) -> Seq<HistoryEntryView> {
    walk.filter(matching(name)).map_values(to_entry())
}

/// The times of `entries` never rise from one entry to a later one.
pub open spec fn newest_first(entries: Seq<HistoryEntryView>) -> bool {
    forall|i: int, j: int|
        0 <= i < j < entries.len() ==> (#[trigger] entries[i]).timestamp >= (
        #[trigger] entries[j]).timestamp
}

/// The times of the records of `walk` never rise from one record to a later one.
pub open spec fn walk_newest_first(walk: Seq<CommitRecordView>) -> bool {
    forall|i: int, j: int|
        0 <= i < j < walk.len() ==> (#[trigger] walk[i]).timestamp >= (#[trigger] walk[j]).timestamp
}

/// No two records of `walk` have the same identifier.
pub open spec fn distinct_commits(walk: Seq<CommitRecordView>) -> bool {
    forall|i: int, j: int|
        0 <= i < j < walk.len() ==> (#[trigger] walk[i]).commit_id != (#[trigger] walk[j]).commit_id
}

/// The history over a walk with one more record at its end.
pub proof fn lemma_history_push(walk: Seq<CommitRecordView>, record: CommitRecordView, name: Seq<char>)
    ensures
        history_of(walk.push(record), name) == if record_matches(record, name) {
            history_of(walk, name).push(entry_of(record))
        } else {
            history_of(walk, name)
        },
{
    walk.lemma_filter_push(record, matching(name));
    if record_matches(record, name) {
        assert(walk.filter(matching(name)).push(record).map_values(to_entry()) =~= walk.filter(
            matching(name),
        ).map_values(to_entry()).push(entry_of(record)));
    }
}

/// Every line of a history is the line of a record of the walk that
/// matches, and the lines keep the order of their records.
pub proof fn lemma_history_sources(walk: Seq<CommitRecordView>, name: Seq<char>) -> (sources: Seq<int>)
    ensures
        sources.len() == history_of(walk, name).len(),
        forall|j: int|
            0 <= j < sources.len() ==> {
                &&& 0 <= #[trigger] sources[j] < walk.len()
                &&& record_matches(walk[sources[j]], name)
                &&& history_of(walk, name)[j] == entry_of(walk[sources[j]])
            },
        forall|j: int, k: int| 0 <= j < k < sources.len() ==> sources[j] < sources[k],
    decreases walk.len(),
{
    if walk.len() == 0 {
        assert(walk.filter(matching(name)).len() <= walk.len()) by {
            walk.lemma_filter_len(matching(name));
        }
        Seq::<int>::empty()
    } else {
        let front = walk.drop_last();
        let last = walk.last();
        assert(walk =~= front.push(last));
        lemma_history_push(front, last, name);
        let front_sources = lemma_history_sources(front, name);
        if record_matches(last, name) {
            front_sources.push(walk.len() - 1)
        } else {
            front_sources
        }
    }
}

/// A record of the walk that matches has its line in the history.
pub proof fn lemma_history_includes(walk: Seq<CommitRecordView>, name: Seq<char>, i: int)
    requires
        0 <= i < walk.len(),
        record_matches(walk[i], name),
    ensures
        history_of(walk, name).contains(entry_of(walk[i])),
{
    walk.lemma_filter_contains(matching(name), i);
    let kept = walk.filter(matching(name));
    let at = choose|at: int| 0 <= at < kept.len() && kept[at] == walk[i];
    assert(history_of(walk, name)[at] == entry_of(walk[i]));
}

/// In a walk that yields no commit twice, the history has a line for a
/// commit exactly if that commit changed a file of the base name asked for.
pub proof fn lemma_history_filter_correct(walk: Seq<CommitRecordView>, name: Seq<char>, i: int)
    requires
        distinct_commits(walk),
        0 <= i < walk.len(),
    ensures
        record_matches(walk[i], name) <==> exists|j: int|
            0 <= j < history_of(walk, name).len() && (#[trigger] history_of(
                walk,
                name,
            )[j]).commit_id == walk[i].commit_id,
{
    let history = history_of(walk, name);
    if record_matches(walk[i], name) {
        lemma_history_includes(walk, name, i);
        let j = choose|j: int| 0 <= j < history.len() && history[j] == entry_of(walk[i]);
        assert(history[j].commit_id == walk[i].commit_id);
    }
    if exists|j: int| 0 <= j < history.len() && (#[trigger] history[j]).commit_id == walk[i].commit_id {
        let j = choose|j: int|
            0 <= j < history.len() && (#[trigger] history[j]).commit_id == walk[i].commit_id;
        let sources = lemma_history_sources(walk, name);
        let k = sources[j];
        assert(walk[k].commit_id == walk[i].commit_id);
        if k < i {
            assert(walk[k].commit_id != walk[i].commit_id);
        } else if i < k {
            assert(walk[i].commit_id != walk[k].commit_id);
        }
    }
}

/// Where the walk yields the commits newest first, so does the history.
pub proof fn lemma_history_newest_first(walk: Seq<CommitRecordView>, name: Seq<char>)
    requires
        walk_newest_first(walk),
    ensures
        newest_first(history_of(walk, name)),
{
    let history = history_of(walk, name);
    let sources = lemma_history_sources(walk, name);
    assert forall|i: int, j: int| 0 <= i < j < history.len() implies (#[trigger] history[i]).timestamp
        >= (#[trigger] history[j]).timestamp by {
        assert(sources[i] < sources[j]);
        assert(walk[sources[i]].timestamp >= walk[sources[j]].timestamp);
    }
}

/// Whether one of `paths` has the base name `name`.
pub fn touches(paths: &Vec<String>, name: &str) -> (found: bool)
    ensures
        found == names_file(texts_view(paths@), name@),
{
    let wanted = String::from_str(name);
    let mut i: usize = 0;
    while i < paths.len()
        invariant
            i <= paths.len(),
            wanted@ == name@,
            forall|k: int| 0 <= k < i ==> base_name(#[trigger] texts_view(paths@)[k]) != Some(name@),
        decreases paths.len() - i,
    {
        assert(texts_view(paths@)[i as int] == paths@[i as int]@);
        match base_name_of(paths[i].as_str()) {
            Some(base) => {
                if base == wanted {
                    return true;
                }
            },
            None => {},
        }
        i += 1;
    }
    false
}

/// The history line of `record`.
pub fn entry_for(record: &CommitRecord) -> (entry: HistoryEntry)
    ensures
        entry@ == entry_of(record@),
{
    let message = match &record.message {
        Some(m) => m.clone(),
        None => String::new(),
    };
    let author = match &record.author {
        Some(a) => a.clone(),
        None => {
            proof {
                reveal_strlit("Unknown");
                assert("Unknown"@ =~= unknown_author());
            }
            String::from_str("Unknown")
        },
    };
    HistoryEntry {
        commit_id: record.commit_id.clone(),
        message,
        timestamp: record.timestamp,
        author,
    }
}

/// The history of the file of base name `name` over `walk`.
pub fn select_history(walk: &Vec<CommitRecord>, name: &str) -> (entries: Vec<HistoryEntry>)
    ensures
        entries_view(entries@) == history_of(walk_view(walk@), name@),
{
    let mut entries: Vec<HistoryEntry> = Vec::new();
    let mut i: usize = 0;
    assert(walk_view(walk@).take(0) =~= Seq::<CommitRecordView>::empty());
    assert(history_of(Seq::<CommitRecordView>::empty(), name@) =~= Seq::<HistoryEntryView>::empty())
        by {
        Seq::<CommitRecordView>::empty().lemma_filter_len(matching(name@));
    }
    assert(entries_view(entries@) =~= Seq::<HistoryEntryView>::empty());
    while i < walk.len()
        invariant
            i <= walk.len(),
            entries_view(entries@) == history_of(walk_view(walk@).take(i as int), name@),
        decreases walk.len() - i,
    {
        let record = &walk[i];
        let ghost seen = walk_view(walk@).take(i as int);
        proof {
            assert(walk_view(walk@).take(i + 1) =~= seen.push(record@));
            lemma_history_push(seen, record@, name@);
        }
        let matched = match &record.changed {
            Some(paths) => touches(paths, name),
            None => false,
        };
        if matched {
            let ghost before = entries@;
            let entry = entry_for(record);
            entries.push(entry);
            assert(entries_view(entries@) =~= entries_view(before).push(entry_of(record@)));
        }
        i += 1;
    }
    assert(walk_view(walk@).take(walk.len() as int) =~= walk_view(walk@));
    entries
}

/// The paths among `raw` that are there, in order.
pub open spec fn present(raw: Seq<Option<Seq<char>>>) -> Seq<Seq<char>> {
    raw.filter(|p: Option<Seq<char>>| p is Some).map_values(|p: Option<Seq<char>>| p->0)
}

/// The values of a list of optional paths.
pub open spec fn opt_texts_view(raw: Seq<Option<String>>) -> Seq<Option<Seq<char>>> {
    raw.map_values(|p: Option<String>| opt_string_view(p))
}

/// The paths among `raw` that are there, in order.
pub fn present_paths(raw: &Vec<Option<String>>) -> (paths: Vec<String>)
    ensures
        texts_view(paths@) == present(opt_texts_view(raw@)),
{
    let ghost keep = |p: Option<Seq<char>>| p is Some;
    let ghost get = |p: Option<Seq<char>>| p->0;
    let mut paths: Vec<String> = Vec::new();
    let mut i: usize = 0;
    proof {
        assert(opt_texts_view(raw@).take(0) =~= Seq::<Option<Seq<char>>>::empty());
        Seq::<Option<Seq<char>>>::empty().lemma_filter_len(keep);
        assert(texts_view(paths@) =~= Seq::<Option<Seq<char>>>::empty().filter(keep).map_values(
            get,
        ));
    }
    while i < raw.len()
        invariant
            i <= raw.len(),
            keep == |p: Option<Seq<char>>| p is Some,
            get == |p: Option<Seq<char>>| p->0,
            texts_view(paths@) == opt_texts_view(raw@).take(i as int).filter(keep).map_values(get),
        decreases raw.len() - i,
    {
        let ghost seen = opt_texts_view(raw@).take(i as int);
        let ghost item = opt_string_view(raw@[i as int]);
        proof {
            assert(opt_texts_view(raw@).take(i + 1) =~= seen.push(item));
            seen.lemma_filter_push(item, keep);
        }
        match &raw[i] {
            Some(path) => {
                let ghost before = paths@;
                paths.push(path.clone());
                assert(texts_view(paths@) =~= texts_view(before).push(path@));
                assert(seen.filter(keep).push(item).map_values(get) =~= seen.filter(keep).map_values(
                    get,
                ).push(path@));
            },
            None => {},
        }
        i += 1;
    }
    assert(opt_texts_view(raw@).take(raw.len() as int) =~= opt_texts_view(raw@));
    paths
}

/// The paths that differ between `commit` and its first parent, or the
/// empty tree if it has no parent.
fn changed_paths(repo: &git2::Repository, commit: &git2::Commit) -> (r: Result<
    Vec<String>,
    git2::Error,
>) {
    let parent_tree = if commit_parent_count(commit) > 0 {
        let parent = match commit_parent(commit, 0) {
            Ok(parent) => parent,
            Err(error) => {
                return Err(error);
            },
        };
        match commit_tree(&parent) {
            Ok(tree) => Some(tree),
            Err(error) => {
                return Err(error);
            },
        }
    } else {
        None
    };
    let tree = match commit_tree(commit) {
        Ok(tree) => tree,
        Err(error) => {
            return Err(error);
        },
    };
    let old: Option<&git2::Tree> = match &parent_tree {
        Some(tree) => Some(tree),
        None => None,
    };
    match diff_trees(repo, old, &tree) {
        Ok(diff) => Ok(present_paths(&diff_new_paths(&diff))),
        Err(error) => Err(error),
    }
}

/// Whether `commit` changed a file of base name `name`, against its first
/// parent or, without one, against the empty tree. What is found depends on
/// the repository; a name that cannot be a file's is never found.
pub fn diff_for_commit(repo: &git2::Repository, commit: &git2::Commit, name: &str) -> (r: Result<
    bool,
    git2::Error,
>)
    ensures
        r matches Ok(found) ==> (found ==> is_file_name(name@)),
{
    match changed_paths(repo, commit) {
        Ok(paths) => {
            let found = touches(&paths, name);
            proof {
                if found {
                    let i = choose|i: int|
                        0 <= i < texts_view(paths@).len() && base_name(
                            #[trigger] texts_view(paths@)[i],
                        ) == Some(name@);
                    lemma_base_name_is_file_name(texts_view(paths@)[i]);
                }
            }
            Ok(found)
        },
        Err(error) => Err(error),
    }
}

/// What the walk finds of the commit `oid`. A difference that cannot be
/// computed is recorded as absent; a commit that cannot be read is a failure.
fn load_record(repo: &git2::Repository, oid: git2::Oid) -> (r: Result<CommitRecord, git2::Error>)
    ensures
        r matches Ok(record) ==> record.commit_id@ == oid_text(oid) && is_full_id(record.commit_id@),
{
    let commit = match find_commit(repo, oid) {
        Ok(commit) => commit,
        Err(error) => {
            return Err(error);
        },
    };
    let changed = match changed_paths(repo, &commit) {
        Ok(paths) => Some(paths),
        Err(_) => None,
    };
    Ok(
        CommitRecord {
            commit_id: oid_to_hex(&oid),
            message: commit_message(&commit),
            author: commit_author_name(&commit),
            timestamp: commit_seconds(&commit),
            changed,
        },
    )
}

/// A walk over the commits reachable from the head of `repo`.
fn begin_walk<'repo>(repo: &'repo git2::Repository) -> (r: Result<git2::Revwalk<'repo>, VcsError>)
    ensures
        r matches Err(e) ==> e.kind == ErrorKind::HistoryFailure,
{
    let mut revwalk = match repository_revwalk(repo) {
        Ok(revwalk) => revwalk,
        Err(error) => {
            return Err(VcsError::from_git(ErrorKind::HistoryFailure, no_text(), &error));
        },
    };
    match revwalk_push_head(&mut revwalk) {
        Ok(_) => Ok(revwalk),
        Err(error) => Err(VcsError::from_git(ErrorKind::HistoryFailure, no_text(), &error)),
    }
}

/// The records of the commits that `revwalk` yields, in its order.
fn finish_walk(repo: &git2::Repository, revwalk: git2::Revwalk) -> (r: Result<
    Vec<CommitRecord>,
    VcsError,
>)
    ensures
        match r {
            Ok(walk) => forall|i: int| 0 <= i < walk.len() ==> is_full_id(#[trigger] walk[i].commit_id@),
            Err(e) => e.kind == ErrorKind::HistoryFailure,
        },
{
    let ids = match revwalk_ids(revwalk) {
        Ok(ids) => ids,
        Err(error) => {
            return Err(VcsError::from_git(ErrorKind::HistoryFailure, no_text(), &error));
        },
    };
    let mut walk: Vec<CommitRecord> = Vec::new();
    let mut i: usize = 0;
    while i < ids.len()
        invariant
            i <= ids.len(),
            forall|k: int| 0 <= k < walk.len() ==> is_full_id(#[trigger] walk[k].commit_id@),
        decreases ids.len() - i,
    {
        match load_record(repo, ids[i]) {
            Ok(record) => walk.push(record),
            Err(error) => {
                return Err(VcsError::from_git(ErrorKind::HistoryFailure, no_text(), &error));
            },
        }
        i += 1;
    }
    Ok(walk)
}

/// The records of the commits reachable from the head of `repo`, in the
/// order the walk yields them: each commit before its parent. What they
/// hold depends on the repository.
pub fn load_walk(repo: &git2::Repository) -> (r: Result<Vec<CommitRecord>, VcsError>)
    ensures
        match r {
            Ok(walk) => forall|i: int| 0 <= i < walk.len() ==> is_full_id(#[trigger] walk[i].commit_id@),
            Err(e) => e.kind == ErrorKind::HistoryFailure,
        },
{
    match begin_walk(repo) {
        Ok(revwalk) => finish_walk(repo, revwalk),
        Err(e) => Err(e),
    }
}

/// The history of the file at `file_path` in the repository at
/// `repo_path`: of the commits reachable from the head, those that changed
/// a file of the same base name, in the order of the walk. The walk is made
/// anew on each call. A path without a base name is rejected once the
/// repository has been opened and the walk set up, before any commit is read.
pub fn get_file_history(repo_path: &str, file_path: &str) -> (r: Result<Vec<HistoryEntry>, VcsError>)
    ensures
        match r {
            Ok(entries) => {
                &&& base_name(file_path@) is Some
                &&& forall|j: int|
                    0 <= j < entries.len() ==> is_full_id(#[trigger] entries[j].commit_id@)
            },
            Err(e) => {
                &&& e.kind == ErrorKind::NotInitialized || e.kind == ErrorKind::OpenFailure || e.kind
                    == ErrorKind::HistoryFailure || e.kind == ErrorKind::InvalidPath
                &&& e.kind == ErrorKind::InvalidPath ==> base_name(file_path@) is None && e@ == failure(
                    ErrorKind::InvalidPath,
                    file_path@,
                    Seq::<char>::empty(),
                )
            },
        },
{
    let repo = match open_repository(repo_path) {
        Ok(repo) => repo,
        Err(e) => {
            return Err(e);
        },
    };
    let revwalk = match begin_walk(&repo) {
        Ok(revwalk) => revwalk,
        Err(e) => {
            return Err(e);
        },
    };
    if base_name_of(file_path).is_none() {
        return Err(VcsError::new(ErrorKind::InvalidPath, file_path, no_text()));
    }
    match finish_walk(&repo, revwalk) {
        Ok(walk) => {
            let r = file_history_in(&walk, file_path);
            proof {
                if let Ok(entries) = &r {
                    let name = base_name(file_path@)->0;
                    let sources = lemma_history_sources(walk_view(walk@), name);
                    assert forall|j: int| 0 <= j < entries.len() implies is_full_id(
                        #[trigger] entries[j].commit_id@,
                    ) by {
                        assert(entries_view(entries@)[j] == entry_of(walk_view(walk@)[sources[j]]));
                        assert(walk_view(walk@)[sources[j]] == walk@[sources[j]]@);
                    }
                }
            }
            r
        },
        Err(e) => Err(e),
    }
}

/// The history of the file at `file_path` over `walk`: the lines of the
/// records that changed a file of the same base name, in the walk's order.
/// A path without a base name is rejected.
pub fn file_history_in(walk: &Vec<CommitRecord>, file_path: &str) -> (r: Result<
    Vec<HistoryEntry>,
    VcsError,
>)
    ensures
        match base_name(file_path@) {
            Some(name) => r matches Ok(entries) && entries_view(entries@) == history_of(
                walk_view(walk@),
                name,
            ),
            None => r matches Err(e) && e@ == failure(
                ErrorKind::InvalidPath,
                file_path@,
                Seq::<char>::empty(),
            ),
        },
{
    match base_name_of(file_path) {
        Some(name) => Ok(select_history(walk, name.as_str())),
        None => Err(VcsError::new(ErrorKind::InvalidPath, file_path, no_text())),
    }
}

} // verus!
