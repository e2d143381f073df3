use doc_vcs::paths::{base_name_of, join_path};

#[test]
fn base_name_is_last_segment() {
    assert_eq!(base_name_of("docs/board.json"), Some("board.json".to_string()));
    assert_eq!(base_name_of("board.json"), Some("board.json".to_string()));
    assert_eq!(base_name_of("/abs/dir/board.json"), Some("board.json".to_string()));
}

#[test]
fn base_name_skips_trailing_slashes_and_dots() {
    assert_eq!(base_name_of("docs/"), Some("docs".to_string()));
    assert_eq!(base_name_of("docs/."), Some("docs".to_string()));
    assert_eq!(base_name_of("docs/./"), Some("docs".to_string()));
    assert_eq!(base_name_of("a//b//"), Some("b".to_string()));
}

#[test]
fn base_name_absent() {
    assert_eq!(base_name_of(""), None);
    assert_eq!(base_name_of("/"), None);
    assert_eq!(base_name_of("."), None);
    assert_eq!(base_name_of(".."), None);
    assert_eq!(base_name_of("docs/.."), None);
    assert_eq!(base_name_of("./"), None);
}

#[test]
fn base_name_agrees_with_std() {
    let samples = [
        "", "/", ".", "..", "a", "a/", "a/.", "a/..", "a/b", "/a/b/", "./a", "../a", "a/./b/.",
        "...", "a/...", "a//", "//", "/.", "/..", ".hidden", "a/.hidden", "dir.d/file.tar.gz",
        "caf\u{e9}/na\u{ef}ve.json",
    ];
    for sample in samples {
        let expected = std::path::Path::new(sample)
            .file_name()
            .map(|name| name.to_str().unwrap().to_string());
        assert_eq!(base_name_of(sample), expected, "{:?}", sample);
    }
}

#[test]
fn join_puts_one_separator() {
    assert_eq!(join_path("repo", ".ssh"), "repo/.ssh");
    assert_eq!(join_path("repo/", ".ssh"), "repo/.ssh");
    assert_eq!(join_path("", ".ssh"), ".ssh");
    assert_eq!(join_path("repo", "/abs"), "/abs");
    assert_eq!(join_path("/", "a"), "/a");
}

#[test]
fn base_name_agrees_with_std_on_every_short_path() {
    let alphabet = ['a', '.', '/'];
    let mut paths = vec![String::new()];
    let mut start = 0;
    for _ in 0..7 {
        let end = paths.len();
        for i in start..end {
            for c in alphabet {
                let mut longer = paths[i].clone();
                longer.push(c);
                paths.push(longer);
            }
        }
        start = end;
    }
    assert_eq!(paths.len(), 3280);
    for path in &paths {
        let expected = std::path::Path::new(path)
            .file_name()
            .map(|name| name.to_str().unwrap().to_string());
        assert_eq!(base_name_of(path), expected, "{:?}", path);
    }
}

#[test]
fn join_agrees_with_std() {
    for base in ["", "/", "repo", "repo/", "/data/repo", "a//"] {
        for child in [".ssh", "key", "/abs", "a/b", ""] {
            let expected = std::path::Path::new(base).join(child);
            assert_eq!(join_path(base, child), expected.to_str().unwrap(), "{:?} {:?}", base, child);
        }
    }
}
