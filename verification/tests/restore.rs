use doc_vcs::restore::{restored_file, RestoredFile};

#[test]
fn valid_utf8_comes_back_as_it_is() {
    let text = "{\"name\": \"caf\u{e9} \u{1f600}\"}\n";
    let file = restored_file("docs/board.json", &text.as_bytes().to_vec());
    assert_eq!(
        file,
        RestoredFile { path: "docs/board.json".to_string(), content: text.to_string() }
    );
    assert_eq!(file.content.as_bytes(), text.as_bytes());
}

#[test]
fn empty_content_is_restored_as_empty() {
    assert_eq!(restored_file("a", &Vec::new()).content, "");
}

#[test]
fn invalid_sequences_are_replaced() {
    assert_eq!(restored_file("a", &vec![0x61, 0xff, 0x62]).content, "a\u{fffd}b");
    assert_eq!(restored_file("a", &vec![0xe2, 0x82]).content, "\u{fffd}");
    assert_eq!(restored_file("a", &vec![0xc0, 0x80]).content, "\u{fffd}\u{fffd}");
}
