use chang::text::{join_lines, split_text};

fn owned(parts: &[&str]) -> Vec<String> {
    parts.iter().map(|part| part.to_string()).collect()
}

#[test]
fn splits_at_every_separator() {
    assert_eq!(split_text("a.b.c", '.'), vec!["a", "b", "c"]);
    assert_eq!(split_text("header.claims.signature", '.'), vec!["header", "claims", "signature"]);
}

#[test]
fn splitting_keeps_empty_pieces() {
    assert_eq!(split_text("", '.'), vec![""]);
    assert_eq!(split_text(".", '.'), vec!["", ""]);
    assert_eq!(split_text("a..b", '.'), vec!["a", "", "b"]);
    assert_eq!(split_text(".a.", '.'), vec!["", "a", ""]);
}

#[test]
fn splitting_without_separator_gives_one_piece() {
    assert_eq!(split_text("abc", '.'), vec!["abc"]);
    assert_eq!(split_text("a.b", '\n'), vec!["a.b"]);
}

#[test]
fn splits_text_beyond_ascii() {
    assert_eq!(
        split_text("\u{e9}t\u{e9}\n\u{4e16}\u{754c}", '\n'),
        vec!["\u{e9}t\u{e9}", "\u{4e16}\u{754c}"]
    );
    assert_eq!(split_text("a\u{e9}b\u{e9}c", '\u{e9}'), vec!["a", "b", "c"]);
}

#[test]
fn joins_lines_with_line_feeds() {
    assert_eq!(join_lines(&owned(&["a", "b", "c"])), "a\nb\nc");
    assert_eq!(join_lines(&owned(&["only"])), "only");
    assert_eq!(join_lines(&owned(&[""])), "");
    assert_eq!(join_lines(&owned(&[])), "");
    assert_eq!(join_lines(&owned(&["a", ""])), "a\n");
    assert_eq!(join_lines(&owned(&["", "", ""])), "\n\n");
}

#[test]
fn joining_the_lines_of_a_text_gives_it_back() {
    let pem = "-----BEGIN PUBLIC KEY-----\nMFkw\n-----END PUBLIC KEY-----\n";
    for text in ["", "one", "one\ntwo", "\n", "a\n\nb\n", pem] {
        assert_eq!(join_lines(&split_text(text, '\n')), text);
    }
}

#[test]
fn a_split_has_one_piece_more_than_separators() {
    for text in ["", ".", "a.b", "..", "a.b.c.d"] {
        let dots = text.chars().filter(|c| *c == '.').count();
        let parts = split_text(text, '.');
        assert_eq!(parts.len(), dots + 1);
        assert!(parts.iter().all(|part| !part.contains('.')));
    }
}
