use glimpse::cleanup::{clean, is_blank};

#[test]
fn trims_and_collapses() {
    assert_eq!(clean("  hello   world  \n"), "hello world");
}

#[test]
fn preserves_unicode() {
    assert_eq!(clean("  hé  llo  "), "hé llo");
}

#[test]
fn empty_stays_empty() {
    assert_eq!(clean("   \t \n  "), "");
}

#[test]
fn mixed_whitespace_becomes_single_spaces() {
    assert_eq!(clean("a\t\tb\r\nc \u{3000} d"), "a b c d");
}

#[test]
fn cleaning_twice_changes_nothing() {
    let once = clean(" \n one  two\tthree \u{a0}");
    assert_eq!(once, "one two three");
    assert_eq!(clean(&once), once);
}

#[test]
fn text_without_whitespace_is_untouched() {
    assert_eq!(clean("Glimpse"), "Glimpse");
    assert_eq!(clean(""), "");
}

#[test]
fn blank_lines_are_recognised() {
    assert!(is_blank(""));
    assert!(is_blank(" \t\r\n\u{3000}"));
    assert!(!is_blank("  {}  "));
}

#[test]
fn whitespace_is_exactly_what_std_calls_whitespace() {
    let mut buf = [0u8; 4];
    for c in (0u32..=0x10FFFF).filter_map(char::from_u32) {
        let s: &str = c.encode_utf8(&mut buf);
        assert_eq!(is_blank(s), c.is_whitespace(), "{:?}", c);
    }
}

#[test]
fn words_are_joined_by_single_spaces() {
    assert_eq!(clean("\u{2003}alpha\u{85}\u{85}beta\u{205f}gamma\u{200b}delta "), "alpha beta gamma\u{200b}delta");
}
