use term_seq::width::{
    char_width, contains_escape_introducer, measure_text, strip_escapes, visible_width,
};

#[test]
fn printing_ascii_is_one_column_each() {
    assert_eq!(char_width(' '), 1);
    assert_eq!(char_width('a'), 1);
    assert_eq!(char_width('~'), 1);
    assert_eq!(visible_width("hello, world"), 12);
    assert_eq!(visible_width(""), 0);
}

#[test]
fn wide_characters_are_two_columns() {
    assert_eq!(char_width('日'), 2);
    assert_eq!(char_width('Ｈ'), 2);
    assert_eq!(char_width('🚀'), 2);
    assert_eq!(visible_width("日本語"), 6);
}

#[test]
fn combining_and_control_characters_take_no_column() {
    assert_eq!(char_width('\u{301}'), 0);
    assert_eq!(char_width('\u{200b}'), 0);
    assert_eq!(char_width('\n'), 0);
    assert_eq!(char_width('\u{7f}'), 0);
    assert_eq!(visible_width("e\u{301}"), 1);
}

#[test]
fn accented_letters_are_one_column() {
    assert_eq!(char_width('é'), 1);
    assert_eq!(visible_width("café"), 4);
}

#[test]
fn introducers_are_found() {
    assert!(contains_escape_introducer("a\x1b[0m"));
    assert!(contains_escape_introducer("\u{9b}1m"));
    assert!(!contains_escape_introducer("plain [0m"));
    assert!(!contains_escape_introducer(""));
}

#[test]
fn escape_sequences_are_removed() {
    assert_eq!(strip_escapes("\x1b[31mred\x1b[0m"), "red");
    assert_eq!(strip_escapes("\x1b[38;2;255;100;0mx\x1b[39m"), "x");
    assert_eq!(strip_escapes("\x1b[1;34mbold blue\x1b[m"), "bold blue");
    assert_eq!(strip_escapes("a\x1b[2Kb\x1b[10;20Hc"), "abc");
    assert_eq!(strip_escapes("\u{9b}[4munder"), "under");
    assert_eq!(strip_escapes("\x1b(Bascii"), "ascii");
}

#[test]
fn text_without_escape_sequences_is_kept() {
    assert_eq!(strip_escapes("plain text"), "plain text");
    assert_eq!(strip_escapes("[31m is no escape"), "[31m is no escape");
    assert_eq!(strip_escapes(""), "");
    assert_eq!(strip_escapes("lone \x1b escape"), "lone \x1b escape");
}

#[test]
fn escape_sequences_take_no_column() {
    assert_eq!(measure_text("\x1b[31mred\x1b[0m"), 3);
    assert_eq!(measure_text("\x1b[1m日本\x1b[22m"), 4);
    assert_eq!(measure_text("no escapes"), 10);
    assert_eq!(measure_text(""), 0);
}
