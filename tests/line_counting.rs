use countroo::aggregate::file_lines;
use countroo::lines::{count_lines_in_text, is_whitespace};

#[test]
fn mixed_blank_and_whitespace_lines() {
    // " b " keeps a 'b' after trimming, so only the empty line is blank.
    let text = "a\n\n b \nc";
    assert_eq!(count_lines_in_text(text, false), 3);
    assert_eq!(count_lines_in_text(text, true), 4);
    let spaced = "a\n\n  \nc";
    assert_eq!(count_lines_in_text(spaced, false), 2);
    assert_eq!(count_lines_in_text(spaced, true), 4);
}

#[test]
fn empty_text_has_no_lines() {
    assert_eq!(count_lines_in_text("", true), 0);
    assert_eq!(count_lines_in_text("", false), 0);
}

#[test]
fn final_line_feed_opens_no_line() {
    assert_eq!(count_lines_in_text("one\ntwo\n", true), 2);
    assert_eq!(count_lines_in_text("one\ntwo", true), 2);
    assert_eq!(count_lines_in_text("\n", true), 1);
    assert_eq!(count_lines_in_text("\n", false), 0);
}

#[test]
fn crlf_lines_count_once() {
    assert_eq!(count_lines_in_text("a\r\nb\r\n\r\n", true), 3);
    assert_eq!(count_lines_in_text("a\r\nb\r\n\r\n", false), 2);
}

#[test]
fn unicode_whitespace_is_blank() {
    let text = "\u{3000}\u{a0}\t\nx\n\u{2028}\n";
    assert_eq!(count_lines_in_text(text, false), 1);
    assert_eq!(count_lines_in_text(text, true), 3);
}

#[test]
fn counting_blank_lines_never_counts_fewer() {
    let texts = ["", "x", "\n\n\n", "a\n \n\tb\n", "  \n  "];
    for t in texts.iter() {
        assert!(count_lines_in_text(t, true) >= count_lines_in_text(t, false));
    }
}

#[test]
fn whitespace_classification() {
    assert!(is_whitespace(' '));
    assert!(is_whitespace('\u{85}'));
    assert!(is_whitespace('\u{200a}'));
    assert!(!is_whitespace('\u{200b}'));
    assert!(!is_whitespace('a'));
}

#[test]
fn failed_read_contributes_nothing() {
    let f = file_lines("rs".to_string(), &None, true);
    assert_eq!(f.lines, 0);
    assert_eq!(f.extension, "rs");
    let g = file_lines("py".to_string(), &Some("x = 1\n\ny = 2\n".to_string()), false);
    assert_eq!(g.lines, 2);
}
