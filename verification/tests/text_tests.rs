use forth_lsp::position::to_line_char;
use forth_lsp::text::{RopeBoundsCheck, WordAt, WordAtChar, WordOnOrBefore};

#[test]
fn word_at_zero() {
    let text = "find the first word";
    let word = text.word_at(0);
    assert_eq!("find", word);
}

#[test]
fn word_at_center() {
    let text = "Should find this";
    let word = text.word_at(8);
    assert_eq!("find", word);
}

#[test]
fn word_at_begin() {
    let text = "Should find this";
    let word = text.word_at(7);
    assert_eq!("find", word);
}

#[test]
fn word_at_end() {
    let text = "Should find this";
    let word = text.word_at(10);
    assert_eq!("find", word);
}

#[test]
fn word_at_after() {
    let text = "Should find this";
    let word = text.word_at(11);
    assert_eq!("", word);
}

#[test]
fn word_at_single() {
    let text = "Should + find this";
    let word = text.word_at(7);
    assert_eq!("+", word);
}

#[test]
fn word_at_out_of_bounds() {
    let text = "test";
    let word = text.word_at(100);
    assert_eq!("", word);
}

#[test]
fn word_at_empty_rope() {
    let text = "";
    let word = text.word_at(0);
    assert_eq!("", word);
}

#[test]
fn word_at_last_char() {
    let text = "test";
    let word = text.word_at(3);
    assert_eq!("test", word);
}

#[test]
fn word_on_or_before_word_at_end() {
    let text = "Should find this";
    let word = text.word_on_or_before(10);
    assert_eq!("find", word);
}

#[test]
fn word_on_or_before_word_at_after() {
    let text = "Should find this";
    let word = text.word_on_or_before(11);
    assert_eq!("find", word);
}

#[test]
fn ropey_word_at_char_word_at_zero() {
    let text = "find the first word";
    let word = text.word_at_char(0);
    assert_eq!("find", word);
}

#[test]
fn ropey_word_at_char_word_at_center() {
    let text = "Should find this";
    let word = text.word_at_char(8);
    assert_eq!("find", word);
}

#[test]
fn ropey_word_at_char_word_at_begin() {
    let text = "Should find this";
    let word = text.word_at_char(7);
    assert_eq!("find", word);
}

#[test]
fn ropey_word_at_char_word_at_end() {
    let text = "Should find this";
    let word = text.word_at_char(10);
    assert_eq!("find", word);
}

#[test]
fn ropey_word_at_char_word_at_after() {
    let text = "Should find this";
    let word = text.word_at_char(11);
    assert_eq!("", word);
}

#[test]
fn ropey_word_at_char_word_at_single() {
    let text = "Should + find this";
    let word = text.word_at_char(7);
    assert_eq!("+", word);
}

#[test]
fn test_check_char_bounds() {
    let text = "hello\nworld";
    assert!(text.check_char_bounds(0));
    assert!(text.check_char_bounds(5));
    assert!(text.check_char_bounds(10));
    assert!(!text.check_char_bounds(11));
    assert!(!text.check_char_bounds(100));
}

#[test]
fn test_check_line_bounds() {
    let text = "hello\nworld\ntest";
    assert!(text.check_line_bounds(0));
    assert!(text.check_line_bounds(1));
    assert!(text.check_line_bounds(2));
    assert!(!text.check_line_bounds(3));
    assert!(!text.check_line_bounds(100));
}

#[test]
fn test_get_char_ix_safe() {
    let text = "hello\nworld";

    assert_eq!(text.get_char_ix_safe(0, 0), Some(0));
    assert_eq!(text.get_char_ix_safe(0, 5), Some(5));
    assert_eq!(text.get_char_ix_safe(1, 0), Some(6));

    assert_eq!(text.get_char_ix_safe(10, 0), None);

    assert_eq!(text.get_char_ix_safe(0, 100), None);
}

#[test]
fn test_get_char_ix_safe_empty_rope() {
    let text = "";
    assert_eq!(text.get_char_ix_safe(0, 0), None);
    assert_eq!(text.get_char_ix_safe(1, 0), None);
}

#[test]
fn test_to_line_char() {
    let text = "line one\nline two\nline three";
    assert_eq!(to_line_char(0, text), (0, 0));
    assert_eq!(to_line_char(6, text), (0, 6));
    assert_eq!(to_line_char(9, text), (1, 0));
    assert_eq!(to_line_char(14, text), (1, 5));
    assert_eq!(to_line_char(18, text), (2, 0));
}
