//! Character predicates used by the scanner: whitespace, digit classes for the
//! numeric-literal prefixes, and ASCII case folding.

use vstd::prelude::*;

verus! {

/// The Unicode `White_Space` characters, the set `char::is_whitespace` accepts.
pub open spec fn spec_is_space(c: char) -> bool {
    c == ' ' || c == '\t' || c == '\n' || c == '\r' || c == '\u{b}' || c == '\u{c}'
        || c == '\u{85}' || c == '\u{a0}' || c == '\u{1680}'
        || ('\u{2000}' <= c && c <= '\u{200a}')
        || c == '\u{2028}' || c == '\u{2029}' || c == '\u{202f}' || c == '\u{205f}'
        || c == '\u{3000}'
}

/// Whether `c` is whitespace (the Unicode `White_Space` set).
pub fn is_space(c: char) -> (r: bool)
    ensures
        r == spec_is_space(c),
{
    c == ' ' || c == '\t' || c == '\n' || c == '\r' || c == '\u{b}' || c == '\u{c}'
        || c == '\u{85}' || c == '\u{a0}' || c == '\u{1680}'
        || ('\u{2000}' <= c && c <= '\u{200a}')
        || c == '\u{2028}' || c == '\u{2029}' || c == '\u{202f}' || c == '\u{205f}'
        || c == '\u{3000}'
}

/// The ASCII whitespace characters, the set skipped between tokens.
pub open spec fn spec_is_ascii_space(c: char) -> bool {
    c == ' ' || c == '\t' || c == '\n' || c == '\r' || c == '\u{c}'
}

/// Whether `c` is ASCII whitespace (space, tab, CR, LF, form feed).
pub fn is_ascii_space(c: char) -> (r: bool)
    ensures
        r == spec_is_ascii_space(c),
{
    c == ' ' || c == '\t' || c == '\n' || c == '\r' || c == '\u{c}'
}

pub open spec fn spec_is_bin_digit(c: char) -> bool {
    c == '0' || c == '1'
}

/// Whether `c` is a binary digit.
pub fn is_bin_digit(c: char) -> (r: bool)
    ensures
        r == spec_is_bin_digit(c),
{
    c == '0' || c == '1'
}

pub open spec fn spec_is_oct_digit(c: char) -> bool {
    '0' <= c && c <= '7'
}

/// Whether `c` is an octal digit.
pub fn is_oct_digit(c: char) -> (r: bool)
    ensures
        r == spec_is_oct_digit(c),
{
    '0' <= c && c <= '7'
}

pub open spec fn spec_is_dec_digit(c: char) -> bool {
    '0' <= c && c <= '9'
}

/// Whether `c` is a decimal digit.
pub fn is_dec_digit(c: char) -> (r: bool)
    ensures
        r == spec_is_dec_digit(c),
{
    '0' <= c && c <= '9'
}

pub open spec fn spec_is_hex_digit(c: char) -> bool {
    ('0' <= c && c <= '9') || ('a' <= c && c <= 'f') || ('A' <= c && c <= 'F')
}

/// Whether `c` is a hexadecimal digit.
pub fn is_hex_digit(c: char) -> (r: bool)
    ensures
        r == spec_is_hex_digit(c),
{
    ('0' <= c && c <= '9') || ('a' <= c && c <= 'f') || ('A' <= c && c <= 'F')
}

/// The characters a numeric literal body greedily consumes: hex digits
/// together with `_`, `&`, `%`, `x` and `$` (a permissive superset, not a
/// validator of well-formed numerals).
pub open spec fn spec_is_number_char(c: char) -> bool {
    spec_is_hex_digit(c) || c == '_' || c == '&' || c == '%' || c == 'x' || c == '$'
}

/// Whether `c` may continue a numeric literal.
pub fn is_number_char(c: char) -> (r: bool)
    ensures
        r == spec_is_number_char(c),
{
    is_hex_digit(c) || c == '_' || c == '&' || c == '%' || c == 'x' || c == '$'
}

/// Whether a character may stand inside a word: anything but whitespace and
/// the end-of-input sentinel.
pub open spec fn spec_is_word_char(c: char) -> bool {
    !spec_is_space(c) && c != '\0'
}

/// Whether `c` may continue a greedy word.
pub fn is_word_char(c: char) -> (r: bool)
    ensures
        r == spec_is_word_char(c),
{
    !is_space(c) && c != '\0'
}

/// ASCII case folding of one character: uppercase letters map to lowercase,
/// everything else is unchanged.
pub open spec fn spec_lower_char(c: char) -> char {
    if 'A' <= c && c <= 'Z' {
        ((c as u8) + 32) as char
    } else {
        c
    }
}

/// Lowercase `c` if it is an ASCII uppercase letter.
pub fn lower_char(c: char) -> (r: char)
    ensures
        r == spec_lower_char(c),
{
    if 'A' <= c && c <= 'Z' {
        ((c as u8) + 32) as char
    } else {
        c
    }
}

/// ASCII case folding of one character, towards uppercase.
pub open spec fn spec_upper_char(c: char) -> char {
    if 'a' <= c && c <= 'z' {
        ((c as u8) - 32) as char
    } else {
        c
    }
}

/// Uppercase `c` if it is an ASCII lowercase letter.
pub fn upper_char(c: char) -> (r: char)
    ensures
        r == spec_upper_char(c),
{
    if 'a' <= c && c <= 'z' {
        ((c as u8) - 32) as char
    } else {
        c
    }
}

/// Folding twice folds once: lowering is idempotent.
pub proof fn lemma_lower_char_idempotent(c: char)
    ensures
        spec_lower_char(spec_lower_char(c)) == spec_lower_char(c),
{
}

} // verus!
