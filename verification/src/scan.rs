//! The mathematical model of scanning: given a source text as a sequence of
//! characters, which token starts where, and what the full token sequence is.
//!
//! The scanner reads one character at a time with one character of lookahead.
//! End of input is modelled by the sentinel character `'\0'`: reading at or
//! past the end yields the sentinel, and a literal NUL in the input behaves
//! exactly like end of input wherever the scanner tests for it.

use vstd::prelude::*;
use crate::chars::{
    spec_is_ascii_space, spec_is_bin_digit, spec_is_dec_digit, spec_is_hex_digit,
    spec_is_number_char, spec_is_oct_digit, spec_is_space, spec_is_word_char,
};
use crate::token::{SpecToken, TokenKind};

verus! {

/// The character at offset `i`, or the end-of-input sentinel.
pub open spec fn ch_at(s: Seq<char>, i: int) -> char {
    if 0 <= i < s.len() {
        s[i]
    } else {
        '\0'
    }
}

/// Position of the first non-whitespace character at or after `pos`.
pub open spec fn skip_ws(s: Seq<char>, pos: int) -> int
    decreases s.len() - pos,
{
    if 0 <= pos < s.len() && spec_is_ascii_space(s[pos]) {
        skip_ws(s, pos + 1)
    } else {
        pos
    }
}

/// Skipping whitespace neither moves backwards nor past the end, crosses only
/// whitespace, and stops on a non-whitespace character.
pub proof fn lemma_skip_ws(s: Seq<char>, pos: int)
    requires
        0 <= pos,
    ensures
        pos <= skip_ws(s, pos),
        pos <= s.len() ==> skip_ws(s, pos) <= s.len(),
        forall|i: int| pos <= i < skip_ws(s, pos) ==> spec_is_ascii_space(#[trigger] s[i]),
        !spec_is_ascii_space(ch_at(s, skip_ws(s, pos))),
    decreases s.len() - pos,
{
    if 0 <= pos < s.len() && spec_is_ascii_space(s[pos]) {
        lemma_skip_ws(s, pos + 1);
    }
}

/// End of a greedy word starting at `pos`: words run to whitespace or end of
/// input.
pub open spec fn word_end(s: Seq<char>, pos: int) -> int
    decreases s.len() - pos,
{
    if 0 <= pos < s.len() && spec_is_word_char(s[pos]) {
        word_end(s, pos + 1)
    } else {
        pos
    }
}

pub proof fn lemma_word_end(s: Seq<char>, pos: int)
    requires
        0 <= pos,
    ensures
        pos <= word_end(s, pos),
        pos <= s.len() ==> word_end(s, pos) <= s.len(),
        forall|i: int| pos <= i < word_end(s, pos) ==> spec_is_word_char(#[trigger] s[i]),
        !spec_is_word_char(ch_at(s, word_end(s, pos))),
    decreases s.len() - pos,
{
    if 0 <= pos < s.len() && spec_is_word_char(s[pos]) {
        lemma_word_end(s, pos + 1);
    }
}

/// End of a greedy numeric-literal body starting at `pos`.
pub open spec fn number_end(s: Seq<char>, pos: int) -> int
    decreases s.len() - pos,
{
    if 0 <= pos < s.len() && spec_is_number_char(s[pos]) {
        number_end(s, pos + 1)
    } else {
        pos
    }
}

pub proof fn lemma_number_end(s: Seq<char>, pos: int)
    requires
        0 <= pos,
    ensures
        pos <= number_end(s, pos),
        pos <= s.len() ==> number_end(s, pos) <= s.len(),
        forall|i: int| pos <= i < number_end(s, pos) ==> spec_is_number_char(#[trigger] s[i]),
        !spec_is_number_char(ch_at(s, number_end(s, pos))),
    decreases s.len() - pos,
{
    if 0 <= pos < s.len() && spec_is_number_char(s[pos]) {
        lemma_number_end(s, pos + 1);
    }
}

/// First offset at or after `pos` holding `to` or the sentinel: where a
/// comment body stops.
pub open spec fn comment_body_end(s: Seq<char>, pos: int, to: char) -> int
    decreases s.len() - pos,
{
    if 0 <= pos < s.len() && s[pos] != to && s[pos] != '\0' {
        comment_body_end(s, pos + 1, to)
    } else {
        pos
    }
}

pub proof fn lemma_comment_body_end(s: Seq<char>, pos: int, to: char)
    requires
        0 <= pos,
    ensures
        pos <= comment_body_end(s, pos, to),
        pos <= s.len() ==> comment_body_end(s, pos, to) <= s.len(),
        forall|i: int| pos <= i < comment_body_end(s, pos, to) ==> #[trigger] s[i] != to && s[i]
            != '\0',
        ch_at(s, comment_body_end(s, pos, to)) == to || ch_at(
            s,
            comment_body_end(s, pos, to),
        ) == '\0',
    decreases s.len() - pos,
{
    if 0 <= pos < s.len() && s[pos] != to && s[pos] != '\0' {
        lemma_comment_body_end(s, pos + 1, to);
    }
}

/// Where a comment token ends: the body runs to `to` or end of input, and a
/// parenthetical comment also takes the closing parenthesis when there is one.
pub open spec fn comment_end(s: Seq<char>, pos: int, to: char) -> int {
    let q = comment_body_end(s, pos, to);
    if to == ')' {
        if q < s.len() {
            q + 1
        } else {
            s.len() as int
        }
    } else {
        q
    }
}

/// Whether the text contains two adjacent dashes, the conventional marker of a
/// stack-effect comment.
pub open spec fn has_double_dash(s: Seq<char>) -> bool {
    exists|i: int| 0 <= i && i + 1 < s.len() && #[trigger] s[i] == '-' && s[i + 1] == '-'
}

/// The token a quote character at `p` opens: a word when followed by
/// whitespace, a three-character literal when a closing quote follows one
/// character later, and otherwise a greedy word with the quote included.
pub open spec fn spec_quote_token(s: Seq<char>, p: int) -> SpecToken {
    if spec_is_space(ch_at(s, p + 1)) {
        SpecToken { kind: TokenKind::Word, start: p, end: word_end(s, p) }
    } else if ch_at(s, p + 2) == '\'' {
        SpecToken { kind: TokenKind::Number, start: p, end: p + 3 }
    } else {
        SpecToken { kind: TokenKind::Word, start: p, end: word_end(s, p + 1) }
    }
}

/// The token the scanner recognises when resuming at offset `pos`: skip
/// whitespace, then dispatch on the current character with one character of
/// lookahead. Total: any input yields a token, `Eof` exactly at the sentinel.
pub open spec fn spec_next(s: Seq<char>, pos: int) -> SpecToken {
    let p = skip_ws(s, pos);
    let c = ch_at(s, p);
    if c == ':' {
        SpecToken { kind: TokenKind::Colon, start: p, end: p + 1 }
    } else if c == ';' {
        SpecToken { kind: TokenKind::Semicolon, start: p, end: p + 1 }
    } else if c == '%' {
        if spec_is_bin_digit(ch_at(s, p + 1)) {
            SpecToken { kind: TokenKind::Number, start: p, end: number_end(s, p) }
        } else {
            SpecToken { kind: TokenKind::Word, start: p, end: word_end(s, p) }
        }
    } else if c == '&' {
        if ch_at(s, p + 1) == 'x' || spec_is_oct_digit(ch_at(s, p + 1)) {
            SpecToken { kind: TokenKind::Number, start: p, end: number_end(s, p) }
        } else {
            SpecToken { kind: TokenKind::Word, start: p, end: word_end(s, p) }
        }
    } else if c == '$' {
        if spec_is_hex_digit(ch_at(s, p + 1)) {
            SpecToken { kind: TokenKind::Number, start: p, end: number_end(s, p) }
        } else {
            SpecToken { kind: TokenKind::Word, start: p, end: word_end(s, p) }
        }
    } else if c == '\'' {
        spec_quote_token(s, p)
    } else if c == '0' {
        if ch_at(s, p + 1) == 'x' || spec_is_hex_digit(ch_at(s, p + 1)) {
            SpecToken { kind: TokenKind::Number, start: p, end: number_end(s, p) }
        } else {
            SpecToken { kind: TokenKind::Word, start: p, end: word_end(s, p) }
        }
    } else if spec_is_dec_digit(c) {
        SpecToken { kind: TokenKind::Number, start: p, end: number_end(s, p) }
    } else if c == '\\' {
        if spec_is_space(ch_at(s, p + 1)) {
            SpecToken { kind: TokenKind::Comment, start: p, end: comment_end(s, p, '\n') }
        } else {
            SpecToken { kind: TokenKind::Word, start: p, end: word_end(s, p) }
        }
    } else if c == '(' {
        if spec_is_space(ch_at(s, p + 1)) {
            let e = comment_end(s, p, ')');
            if has_double_dash(s.subrange(p, e)) {
                SpecToken { kind: TokenKind::StackComment, start: p, end: e }
            } else {
                SpecToken { kind: TokenKind::Comment, start: p, end: e }
            }
        } else {
            SpecToken { kind: TokenKind::Word, start: p, end: word_end(s, p) }
        }
    } else if c == '\0' {
        SpecToken { kind: TokenKind::Eof, start: p, end: p }
    } else if spec_is_word_char(c) {
        SpecToken { kind: TokenKind::Word, start: p, end: word_end(s, p) }
    } else {
        // A non-ASCII whitespace character: it is not skipped between tokens
        // and cannot stand inside a greedy word, so it degrades to a
        // one-character Word of its own and the scanner advances.
        SpecToken { kind: TokenKind::Word, start: p, end: p + 1 }
    }
}

/// Every token other than `Eof` starts at or after the resume position and
/// ends strictly later, within the input.
pub proof fn lemma_spec_next_advances(s: Seq<char>, pos: int)
    requires
        0 <= pos,
    ensures
        spec_next(s, pos).kind != TokenKind::Eof ==> pos <= spec_next(s, pos).start,
        spec_next(s, pos).kind != TokenKind::Eof ==> spec_next(s, pos).start < spec_next(
            s,
            pos,
        ).end,
        spec_next(s, pos).kind != TokenKind::Eof ==> spec_next(s, pos).end <= s.len(),
        spec_next(s, pos).kind == TokenKind::Eof ==> pos <= spec_next(s, pos).start
            == spec_next(s, pos).end,
{
    lemma_skip_ws(s, pos);
    let p = skip_ws(s, pos);
    let c = ch_at(s, p);
    if c != '\0' {
        assert(0 <= p < s.len());
        lemma_word_end(s, p);
        lemma_number_end(s, p);
        lemma_comment_body_end(s, p, '\n');
        lemma_comment_body_end(s, p, ')');
        lemma_word_end(s, p + 1);
        lemma_number_end(s, p + 1);
        lemma_comment_body_end(s, p + 1, '\n');
        lemma_comment_body_end(s, p + 1, ')');
        if spec_is_word_char(s[p]) {
            assert(word_end(s, p) == word_end(s, p + 1));
            assert(word_end(s, p) >= p + 1);
        }
        if spec_is_number_char(s[p]) {
            assert(number_end(s, p) == number_end(s, p + 1));
            assert(number_end(s, p) >= p + 1);
        }
        if c == '\\' {
            assert(comment_body_end(s, p, '\n') == comment_body_end(s, p + 1, '\n'));
        }
        if c == '(' {
            assert(comment_body_end(s, p, ')') == comment_body_end(s, p + 1, ')'));
            assert(comment_body_end(s, p, ')') >= p + 1);
        }
    }
}

/// The sequence of tokens recognised from `pos` to the end of input, the
/// `Eof` sentinel excluded.
pub open spec fn spec_scan_from(s: Seq<char>, pos: int) -> Seq<SpecToken>
    decreases s.len() - pos + 1,
{
    if pos < 0 || pos > s.len() {
        Seq::empty()
    } else {
        let t = spec_next(s, pos);
        if t.kind == TokenKind::Eof {
            Seq::empty()
        } else {
            proof {
                lemma_spec_next_advances(s, pos);
            }
            seq![t] + spec_scan_from(s, t.end)
        }
    }
}

/// The token sequence of a whole source text.
pub open spec fn spec_tokens(s: Seq<char>) -> Seq<SpecToken> {
    spec_scan_from(s, 0)
}

/// Scanned tokens come in non-decreasing, non-overlapping order: each ends at
/// or before the next begins.
pub proof fn lemma_scan_ordered(s: Seq<char>, pos: int)
    requires
        0 <= pos,
    ensures
        forall|k1: int, k2: int|
            0 <= k1 < k2 < spec_scan_from(s, pos).len() ==> (#[trigger] spec_scan_from(
                s,
                pos,
            )[k1]).end <= (#[trigger] spec_scan_from(s, pos)[k2]).start,
    decreases s.len() - pos + 1,
{
    if 0 <= pos <= s.len() {
        let t = spec_next(s, pos);
        lemma_spec_next_advances(s, pos);
        if t.kind != TokenKind::Eof {
            lemma_scan_ordered(s, t.end);
            lemma_scan_spans(s, t.end);
            let cur = spec_scan_from(s, pos);
            let rest = spec_scan_from(s, t.end);
            assert(cur == seq![t] + rest);
            assert forall|k1: int, k2: int| 0 <= k1 < k2 < cur.len() implies (
            #[trigger] cur[k1]).end <= (#[trigger] cur[k2]).start by {
                assert(cur[k2] == rest[k2 - 1]);
                if k1 > 0 {
                    assert(cur[k1] == rest[k1 - 1]);
                }
            }
        }
    }
}

/// Every scanned token lies within the input, spans at least one character,
/// and is not the `Eof` sentinel.
pub proof fn lemma_scan_spans(s: Seq<char>, pos: int)
    requires
        0 <= pos,
    ensures
        forall|k: int|
            0 <= k < spec_scan_from(s, pos).len() ==> {
                &&& pos <= (#[trigger] spec_scan_from(s, pos)[k]).start
                &&& spec_scan_from(s, pos)[k].start < spec_scan_from(s, pos)[k].end
                &&& spec_scan_from(s, pos)[k].end <= s.len()
                &&& spec_scan_from(s, pos)[k].kind != TokenKind::Eof
            },
    decreases s.len() - pos + 1,
{
    if 0 <= pos <= s.len() {
        let t = spec_next(s, pos);
        lemma_spec_next_advances(s, pos);
        if t.kind != TokenKind::Eof {
            lemma_scan_spans(s, t.end);
            assert(spec_scan_from(s, pos) == seq![t] + spec_scan_from(s, t.end));
        }
    }
}

} // verus!
