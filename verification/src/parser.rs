//! The scanner: turns a source text into a sequence of classified, positioned
//! tokens. It never fails and always makes forward progress; unrecognised
//! input degrades to `Word`, and `Eof` is returned exactly at end of input.
//!
//! Every method is verified against the model in [`crate::scan`].

use vstd::prelude::*;
use vstd::string::StrSliceExecFns;
use crate::chars::{
    is_ascii_space, is_bin_digit, is_dec_digit, is_hex_digit, is_number_char, is_oct_digit,
    is_space, is_word_char,
};
use crate::scan::{
    ch_at, comment_body_end, comment_end, has_double_dash, lemma_skip_ws,
    lemma_spec_next_advances, lemma_word_end, number_end, skip_ws, spec_next, spec_quote_token,
    spec_scan_from, spec_tokens, word_end,
};
use crate::token::{token_matches, Data, SpecToken, Token, TokenKind};

verus! {

/// Scanning exposes no error outcomes: any input yields a token sequence.
/// `next_token` keeps the `Result` shape for its callers but always succeeds.
#[derive(Debug)]
pub struct LexError;

/// Whether the executable token `t` realises the model token `m`: as
/// [`token_matches`], except that the `Eof` sentinel token carries the NUL
/// character as its text rather than the (empty) span of the source.
pub open spec fn token_realises(t: Token, m: SpecToken, src: Seq<char>) -> bool {
    if m.kind == TokenKind::Eof {
        &&& t.spec_kind() == TokenKind::Eof
        &&& t.spec_data().start == m.start
        &&& t.spec_data().end == m.end
        &&& t.spec_data().value@ == seq!['\0']
    } else {
        token_matches(t, m, src)
    }
}

/// Whether a token sequence realises a model token sequence element by
/// element.
pub open spec fn tokens_correspond(ts: Seq<Token>, ms: Seq<SpecToken>, src: Seq<char>) -> bool {
    &&& ts.len() == ms.len()
    &&& forall|i: int| 0 <= i < ts.len() ==> token_matches(#[trigger] ts[i], ms[i], src)
}

/// The scanner: a cursor over a borrowed source text. A fresh instance is
/// created per tokenisation pass.
#[derive(Debug)]
pub struct Lexer<'a> {
    /// Character offset of the cursor.
    pub position: usize,
    /// The source text being scanned.
    pub raw: &'a str,
}

impl<'a> Lexer<'a> {
    /// A scanner positioned at the first character of `input`.
    pub fn new(input: &'a str) -> (lex: Lexer<'a>)
        ensures
            lex.raw == input,
            lex.position == 0,
    {
        Lexer { position: 0, raw: input }
    }

    /// Rewind the cursor to the start of the input, restoring the state
    /// `new` established.
    pub fn reset(&mut self)
        ensures
            final(self).raw == old(self).raw,
            final(self).position == 0,
    {
        self.position = 0;
    }

    /// An empty span at the cursor.
    pub fn here(&self) -> (d: Data<'a>)
        ensures
            d.start == self.position,
            d.end == self.position,
            d.value@ == Seq::<char>::empty(),
    {
        proof {
            reveal_strlit("");
            assert(""@ =~= Seq::<char>::empty());
        }
        Data { start: self.position, end: self.position, value: "" }
    }

    /// The character under the cursor offset `i`, or the end-of-input
    /// sentinel.
    fn ch(&self, i: usize) -> (c: char)
        ensures
            c == ch_at(self.raw@, i as int),
    {
        let l = self.raw.unicode_len();
        if i < l {
            self.raw.get_char(i)
        } else {
            '\0'
        }
    }

    /// The character one past the cursor, or the end-of-input sentinel.
    fn peek_char(&self) -> (c: char)
        ensures
            c == ch_at(self.raw@, self.position + 1),
    {
        let l = self.raw.unicode_len();
        if self.position < l {
            if self.position + 1 < l {
                self.raw.get_char(self.position + 1)
            } else {
                '\0'
            }
        } else {
            '\0'
        }
    }

    /// Advance the cursor past ASCII whitespace.
    fn skip_whitespace(&mut self)
        ensures
            final(self).raw == old(self).raw,
            final(self).position as int == skip_ws(old(self).raw@, old(self).position as int),
    {
        let ghost s = self.raw@;
        let ghost p0 = self.position as int;
        let l = self.raw.unicode_len();
        while self.position < l && is_ascii_space(self.raw.get_char(self.position))
            invariant
                self.raw == old(self).raw,
                s == self.raw@,
                l == s.len(),
                p0 <= self.position as int,
                skip_ws(s, p0) == skip_ws(s, self.position as int),
            decreases l - self.position,
        {
            self.position = self.position + 1;
        }
    }

    /// Consume a greedy word: characters up to whitespace or end of input.
    fn read_ident(&mut self) -> (d: Data<'a>)
        requires
            old(self).position as int <= old(self).raw@.len(),
        ensures
            final(self).raw == old(self).raw,
            d.start == old(self).position,
            d.end as int == word_end(old(self).raw@, old(self).position as int),
            final(self).position == d.end,
            d.value@ == old(self).raw@.subrange(d.start as int, d.end as int),
    {
        let ghost s = self.raw@;
        let start = self.position;
        let l = self.raw.unicode_len();
        while self.position < l && is_word_char(self.raw.get_char(self.position))
            invariant
                self.raw == old(self).raw,
                s == self.raw@,
                l == s.len(),
                start as int <= self.position as int <= l as int,
                word_end(s, start as int) == word_end(s, self.position as int),
            decreases l - self.position,
        {
            self.position = self.position + 1;
        }
        let value = self.raw.substring_char(start, self.position);
        Data { start, end: self.position, value }
    }

    /// Consume a greedy numeric-literal body.
    fn read_number(&mut self) -> (d: Data<'a>)
        requires
            old(self).position as int <= old(self).raw@.len(),
        ensures
            final(self).raw == old(self).raw,
            d.start == old(self).position,
            d.end as int == number_end(old(self).raw@, old(self).position as int),
            final(self).position == d.end,
            d.value@ == old(self).raw@.subrange(d.start as int, d.end as int),
    {
        let ghost s = self.raw@;
        let start = self.position;
        let l = self.raw.unicode_len();
        while self.position < l && is_number_char(self.raw.get_char(self.position))
            invariant
                self.raw == old(self).raw,
                s == self.raw@,
                l == s.len(),
                start as int <= self.position as int <= l as int,
                number_end(s, start as int) == number_end(s, self.position as int),
            decreases l - self.position,
        {
            self.position = self.position + 1;
        }
        let value = self.raw.substring_char(start, self.position);
        Data { start, end: self.position, value }
    }

    /// Consume a comment body up to `to` or end of input; a parenthetical
    /// comment also takes the closing parenthesis when there is one.
    fn read_comment_to(&mut self, to: char) -> (d: Data<'a>)
        requires
            old(self).position as int <= old(self).raw@.len(),
        ensures
            final(self).raw == old(self).raw,
            d.start == old(self).position,
            d.end as int == comment_end(old(self).raw@, old(self).position as int, to),
            final(self).position == d.end,
            d.value@ == old(self).raw@.subrange(d.start as int, d.end as int),
    {
        let ghost s = self.raw@;
        let start = self.position;
        let l = self.raw.unicode_len();
        while self.position < l && self.raw.get_char(self.position) != to && self.raw.get_char(
            self.position,
        ) != '\0'
            invariant
                self.raw == old(self).raw,
                s == self.raw@,
                l == s.len(),
                start as int <= self.position as int <= l as int,
                comment_body_end(s, start as int, to) == comment_body_end(
                    s,
                    self.position as int,
                    to,
                ),
            decreases l - self.position,
        {
            self.position = self.position + 1;
        }
        if to == ')' && self.position < l {
            self.position = self.position + 1;
        }
        let value = self.raw.substring_char(start, self.position);
        Data { start, end: self.position, value }
    }

    /// Consume one character as its own token.
    fn read_single_char_token(&mut self) -> (d: Data<'a>)
        requires
            (old(self).position as int) < old(self).raw@.len(),
        ensures
            final(self).raw == old(self).raw,
            d.start == old(self).position,
            d.end == old(self).position + 1,
            final(self).position == d.end,
            d.value@ == old(self).raw@.subrange(d.start as int, d.end as int),
    {
        let length = self.raw.unicode_len();
        let start = self.position;
        proof {
            assert(start < length);
        }
        self.position = start + 1;
        let value = self.raw.substring_char(start, self.position);
        Data { start, end: self.position, value }
    }

    /// Dispatch a quote character: a three-character literal like `'c'`
    /// becomes a `Number`; otherwise the run starting at the quote is a
    /// `Word`.
    fn parse_quote_or_word(&mut self) -> (t: Token<'a>)
        requires
            0 <= (old(self).position as int) < old(self).raw@.len(),
            ch_at(old(self).raw@, old(self).position as int) == '\'',
        ensures
            final(self).raw == old(self).raw,
            token_matches(
                t,
                spec_quote_token(old(self).raw@, old(self).position as int),
                old(self).raw@,
            ),
            final(self).position as int == spec_quote_token(
                old(self).raw@,
                old(self).position as int,
            ).end,
    {
        let ghost s = self.raw@;
        let length = self.raw.unicode_len();
        let begin = self.position;
        let next = self.peek_char();

        if is_space(next) {
            return Token::Word(self.read_ident());
        }
        // consume the character after the quote
        proof {
            assert(begin < length);
        }
        self.position = begin + 1;

        if self.peek_char() == '\'' {
            // a character literal like 'c'
            self.position = begin + 3;
            let value = self.raw.substring_char(begin, begin + 3);
            return Token::Number(Data { start: begin, end: begin + 3, value });
        }
        // a quoted word: greedy from the character after the quote, with the
        // quote included in the span
        proof {
            lemma_word_end(s, begin + 1);
        }
        let word = self.read_ident();
        let value = self.raw.substring_char(begin, word.end);
        Token::Word(Data { start: begin, end: word.end, value })
    }

    /// Advance past and return exactly one token. Never fails: unrecognised
    /// input degrades to `Word`, and `Eof` is returned exactly at end of
    /// input.
    pub fn next_token(&mut self) -> (r: Result<Token<'a>, LexError>)
        ensures
            final(self).raw == old(self).raw,
            r matches Ok(t) && token_realises(
                t,
                spec_next(old(self).raw@, old(self).position as int),
                old(self).raw@,
            ),
            spec_next(old(self).raw@, old(self).position as int).kind != TokenKind::Eof
                ==> final(self).position as int == spec_next(
                old(self).raw@,
                old(self).position as int,
            ).end,
            spec_next(old(self).raw@, old(self).position as int).kind == TokenKind::Eof
                ==> final(self).position as int >= spec_next(
                old(self).raw@,
                old(self).position as int,
            ).end,
    {
        let ghost s = self.raw@;
        let ghost p0 = self.position as int;
        proof {
            lemma_skip_ws(s, p0);
            lemma_spec_next_advances(s, p0);
        }
        self.skip_whitespace();
        let ghost p = self.position as int;
        let c = self.ch(self.position);

        let tok: Token<'a> = if c == ':' {
            Token::Colon(self.read_single_char_token())
        } else if c == ';' {
            Token::Semicolon(self.read_single_char_token())
        } else if c == '%' {
            if is_bin_digit(self.peek_char()) {
                Token::Number(self.read_number())
            } else {
                Token::Word(self.read_ident())
            }
        } else if c == '&' {
            let nx = self.peek_char();
            if nx == 'x' || is_oct_digit(nx) {
                Token::Number(self.read_number())
            } else {
                Token::Word(self.read_ident())
            }
        } else if c == '$' {
            if is_hex_digit(self.peek_char()) {
                Token::Number(self.read_number())
            } else {
                Token::Word(self.read_ident())
            }
        } else if c == '\'' {
            self.parse_quote_or_word()
        } else if c == '0' {
            let nx = self.peek_char();
            if nx == 'x' || is_hex_digit(nx) {
                Token::Number(self.read_number())
            } else {
                Token::Word(self.read_ident())
            }
        } else if is_dec_digit(c) {
            Token::Number(self.read_number())
        } else if c == '\\' {
            if is_space(self.peek_char()) {
                Token::Comment(self.read_comment_to('\n'))
            } else {
                Token::Word(self.read_ident())
            }
        } else if c == '(' {
            if is_space(self.peek_char()) {
                let comment = self.read_comment_to(')');
                if contains_double_dash(comment.value) {
                    Token::StackComment(comment)
                } else {
                    Token::Comment(comment)
                }
            } else {
                Token::Word(self.read_ident())
            }
        } else if c == '\0' {
            proof {
                reveal_strlit("\0");
                assert("\0"@ =~= seq!['\0']);
            }
            let dat = Data { start: self.position, end: self.position, value: "\0" };
            self.position = self.position.saturating_add(1);
            Token::Eof(dat)
        } else {
            // c is a real character here. A word character opens a greedy
            // word; a stray non-ASCII whitespace character becomes a
            // one-character Word of its own, so the scanner always advances.
            if is_word_char(c) {
                Token::Word(self.read_ident())
            } else {
                Token::Word(self.read_single_char_token())
            }
        };
        Ok(tok)
    }

    /// Scan the whole remaining input: all tokens, in order, up to but
    /// excluding the `Eof` sentinel.
    pub fn parse(&mut self) -> (tokens: Vec<Token<'a>>)
        ensures
            final(self).raw == old(self).raw,
            tokens_correspond(
                tokens@,
                spec_scan_from(old(self).raw@, old(self).position as int),
                old(self).raw@,
            ),
    {
        let ghost s = self.raw@;
        let ghost p0 = self.position as int;
        let ghost model = spec_scan_from(s, p0);
        let mut tokens: Vec<Token<'a>> = Vec::new();
        loop
            invariant_except_break
                spec_scan_from(s, self.position as int) == model.skip(tokens@.len() as int),
            invariant
                self.raw == old(self).raw,
                s == self.raw@,
                0 <= self.position as int,
                tokens@.len() <= model.len(),
                tokens_correspond(tokens@, model.take(tokens@.len() as int), s),
            ensures
                tokens_correspond(tokens@, model, s),
            decreases s.len() - self.position + 1,
        {
            let ghost pos_before = self.position as int;
            proof {
                lemma_spec_next_advances(s, pos_before);
            }
            let ghost m = spec_next(s, pos_before);
            let r = self.next_token();
            let tok = match r {
                Ok(t) => t,
                Err(_) => {
                    proof {
                        assert(false);
                    }
                    break ;
                },
            };
            if tok.kind() == TokenKind::Eof {
                proof {
                    assert(spec_scan_from(s, pos_before) =~= Seq::<SpecToken>::empty());
                    assert(model.skip(tokens@.len() as int) =~= Seq::<SpecToken>::empty());
                    assert(model.len() == tokens@.len());
                    assert(model.take(tokens@.len() as int) =~= model);
                }
                break ;
            }
            proof {
                assert(m.kind != TokenKind::Eof);
                // the model token stream unfolds by one token
                assert(spec_scan_from(s, pos_before) == seq![m] + spec_scan_from(s, m.end));
                let n = tokens@.len() as int;
                assert(model.skip(n) == seq![m] + spec_scan_from(s, m.end));
                assert(model[n] == model.skip(n)[0]);
                assert(model[n] == m);
                assert(model.skip(n + 1) =~= model.skip(n).skip(1));
                assert(model.skip(n).skip(1) =~= spec_scan_from(s, m.end));
                assert(model.take(n + 1) =~= model.take(n).push(m));
            }
            tokens.push(tok);
        }
        tokens
    }
}

/// The source text rebuilt from a token sequence: each token's exact text, in
/// order, with the original inter-token text (the skipped whitespace) put back
/// between them, and the text after the last token appended.
pub open spec fn rebuild_tokens(s: Seq<char>, ts: Seq<Token>, from: int) -> Seq<char>
    decreases ts.len(),
{
    if ts.len() == 0 {
        s.subrange(from, s.len() as int)
    } else {
        s.subrange(from, ts[0].spec_data().start as int) + ts[0].spec_data().value@
            + rebuild_tokens(s, ts.drop_first(), ts[0].spec_data().end as int)
    }
}

/// Whether every character strictly between `from` and the tokens (and
/// between consecutive tokens) is ASCII whitespace.
pub open spec fn gaps_all_whitespace(s: Seq<char>, ts: Seq<Token>, from: int) -> bool
    decreases ts.len(),
{
    if ts.len() == 0 {
        true
    } else {
        &&& (forall|i: int|
            from <= i < ts[0].spec_data().start ==> crate::chars::spec_is_ascii_space(
                #[trigger] s[i],
            ))
        &&& gaps_all_whitespace(s, ts.drop_first(), ts[0].spec_data().end as int)
    }
}

/// Tokenising, then re-concatenating each token's exact text in order with the
/// original whitespace reinserted between the tokens, reproduces the original
/// source exactly; and every gap between tokens holds only ASCII whitespace.
/// The hypothesis is exactly what [`Lexer::parse`] ensures of its result when
/// scanning from `pos`.
pub proof fn lemma_round_trip_from(s: Seq<char>, ts: Seq<Token>, pos: int)
    requires
        0 <= pos <= s.len(),
        tokens_correspond(ts, spec_scan_from(s, pos), s),
    ensures
        rebuild_tokens(s, ts, pos) == s.subrange(pos, s.len() as int),
        gaps_all_whitespace(s, ts, pos),
    decreases ts.len(),
{
    let ms = spec_scan_from(s, pos);
    let m = spec_next(s, pos);
    lemma_skip_ws(s, pos);
    lemma_spec_next_advances(s, pos);
    if ts.len() == 0 {
    } else {
        assert(ms.len() > 0);
        assert(m.kind != TokenKind::Eof);
        assert(ms == seq![m] + spec_scan_from(s, m.end));
        assert(ms[0] == m);
        assert(token_matches(ts[0], m, s));
        let rest = ts.drop_first();
        assert forall|i: int| 0 <= i < rest.len() implies token_matches(
            #[trigger] rest[i],
            spec_scan_from(s, m.end)[i],
            s,
        ) by {
            assert(rest[i] == ts[i + 1]);
            assert(spec_scan_from(s, m.end)[i] == ms[i + 1]);
        }
        lemma_round_trip_from(s, rest, m.end);
        // the three pieces tile the suffix of the source
        assert(s.subrange(pos, s.len() as int) =~= s.subrange(pos, m.start) + s.subrange(
            m.start,
            m.end,
        ) + s.subrange(m.end, s.len() as int));
        // the gap before the token is exactly the skipped whitespace
        assert(m.start == skip_ws(s, pos));
    }
}

/// The round-trip law for a whole scan: rebuilding from the tokens of
/// [`spec_tokens`] reproduces the source exactly.
pub proof fn lemma_round_trip(s: Seq<char>, ts: Seq<Token>)
    requires
        tokens_correspond(ts, spec_tokens(s), s),
    ensures
        rebuild_tokens(s, ts, 0) == s,
        gaps_all_whitespace(s, ts, 0),
{
    lemma_round_trip_from(s, ts, 0);
    assert(s.subrange(0, s.len() as int) =~= s);
}

/// Whether `value` contains two adjacent dashes.
pub fn contains_double_dash(value: &str) -> (r: bool)
    ensures
        r == has_double_dash(value@),
{
    let ghost s = value@;
    let l = value.unicode_len();
    if l < 2 {
        return false;
    }
    let mut i: usize = 1;
    while i < l
        invariant
            1 <= i as int <= l as int,
            l == s.len(),
            s == value@,
            forall|j: int| 0 <= j < i - 1 ==> !(#[trigger] s[j] == '-' && s[j + 1] == '-'),
        decreases l - i,
    {
        if value.get_char(i - 1) == '-' && value.get_char(i) == '-' {
            return true;
        }
        i = i + 1;
    }
    false
}

} // verus!
