//! Tokens produced by the scanner: a closed tagged union of token kinds, each
//! carrying a span of character offsets into the source plus the matched text.

use vstd::prelude::*;

verus! {

/// A span of the source: `start` and `end` are character offsets (`end`
/// exclusive), `value` the exact matched text.
#[derive(Debug, PartialEq, Eq, Copy, Clone)]
pub struct Data<'a> {
    pub start: usize,
    pub end: usize,
    pub value: &'a str,
}

impl<'a> Data<'a> {
    pub fn new(start: usize, end: usize, value: &'a str) -> (r: Data<'a>)
        ensures
            r.start == start,
            r.end == end,
            r.value == value,
    {
        Data { start, end, value }
    }
}

/// The token kinds, without their spans.
#[derive(Debug, PartialEq, Eq, Structural, Copy, Clone)]
pub enum TokenKind {
    Illegal,
    Eof,
    Colon,
    Semicolon,
    Word,
    Number,
    Comment,
    StackComment,
}

/// A classified, positioned fragment of source text.
#[derive(Debug, PartialEq, Eq, Copy, Clone)]
pub enum Token<'a> {
    Illegal(Data<'a>),
    Eof(Data<'a>),
    Colon(Data<'a>),
    Semicolon(Data<'a>),
    Word(Data<'a>),
    Number(Data<'a>),
    Comment(Data<'a>),
    StackComment(Data<'a>),
}

impl<'a> Token<'a> {
    /// The span carried by this token, whatever its kind.
    pub open spec fn spec_data(self) -> Data<'a> {
        match self {
            Token::Illegal(dat) => dat,
            Token::Eof(dat) => dat,
            Token::Colon(dat) => dat,
            Token::Semicolon(dat) => dat,
            Token::Word(dat) => dat,
            Token::Number(dat) => dat,
            Token::Comment(dat) => dat,
            Token::StackComment(dat) => dat,
        }
    }

    pub fn get_data(&self) -> (r: &Data<'a>)
        ensures
            *r == self.spec_data(),
    {
        match self {
            Token::Illegal(dat) => dat,
            Token::Eof(dat) => dat,
            Token::Colon(dat) => dat,
            Token::Semicolon(dat) => dat,
            Token::Word(dat) => dat,
            Token::Number(dat) => dat,
            Token::Comment(dat) => dat,
            Token::StackComment(dat) => dat,
        }
    }

    pub open spec fn spec_kind(self) -> TokenKind {
        match self {
            Token::Illegal(_) => TokenKind::Illegal,
            Token::Eof(_) => TokenKind::Eof,
            Token::Colon(_) => TokenKind::Colon,
            Token::Semicolon(_) => TokenKind::Semicolon,
            Token::Word(_) => TokenKind::Word,
            Token::Number(_) => TokenKind::Number,
            Token::Comment(_) => TokenKind::Comment,
            Token::StackComment(_) => TokenKind::StackComment,
        }
    }

    /// The kind of this token.
    pub fn kind(&self) -> (r: TokenKind)
        ensures
            r == self.spec_kind(),
    {
        match self {
            Token::Illegal(_) => TokenKind::Illegal,
            Token::Eof(_) => TokenKind::Eof,
            Token::Colon(_) => TokenKind::Colon,
            Token::Semicolon(_) => TokenKind::Semicolon,
            Token::Word(_) => TokenKind::Word,
            Token::Number(_) => TokenKind::Number,
            Token::Comment(_) => TokenKind::Comment,
            Token::StackComment(_) => TokenKind::StackComment,
        }
    }
}

/// The mathematical shadow of a token: its kind and character-offset span.
/// The matched text is always the source restricted to that span.
pub ghost struct SpecToken {
    pub kind: TokenKind,
    pub start: int,
    pub end: int,
}

/// Whether the executable token `t` realises the model token `m` over the
/// source `src`: same kind, same span, and its text is that span of `src`.
pub open spec fn token_matches(t: Token, m: SpecToken, src: Seq<char>) -> bool {
    &&& t.spec_kind() == m.kind
    &&& t.spec_data().start == m.start
    &&& t.spec_data().end == m.end
    &&& t.spec_data().value@ == src.subrange(m.start, m.end)
}

} // verus!
