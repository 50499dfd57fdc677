//! Position mapping: converting character offsets into line/column positions,
//! and token spans into editor-visible ranges. Lines are delimited by `'\n'`;
//! the column is the character offset within the line.

use vstd::prelude::*;
use vstd::string::StrSliceExecFns;
use crate::token::Data;

verus! {

/// A line/column position in a text; both are zero-based character counts.
#[derive(Debug, PartialEq, Eq, Structural, Copy, Clone)]
pub struct Position {
    pub line: usize,
    pub character: usize,
}

/// A half-open range between two positions.
#[derive(Debug, PartialEq, Eq, Structural, Copy, Clone)]
pub struct Range {
    pub start: Position,
    pub end: Position,
}

/// The number of line breaks in `s` strictly before offset `upto`.
pub open spec fn spec_line_of(s: Seq<char>, upto: int) -> int
    decreases upto,
{
    if upto <= 0 {
        0
    } else {
        spec_line_of(s, upto - 1) + if 0 <= upto - 1 < s.len() && s[upto - 1] == '\n' {
            1int
        } else {
            0int
        }
    }
}

/// The offset at which the line containing offset `chix` begins: one past the
/// last line break before `chix`, or the start of the text.
pub open spec fn spec_line_start_of(s: Seq<char>, chix: int) -> int
    decreases chix,
{
    if chix <= 0 {
        0
    } else if 0 <= chix - 1 < s.len() && s[chix - 1] == '\n' {
        chix
    } else {
        spec_line_start_of(s, chix - 1)
    }
}

/// The column of offset `chix`: its distance from the start of its line.
pub open spec fn spec_col_of(s: Seq<char>, chix: int) -> int {
    chix - spec_line_start_of(s, chix)
}

/// The position of offset `chix` in `s`.
pub open spec fn spec_position_of(s: Seq<char>, chix: int) -> Position {
    Position {
        line: spec_line_of(s, chix) as usize,
        character: spec_col_of(s, chix) as usize,
    }
}

/// The range of a span in `s`.
pub open spec fn spec_range_of(s: Seq<char>, start: int, end: int) -> Range {
    Range { start: spec_position_of(s, start), end: spec_position_of(s, end) }
}

/// The line and column of character offset `chix` in `text`: the number of
/// line breaks before it, and its distance from the start of its line.
pub fn to_line_char(chix: usize, text: &str) -> (r: (usize, usize))
    requires
        chix as int <= text@.len(),
    ensures
        r.0 as int == spec_line_of(text@, chix as int),
        r.1 as int == spec_col_of(text@, chix as int),
{
    let ghost s = text@;
    let l = text.unicode_len();
    let mut line: usize = 0;
    let mut line_start: usize = 0;
    let mut i: usize = 0;
    while i < chix
        invariant
            s == text@,
            l == s.len(),
            i <= chix <= l,
            line as int == spec_line_of(s, i as int),
            line_start as int == spec_line_start_of(s, i as int),
            line <= i,
            line_start <= i,
        decreases chix - i,
    {
        if text.get_char(i) == '\n' {
            line = line + 1;
            line_start = i + 1;
        }
        i = i + 1;
    }
    (line, chix - line_start)
}

/// Conversion of a span's endpoints into editor-visible positions over the
/// text the span points into.
pub trait ToPosition {
    /// The span's starting character offset.
    spec fn span_start(&self) -> int;

    /// The span's (exclusive) ending character offset.
    spec fn span_end(&self) -> int;

    /// The position of the span's start.
    fn to_position_start(&self, text: &str) -> (p: Position)
        requires
            0 <= self.span_start() <= text@.len(),
        ensures
            p == spec_position_of(text@, self.span_start()),
    ;

    /// The position of the span's (exclusive) end.
    fn to_position_end(&self, text: &str) -> (p: Position)
        requires
            0 <= self.span_end() <= text@.len(),
        ensures
            p == spec_position_of(text@, self.span_end()),
    ;

    /// The range between the span's endpoints.
    fn to_range(&self, text: &str) -> (r: Range)
        requires
            0 <= self.span_start() <= text@.len(),
            0 <= self.span_end() <= text@.len(),
        ensures
            r == spec_range_of(text@, self.span_start(), self.span_end()),
    ;
}

impl<'a> ToPosition for Data<'a> {
    open spec fn span_start(&self) -> int {
        self.start as int
    }

    open spec fn span_end(&self) -> int {
        self.end as int
    }

    fn to_position_start(&self, text: &str) -> (p: Position) {
        let (line, character) = to_line_char(self.start, text);
        Position { line, character }
    }

    fn to_position_end(&self, text: &str) -> (p: Position) {
        let (line, character) = to_line_char(self.end, text);
        Position { line, character }
    }

    fn to_range(&self, text: &str) -> (r: Range) {
        Range { start: self.to_position_start(text), end: self.to_position_end(text) }
    }
}

/// A cursor position extracted from an editor request: the file it points
/// into and the line/character position within it.
#[derive(Debug, Clone)]
pub struct ExtractedPosition {
    pub file_path: String,
    pub line: u32,
    pub character: u32,
}

impl ExtractedPosition {
    /// The position rendered for logging, as `file:line:character`.
    pub fn format(&self) -> (r: String)
        ensures
            r@ == self.file_path@ + ":"@ + crate::strings::spec_decimal(self.line as int) + ":"@
                + crate::strings::spec_decimal(self.character as int),
    {
        let mut r = String::from_str(self.file_path.as_str());
        r.append(":");
        let line = crate::strings::u32_to_string(self.line);
        r.append(line.as_str());
        r.append(":");
        let character = crate::strings::u32_to_string(self.character);
        r.append(character.as_str());
        r
    }
}

/// The range running from the start of span `a` to the end of span `b`.
pub fn data_range_from_to(a: &Data, b: &Data, text: &str) -> (r: Range)
    requires
        a.start as int <= text@.len(),
        b.end as int <= text@.len(),
    ensures
        r == spec_range_of(text@, a.start as int, b.end as int),
{
    Range { start: a.to_position_start(text), end: b.to_position_end(text) }
}

} // verus!
