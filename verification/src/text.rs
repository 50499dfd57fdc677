//! Word-boundary scanning and bounds checking over a plain text, the
//! operations an editor buffer needs when it turns a cursor position into a
//! lookup key: the word at a character offset, the word on or before it, and
//! safe line/column-to-offset conversion.

use vstd::prelude::*;
use vstd::string::StrSliceExecFns;
use crate::chars::{is_space, spec_is_space};
use crate::position::{spec_line_of, to_line_char};

verus! {

/// The text as a sequence of characters, for the contracts of the traits
/// below.
pub trait TextChars {
    /// The characters of the text.
    spec fn chars_view(&self) -> Seq<char>;
}

impl TextChars for str {
    open spec fn chars_view(&self) -> Seq<char> {
        self@
    }
}

/// The start of the word containing offset `c`: walk back until the previous
/// character is whitespace or the text begins.
pub open spec fn spec_word_start(s: Seq<char>, c: int) -> int
    decreases c,
{
    if c <= 0 {
        0
    } else if spec_is_space(s[c - 1]) {
        c
    } else {
        spec_word_start(s, c - 1)
    }
}

/// The (exclusive) end of the word containing offset `c`: walk forward until
/// the next character is whitespace or the text ends.
pub open spec fn spec_word_stop(s: Seq<char>, c: int) -> int
    decreases s.len() - c,
{
    if c + 1 >= s.len() {
        c + 1
    } else if spec_is_space(s[c + 1]) {
        c + 1
    } else {
        spec_word_stop(s, c + 1)
    }
}

/// The word at offset `c`: empty at whitespace or out of bounds, else the
/// maximal whitespace-free run around `c`.
pub open spec fn spec_word_at(s: Seq<char>, c: int) -> Seq<char> {
    if !(0 <= c < s.len()) {
        Seq::empty()
    } else if spec_is_space(s[c]) {
        Seq::empty()
    } else {
        s.subrange(spec_word_start(s, c), spec_word_stop(s, c))
    }
}

pub proof fn lemma_word_bounds(s: Seq<char>, c: int)
    requires
        0 <= c < s.len(),
    ensures
        0 <= spec_word_start(s, c) <= c,
        c + 1 <= spec_word_stop(s, c) <= s.len(),
    decreases s.len(),
{
    lemma_word_start_bounds(s, c);
    lemma_word_stop_bounds(s, c);
}

proof fn lemma_word_start_bounds(s: Seq<char>, c: int)
    requires
        0 <= c,
    ensures
        0 <= spec_word_start(s, c) <= c,
    decreases c,
{
    if c > 0 && !spec_is_space(s[c - 1]) {
        lemma_word_start_bounds(s, c - 1);
    }
}

proof fn lemma_word_stop_bounds(s: Seq<char>, c: int)
    requires
        0 <= c < s.len(),
    ensures
        c + 1 <= spec_word_stop(s, c) <= s.len(),
    decreases s.len() - c,
{
    if !(c + 1 >= s.len()) && !spec_is_space(s[c + 1]) {
        lemma_word_stop_bounds(s, c + 1);
    }
}

/// The word under a character offset.
pub trait WordAt: TextChars {
    /// The word at offset `chix`: empty when the offset is out of bounds or
    /// on whitespace.
    fn word_at(&self, chix: usize) -> (r: &str)
        ensures
            r@ == spec_word_at(self.chars_view(), chix as int),
    ;
}

impl WordAt for str {
    fn word_at(&self, chix: usize) -> (r: &str) {
        let ghost s = self@;
        let l = self.unicode_len();
        if chix >= l {
            proof {
                reveal_strlit("");
                assert(""@ =~= Seq::<char>::empty());
            }
            return "";
        }
        if is_space(self.get_char(chix)) {
            proof {
                reveal_strlit("");
                assert(""@ =~= Seq::<char>::empty());
            }
            return "";
        }
        let mut min = chix;
        while min > 0 && !is_space(self.get_char(min - 1))
            invariant
                s == self@,
                l == s.len(),
                0 <= min <= chix < l,
                spec_word_start(s, chix as int) == spec_word_start(s, min as int),
            decreases min,
        {
            min = min - 1;
        }
        let mut max = chix;
        while max + 1 < l && !is_space(self.get_char(max + 1))
            invariant
                s == self@,
                l == s.len(),
                chix <= max < l,
                spec_word_stop(s, chix as int) == spec_word_stop(s, max as int),
            decreases l - max,
        {
            max = max + 1;
        }
        proof {
            lemma_word_bounds(s, chix as int);
        }
        self.substring_char(min, max + 1)
    }
}

/// The word under a character offset, without the bounds tolerance of
/// [`WordAt`]: the offset must be inside the text, and some whitespace must
/// follow the word (the callers hand in cursor positions over a buffer that
/// ends in a newline).
pub trait WordAtChar: TextChars {
    /// The word at offset `chix`; empty on whitespace.
    fn word_at_char(&self, chix: usize) -> (r: &str)
        requires
            0 <= chix < self.chars_view().len(),
            spec_is_space(self.chars_view()[chix as int]) || exists|e: int|
                chix < e < self.chars_view().len() && spec_is_space(
                    #[trigger] self.chars_view()[e],
                ),
        ensures
            r@ == spec_word_at(self.chars_view(), chix as int),
    ;
}

impl WordAtChar for str {
    fn word_at_char(&self, chix: usize) -> (r: &str) {
        let ghost s = self@;
        let l = self.unicode_len();
        if is_space(self.get_char(chix)) {
            proof {
                reveal_strlit("");
                assert(""@ =~= Seq::<char>::empty());
            }
            return "";
        }
        let mut min = chix;
        while min > 0 && min < l && !is_space(self.get_char(min - 1))
            invariant
                s == self@,
                l == s.len(),
                0 <= min <= chix < l,
                spec_word_start(s, chix as int) == spec_word_start(s, min as int),
            decreases min,
        {
            min = min - 1;
        }
        let mut max = chix;
        while max < l && !is_space(self.get_char(max + 1))
            invariant
                s == self@,
                l == s.len(),
                chix <= max < l,
                exists|e: int| max < e < l && spec_is_space(#[trigger] s[e]),
                spec_word_stop(s, chix as int) == spec_word_stop(s, max as int),
            decreases l - max,
        {
            max = max + 1;
        }
        proof {
            lemma_word_bounds(s, chix as int);
        }
        self.substring_char(min, max + 1)
    }
}

/// The word at a cursor, or, when the cursor sits just past a word, the word
/// before it — as editors that select a word together with the following
/// space expect.
pub trait WordOnOrBefore: TextChars {
    /// The word at offset `ix`, or the word at `ix - 1` when there is none.
    fn word_on_or_before(&self, ix: usize) -> (r: &str)
        ensures
            spec_word_at(self.chars_view(), ix as int).len() > 0 ==> r@ == spec_word_at(
                self.chars_view(),
                ix as int,
            ),
            spec_word_at(self.chars_view(), ix as int).len() == 0 && ix > 0 ==> r@
                == spec_word_at(self.chars_view(), ix - 1),
            spec_word_at(self.chars_view(), ix as int).len() == 0 && ix == 0 ==> r@
                == spec_word_at(self.chars_view(), ix as int),
    ;
}

impl WordOnOrBefore for str {
    fn word_on_or_before(&self, ix: usize) -> (r: &str) {
        let word_on_cursor = self.word_at(ix);
        if word_on_cursor.unicode_len() > 0 {
            word_on_cursor
        } else if ix > 0 {
            self.word_at(ix - 1)
        } else {
            word_on_cursor
        }
    }
}

/// The character offset where line `line` begins, scanning from offset `i`:
/// the offset just past the `line`-th line break, or the text's end when
/// there are fewer lines.
pub open spec fn spec_line_start_scan(s: Seq<char>, line: int, i: int) -> int
    decreases s.len() - i,
{
    if line <= 0 {
        i
    } else if !(0 <= i < s.len()) {
        i
    } else if s[i] == '\n' {
        spec_line_start_scan(s, line - 1, i + 1)
    } else {
        spec_line_start_scan(s, line, i + 1)
    }
}

/// The character offset where line `line` begins.
pub open spec fn spec_line_start(s: Seq<char>, line: int) -> int {
    spec_line_start_scan(s, line, 0)
}

/// Bounds-checked conversions between positions and character offsets.
pub trait RopeBoundsCheck: TextChars {
    /// Whether `ix` is a valid character index.
    fn check_char_bounds(&self, ix: usize) -> (r: bool)
        ensures
            r == (ix < self.chars_view().len()),
    ;

    /// Whether `line` is a valid line index (lines are delimited by `'\n'`;
    /// a text always has one line more than it has line breaks).
    fn check_line_bounds(&self, line: usize) -> (r: bool)
        ensures
            r == (line as int <= spec_line_of(self.chars_view(), self.chars_view().len() as int)),
    ;

    /// The character index of line/character position, or `None` when the
    /// line is out of bounds or the resulting index is.
    fn get_char_ix_safe(&self, line: u32, character: u32) -> (r: Option<usize>)
        ensures
            line as int > spec_line_of(self.chars_view(), self.chars_view().len() as int) ==> r
                is None,
            line as int <= spec_line_of(self.chars_view(), self.chars_view().len() as int) ==> {
                let ix = spec_line_start(self.chars_view(), line as int) + character;
                &&& (ix < self.chars_view().len() ==> r == Some(ix as usize))
                &&& (ix >= self.chars_view().len() ==> r is None)
            },
    ;
}

impl RopeBoundsCheck for str {
    fn check_char_bounds(&self, ix: usize) -> (r: bool) {
        ix < self.unicode_len()
    }

    fn check_line_bounds(&self, line: usize) -> (r: bool) {
        let l = self.unicode_len();
        let (breaks, _) = to_line_char(l, self);
        line <= breaks
    }

    fn get_char_ix_safe(&self, line: u32, character: u32) -> (r: Option<usize>) {
        let ghost s = self@;
        let l = self.unicode_len();
        let (breaks, _) = to_line_char(l, self);
        if line as usize > breaks {
            return None;
        }
        // find where the line begins
        let mut remaining = line;
        let mut i: usize = 0;
        while remaining > 0 && i < l
            invariant
                s == self@,
                l == s.len(),
                0 <= i <= l,
                spec_line_start_scan(s, line as int, 0) == spec_line_start_scan(
                    s,
                    remaining as int,
                    i as int,
                ),
            decreases l - i,
        {
            if self.get_char(i) == '\n' {
                remaining = remaining - 1;
            }
            i = i + 1;
        }
        proof {
            assert(spec_line_start_scan(s, remaining as int, i as int) == i);
        }
        // i is the line's first character offset
        let c = character as usize;
        if c < l - i {
            Some(i + c)
        } else {
            None
        }
    }
}

} // verus!
