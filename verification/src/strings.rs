//! Verified string utilities: ASCII case folding of whole strings, character
//! appends, and string comparison.

use vstd::prelude::*;
use vstd::string::StrSliceExecFns;
use crate::chars::{lower_char, spec_lower_char, upper_char, spec_upper_char};

verus! {

/// ASCII case folding of a whole text, towards lowercase.
pub open spec fn spec_lower(s: Seq<char>) -> Seq<char> {
    s.map_values(|c: char| spec_lower_char(c))
}

/// ASCII case folding of a whole text, towards uppercase.
pub open spec fn spec_upper(s: Seq<char>) -> Seq<char> {
    s.map_values(|c: char| spec_upper_char(c))
}

/// Folding a text twice folds it once: lowering is idempotent.
pub proof fn lemma_spec_lower_idempotent(s: Seq<char>)
    ensures
        spec_lower(spec_lower(s)) == spec_lower(s),
{
    assert(spec_lower(spec_lower(s)) =~= spec_lower(s)) by {
        assert forall|i: int| 0 <= i < s.len() implies spec_lower(spec_lower(s))[i] == spec_lower(
            s,
        )[i] by {
            crate::chars::lemma_lower_char_idempotent(s[i]);
        }
    }
}

/// Relies on `String::push`: appends exactly one character to the string.
#[verifier::external_body]
pub fn push_char(s: &mut String, c: char)
    ensures
        final(s)@ == old(s)@.push(c),
{
    s.push(c);
}

/// The ASCII-lowercase copy of `s`.
pub fn lower_str(s: &str) -> (r: String)
    ensures
        r@ == spec_lower(s@),
{
    let l = s.unicode_len();
    let mut r = String::new();
    let mut i: usize = 0;
    while i < l
        invariant
            l == s@.len(),
            i <= l,
            r@ == spec_lower(s@.take(i as int)),
        decreases l - i,
    {
        let c = lower_char(s.get_char(i));
        push_char(&mut r, c);
        proof {
            assert(s@.take(i + 1) =~= s@.take(i as int).push(s@[i as int]));
            assert(spec_lower(s@.take(i + 1)) =~= spec_lower(s@.take(i as int)).push(
                spec_lower_char(s@[i as int]),
            ));
        }
        i = i + 1;
    }
    proof {
        assert(s@.take(l as int) =~= s@);
    }
    r
}

/// The ASCII-uppercase copy of `s`.
pub fn upper_str(s: &str) -> (r: String)
    ensures
        r@ == spec_upper(s@),
{
    let l = s.unicode_len();
    let mut r = String::new();
    let mut i: usize = 0;
    while i < l
        invariant
            l == s@.len(),
            i <= l,
            r@ == spec_upper(s@.take(i as int)),
        decreases l - i,
    {
        let c = upper_char(s.get_char(i));
        push_char(&mut r, c);
        proof {
            assert(s@.take(i + 1) =~= s@.take(i as int).push(s@[i as int]));
            assert(spec_upper(s@.take(i + 1)) =~= spec_upper(s@.take(i as int)).push(
                spec_upper_char(s@[i as int]),
            ));
        }
        i = i + 1;
    }
    proof {
        assert(s@.take(l as int) =~= s@);
    }
    r
}

/// Whether two texts hold the same characters.
pub fn str_eq(a: &str, b: &str) -> (r: bool)
    ensures
        r == (a@ == b@),
{
    let la = a.unicode_len();
    let lb = b.unicode_len();
    if la != lb {
        proof {
            assert(a@ != b@);
        }
        return false;
    }
    let mut i: usize = 0;
    while i < la
        invariant
            la == a@.len(),
            la == b@.len(),
            i <= la,
            forall|j: int| 0 <= j < i ==> a@[j] == b@[j],
        decreases la - i,
    {
        if a.get_char(i) != b.get_char(i) {
            return false;
        }
        i = i + 1;
    }
    proof {
        assert(a@ =~= b@);
    }
    true
}

/// The concatenation of two texts as an owned string.
pub fn concat_strs(a: &str, b: &str) -> (r: String)
    ensures
        r@ == a@ + b@,
{
    let mut r = String::from_str(a);
    r.append(b);
    r
}

/// Whether the text ends with the character `c`.
pub fn str_ends_with_char(s: &str, c: char) -> (r: bool)
    ensures
        r == (s@.len() > 0 && s@[s@.len() - 1] == c),
{
    let l = s.unicode_len();
    l > 0 && s.get_char(l - 1) == c
}

/// Whether the text ends with the character `c` twice.
pub fn str_ends_with_char_twice(s: &str, c: char) -> (r: bool)
    ensures
        r == (s@.len() >= 2 && s@[s@.len() - 1] == c && s@[s@.len() - 2] == c),
{
    let l = s.unicode_len();
    l >= 2 && s.get_char(l - 1) == c && s.get_char(l - 2) == c
}

/// `piece` repeated `n` times.
pub open spec fn spec_repeat(s: Seq<char>, n: int) -> Seq<char>
    decreases n,
{
    if n <= 0 {
        Seq::empty()
    } else {
        spec_repeat(s, n - 1) + s
    }
}

/// The text `piece`, repeated `n` times.
pub fn repeat_str(piece: &str, n: usize) -> (r: String)
    ensures
        r@ == spec_repeat(piece@, n as int),
{
    let mut r = String::new();
    let mut i: usize = 0;
    while i < n
        invariant
            i <= n,
            r@ == spec_repeat(piece@, i as int),
        decreases n - i,
    {
        r.append(piece);
        i = i + 1;
    }
    r
}

/// The decimal digit character for `d`.
pub open spec fn spec_digit_char(d: int) -> char {
    ((48 + d) as u8) as char
}

/// The decimal digits of `n`, most significant first.
pub open spec fn spec_decimal(n: int) -> Seq<char>
    decreases n,
{
    if n < 10 {
        seq![spec_digit_char(if n < 0 {
            0
        } else {
            n
        })]
    } else {
        spec_decimal(n / 10).push(spec_digit_char(n % 10))
    }
}

/// The decimal digit character for `d`.
pub fn digit_char(d: u32) -> (r: char)
    requires
        d < 10,
    ensures
        r == spec_digit_char(d as int),
{
    ((48 + d as u8)) as char
}

/// The decimal rendering of `n`.
pub fn u32_to_string(n: u32) -> (r: String)
    ensures
        r@ == spec_decimal(n as int),
    decreases n,
{
    if n < 10 {
        let mut s = String::new();
        push_char(&mut s, digit_char(n));
        s
    } else {
        let mut s = u32_to_string(n / 10);
        push_char(&mut s, digit_char(n % 10));
        s
    }
}

/// The first offset at or after `i` whose character is not whitespace (the
/// amount a left trim from `i` removes).
pub open spec fn spec_skip_space(s: Seq<char>, i: int) -> int
    decreases s.len() - i,
{
    if 0 <= i < s.len() && crate::chars::spec_is_space(s[i]) {
        spec_skip_space(s, i + 1)
    } else {
        i
    }
}

/// The first offset at or after `from` that holds a non-whitespace character,
/// `s`'s length when there is none.
pub fn skip_space_from(s: &str, from: usize) -> (r: usize)
    requires
        from as int <= s@.len(),
    ensures
        r as int == spec_skip_space(s@, from as int),
        from <= r,
        r as int <= s@.len(),
{
    let l = s.unicode_len();
    let mut i = from;
    while i < l && crate::chars::is_space(s.get_char(i))
        invariant
            l == s@.len(),
            from <= i <= l,
            spec_skip_space(s@, from as int) == spec_skip_space(s@, i as int),
        decreases l - i,
    {
        i = i + 1;
    }
    i
}

} // verus!
