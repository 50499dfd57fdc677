//! Small helpers for the editor's hover, signature-help and highlighting
//! features: pulling the stack-effect notation out of a word's documentation
//! and classifying control-flow words.

use vstd::prelude::*;
use vstd::string::StrSliceExecFns;
use crate::parser::contains_double_dash;
use crate::scan::has_double_dash;
use crate::strings::{spec_upper, str_eq, upper_str};

verus! {

/// The first index at or after `i` holding the character `c`, or the text's
/// length when there is none.
pub open spec fn find_char_from(s: Seq<char>, c: char, i: int) -> int
    decreases s.len() - i,
{
    if !(0 <= i < s.len()) {
        s.len() as int
    } else if s[i] == c {
        i
    } else {
        find_char_from(s, c, i + 1)
    }
}

pub proof fn lemma_find_char_from(s: Seq<char>, c: char, i: int)
    requires
        0 <= i <= s.len(),
    ensures
        i <= find_char_from(s, c, i) <= s.len(),
        find_char_from(s, c, i) < s.len() ==> s[find_char_from(s, c, i)] == c,
    decreases s.len() - i,
{
    if 0 <= i < s.len() && s[i] != c {
        lemma_find_char_from(s, c, i + 1);
    }
}

/// The first parenthesised group `( ... )` at or after `from` whose text
/// contains `--` (the conventional shape of a stack effect), or the empty
/// text when there is none.
pub open spec fn spec_stack_effect(s: Seq<char>, from: int) -> Seq<char>
    decreases s.len() - from,
{
    let p = find_char_from(s, '(', from);
    if !(0 <= p < s.len()) {
        Seq::empty()
    } else {
        let q = find_char_from(s, ')', p);
        if q < s.len() && has_double_dash(s.subrange(p, q + 1)) {
            s.subrange(p, q + 1)
        } else {
            proof {
                lemma_find_char_from(s, '(', from);
            }
            spec_stack_effect(s, p + 1)
        }
    }
}

/// Extract the stack-effect notation (like `( x -- x x )`) from a word's
/// documentation: the first parenthesised group containing `--`, or the
/// empty string.
pub fn extract_stack_effect(doc: &str) -> (r: String)
    ensures
        r@ == spec_stack_effect(doc@, 0),
{
    let ghost s = doc@;
    let l = doc.unicode_len();
    let mut from: usize = 0;
    loop
        invariant
            s == doc@,
            l == s.len(),
            0 <= from as int <= l as int,
            spec_stack_effect(s, 0) == spec_stack_effect(s, from as int),
        ensures
            spec_stack_effect(s, 0) == Seq::<char>::empty(),
        decreases l - from,
    {
        // next opening parenthesis
        let mut p = from;
        while p < l && doc.get_char(p) != '('
            invariant
                s == doc@,
                l == s.len(),
                from <= p <= l,
                find_char_from(s, '(', from as int) == find_char_from(s, '(', p as int),
            decreases l - p,
        {
            p = p + 1;
        }
        if p >= l {
            break ;
        }
        // next closing parenthesis at or after it
        let mut q = p;
        while q < l && doc.get_char(q) != ')'
            invariant
                s == doc@,
                l == s.len(),
                p <= q <= l,
                find_char_from(s, ')', p as int) == find_char_from(s, ')', q as int),
            decreases l - q,
        {
            q = q + 1;
        }
        if q < l {
            let effect = doc.substring_char(p, q + 1);
            if contains_double_dash(effect) {
                return String::from_str(effect);
            }
        }
        from = p + 1;
    }
    proof {
        reveal_strlit("");
        assert(""@ =~= Seq::<char>::empty());
    }
    String::from_str("")
}

/// Whether the word is a control-flow word, up to ASCII case: one that opens,
/// continues or closes a conditional, loop or case construct.
pub open spec fn spec_is_control_flow_word(s: Seq<char>) -> bool {
    ||| spec_upper(s) == "IF"@
    ||| spec_upper(s) == "THEN"@
    ||| spec_upper(s) == "ELSE"@
    ||| spec_upper(s) == "DO"@
    ||| spec_upper(s) == "LOOP"@
    ||| spec_upper(s) == "BEGIN"@
    ||| spec_upper(s) == "UNTIL"@
    ||| spec_upper(s) == "WHILE"@
    ||| spec_upper(s) == "REPEAT"@
    ||| spec_upper(s) == "CASE"@
    ||| spec_upper(s) == "ENDCASE"@
    ||| spec_upper(s) == "OF"@
    ||| spec_upper(s) == "ENDOF"@
    ||| spec_upper(s) == "+LOOP"@
    ||| spec_upper(s) == "DOES>"@
    ||| spec_upper(s) == "EXIT"@
    ||| spec_upper(s) == "LEAVE"@
    ||| spec_upper(s) == "UNLOOP"@
    ||| spec_upper(s) == "?DO"@
    ||| spec_upper(s) == "RECURSE"@
}

/// Whether `word` is a control-flow word (case-insensitive).
pub fn is_control_flow_word(word: &str) -> (r: bool)
    ensures
        r == spec_is_control_flow_word(word@),
{
    let u = upper_str(word);
    let us = u.as_str();
    str_eq(us, "IF") || str_eq(us, "THEN") || str_eq(us, "ELSE") || str_eq(us, "DO") || str_eq(
        us,
        "LOOP",
    ) || str_eq(us, "BEGIN") || str_eq(us, "UNTIL") || str_eq(us, "WHILE") || str_eq(us, "REPEAT")
        || str_eq(us, "CASE") || str_eq(us, "ENDCASE") || str_eq(us, "OF") || str_eq(us, "ENDOF")
        || str_eq(us, "+LOOP") || str_eq(us, "DOES>") || str_eq(us, "EXIT") || str_eq(us, "LEAVE")
        || str_eq(us, "UNLOOP") || str_eq(us, "?DO") || str_eq(us, "RECURSE")
}

} // verus!
