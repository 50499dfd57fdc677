//! Resolving the defined name from the tokens after a definition opener.

use vstd::prelude::*;
use crate::strings::concat_strs;
use crate::token::{Token, TokenKind};

verus! {

/// The name (and its span) resolved from the tokens at `index`:
/// a `Number` immediately adjacent (zero gap) to a following `Word` combines
/// into one name, so that names beginning with digits are one definition; a
/// lone `Word` or a lone `Number` is its own name; anything else names
/// nothing.
pub open spec fn spec_word_name(ts: Seq<Token>, index: int) -> Option<(Seq<char>, int, int)> {
    if !(0 <= index < ts.len()) {
        None
    } else {
        let t = ts[index];
        if t.spec_kind() == TokenKind::Number && index + 1 < ts.len() && ts[index
            + 1].spec_kind() == TokenKind::Word && t.spec_data().end == ts[index
            + 1].spec_data().start {
            Some(
                (
                    t.spec_data().value@ + ts[index + 1].spec_data().value@,
                    t.spec_data().start as int,
                    ts[index + 1].spec_data().end as int,
                ),
            )
        } else if t.spec_kind() == TokenKind::Word {
            Some((t.spec_data().value@, t.spec_data().start as int, t.spec_data().end as int))
        } else if t.spec_kind() == TokenKind::Number {
            Some((t.spec_data().value@, t.spec_data().start as int, t.spec_data().end as int))
        } else {
            None
        }
    }
}

/// Extract a word name from the token sequence at `index`; `None` when the
/// tokens there do not name anything. See [`spec_word_name`] for the rule.
pub fn extract_word_name(tokens: &Vec<Token>, index: usize) -> (r: Option<String>)
    ensures
        r is Some <==> spec_word_name(tokens@, index as int) is Some,
        r matches Some(name) ==> name@ == spec_word_name(tokens@, index as int).unwrap().0,
{
    match extract_word_name_with_range(tokens, index) {
        Some((name, _, _)) => Some(name),
        None => None,
    }
}

/// Extract a word name together with its span from the token sequence at
/// `index`. See [`spec_word_name`] for the rule.
pub fn extract_word_name_with_range(tokens: &Vec<Token>, index: usize) -> (r: Option<
    (String, usize, usize),
>)
    ensures
        r is Some <==> spec_word_name(tokens@, index as int) is Some,
        r matches Some(nr) ==> {
            &&& nr.0@ == spec_word_name(tokens@, index as int).unwrap().0
            &&& nr.1 as int == spec_word_name(tokens@, index as int).unwrap().1
            &&& nr.2 as int == spec_word_name(tokens@, index as int).unwrap().2
        },
{
    if index >= tokens.len() {
        return None;
    }
    let t = &tokens[index];
    if t.kind() == TokenKind::Number && index + 1 < tokens.len() {
        let next = &tokens[index + 1];
        if next.kind() == TokenKind::Word && t.get_data().end == next.get_data().start {
            let name = concat_strs(t.get_data().value, next.get_data().value);
            return Some((name, t.get_data().start, next.get_data().end));
        }
    }
    let data = t.get_data();
    if t.kind() == TokenKind::Word || t.kind() == TokenKind::Number {
        let name = String::from_str(data.value);
        Some((name, data.start, data.end))
    } else {
        None
    }
}

} // verus!
