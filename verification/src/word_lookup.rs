//! Unified word lookup: user definitions first, then the built-in words,
//! case-insensitively.

use vstd::prelude::*;
use vstd::string::StrSliceExecFns;
use crate::definition_index::{spec_find, DefinitionIndex};
use crate::strings::{lower_str, spec_lower, str_eq};
use crate::words::{Word, Words};

verus! {

/// What a lookup found.
#[derive(Debug, Clone)]
pub enum WordInfo<'a> {
    /// The word is defined by the user, in `definition_count` places.
    UserDefined { name: String, definition_count: usize },
    /// The word is a built-in.
    Builtin(Word<'a>),
    /// The word is not known.
    NotFound,
}

/// The first built-in whose name equals `key` up to ASCII case, scanning from
/// position `i`.
pub open spec fn spec_find_builtin(ws: Seq<Word>, key: Seq<char>, i: int) -> Option<Word>
    decreases ws.len() - i,
{
    if !(0 <= i < ws.len()) {
        None
    } else if spec_lower(ws[i].token@) == key {
        Some(ws[i])
    } else {
        spec_find_builtin(ws, key, i + 1)
    }
}

/// Find a built-in word by name, case-insensitively; the empty word finds
/// nothing.
pub fn find_builtin_word<'a>(word: &str, builtin_words: &Words<'a>) -> (r: Option<Word<'a>>)
    ensures
        word@.len() == 0 ==> r is None,
        word@.len() != 0 ==> r == spec_find_builtin(
            builtin_words.words@,
            spec_lower(word@),
            0,
        ),
{
    if word.unicode_len() == 0 {
        return None;
    }
    let key = lower_str(word);
    let n = builtin_words.words.len();
    let mut i: usize = 0;
    while i < n
        invariant
            n == builtin_words.words@.len(),
            i <= n,
            word@.len() != 0,
            key@ == spec_lower(word@),
            spec_find_builtin(builtin_words.words@, key@, 0) == spec_find_builtin(
                builtin_words.words@,
                key@,
                i as int,
            ),
        decreases n - i,
    {
        let w = builtin_words.words[i];
        let lowered = lower_str(w.token);
        if str_eq(lowered.as_str(), key.as_str()) {
            proof {
                assert(spec_lower(builtin_words.words@[i as int].token@) == key@);
                assert(spec_find_builtin(builtin_words.words@, key@, i as int) == Some(
                    builtin_words.words@[i as int],
                ));
            }
            return Some(w);
        }
        proof {
            assert(spec_lower(builtin_words.words@[i as int].token@) != key@);
        }
        i = i + 1;
    }
    proof {
        assert(spec_find_builtin(builtin_words.words@, key@, n as int) is None);
    }
    None
}

/// Look up a word: user definitions take precedence over built-ins, and both
/// lookups are case-insensitive. The empty word is not found.
pub fn lookup_word<'a>(
    word: &str,
    builtin_words: &Words<'a>,
    def_index: Option<&DefinitionIndex>,
) -> (r: WordInfo<'a>)
    ensures
        word@.len() == 0 ==> r is NotFound,
        word@.len() != 0 && (def_index matches Some(ix) && spec_find(
            ix.defs(),
            spec_lower(word@),
        ).len() != 0) ==> (r matches WordInfo::UserDefined { name, definition_count } && name@
            == word@ && definition_count == spec_find(
            def_index.unwrap().defs(),
            spec_lower(word@),
        ).len()),
        word@.len() != 0 && !(def_index matches Some(ix) && spec_find(
            ix.defs(),
            spec_lower(word@),
        ).len() != 0) ==> {
            let found = spec_find_builtin(builtin_words.words@, spec_lower(word@), 0);
            &&& (found is Some ==> r == WordInfo::Builtin(found.unwrap()))
            &&& (found is None ==> r is NotFound)
        },
{
    if word.unicode_len() == 0 {
        return WordInfo::NotFound;
    }
    match def_index {
        Some(index) => {
            let defs = index.find_definitions(word);
            if defs.len() != 0 {
                return WordInfo::UserDefined {
                    name: String::from_str(word),
                    definition_count: defs.len(),
                };
            }
        },
        None => {},
    }
    match find_builtin_word(word, builtin_words) {
        Some(w) => WordInfo::Builtin(w),
        None => WordInfo::NotFound,
    }
}

/// Whether the word has at least one user definition (case-insensitive).
pub fn is_user_defined(word: &str, def_index: &DefinitionIndex) -> (r: bool)
    ensures
        r == (spec_find(def_index.defs(), spec_lower(word@)).len() != 0),
{
    let defs = def_index.find_definitions(word);
    proof {
        assert(crate::definition_index::locations_view(defs@).len() == defs@.len());
    }
    defs.len() != 0
}

} // verus!
