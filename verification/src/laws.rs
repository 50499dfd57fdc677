//! The laws the index obeys, stated and proved over the same models its
//! methods promise in their contracts.

use vstd::prelude::*;
use crate::definition_index::{
    find_tok_from, spec_colon_defs, spec_file_defs, spec_file_refs, spec_find, spec_keyword_defs,
    spec_refs_from, token_text, without_file, SpecEntry, SpecLoc,
};
use crate::scan::spec_tokens;
use crate::strings::{lemma_spec_lower_idempotent, spec_lower};
use crate::position::spec_range_of;
use crate::token::TokenKind;

verus! {

/// Queries equal up to ASCII case resolve identically: lookups fold the
/// query, so `find_definitions("DUP")`, `find_definitions("dup")` and
/// `find_definitions("Dup")` answer the same.
pub proof fn lemma_find_case_insensitive(es: Seq<SpecEntry>, q1: Seq<char>, q2: Seq<char>)
    requires
        spec_lower(q1) == spec_lower(q2),
    ensures
        spec_find(es, spec_lower(q1)) == spec_find(es, spec_lower(q2)),
{
}

/// Every entry a file's source contributes carries that file.
pub proof fn lemma_file_defs_have_file(f: Seq<char>, src: Seq<char>)
    ensures
        forall|k: int|
            0 <= k < spec_file_defs(f, src).len() ==> (#[trigger] spec_file_defs(f, src)[k]).file
                == f,
        forall|k: int|
            0 <= k < spec_file_refs(f, src).len() ==> (#[trigger] spec_file_refs(f, src)[k]).file
                == f,
{
    let ms = spec_tokens(src);
    lemma_colon_defs_files(f, src, ms, 0);
    lemma_keyword_defs_files(f, src, ms, 0);
    lemma_refs_files(f, src, ms, 0);
}

proof fn lemma_colon_defs_files(f: Seq<char>, src: Seq<char>, ms: Seq<crate::token::SpecToken>, i: int)
    ensures
        forall|k: int|
            0 <= k < spec_colon_defs(f, src, ms, i).len() ==> (#[trigger] spec_colon_defs(
                f,
                src,
                ms,
                i,
            )[k]).file == f,
    decreases ms.len() - i,
{
    if 0 <= i < ms.len() {
        lemma_colon_defs_files(f, src, ms, i + 1);
        let cur = spec_colon_defs(f, src, ms, i);
        let rest = spec_colon_defs(f, src, ms, i + 1);
        assert forall|k: int| 0 <= k < cur.len() implies (#[trigger] cur[k]).file == f by {
            if cur.len() == rest.len() + 1 {
                if k > 0 {
                    assert(cur[k] == rest[k - 1]);
                }
            } else {
                assert(cur[k] == rest[k]);
            }
        }
    }
}

proof fn lemma_keyword_defs_files(f: Seq<char>, src: Seq<char>, ms: Seq<crate::token::SpecToken>, i: int)
    ensures
        forall|k: int|
            0 <= k < spec_keyword_defs(f, src, ms, i).len() ==> (#[trigger] spec_keyword_defs(
                f,
                src,
                ms,
                i,
            )[k]).file == f,
    decreases ms.len() - i,
{
    if 0 <= i && i + 1 < ms.len() {
        lemma_keyword_defs_files(f, src, ms, i + 1);
        let cur = spec_keyword_defs(f, src, ms, i);
        let rest = spec_keyword_defs(f, src, ms, i + 1);
        assert forall|k: int| 0 <= k < cur.len() implies (#[trigger] cur[k]).file == f by {
            if cur.len() == rest.len() + 1 {
                if k > 0 {
                    assert(cur[k] == rest[k - 1]);
                }
            } else {
                assert(cur[k] == rest[k]);
            }
        }
    }
}

proof fn lemma_refs_files(f: Seq<char>, src: Seq<char>, ms: Seq<crate::token::SpecToken>, i: int)
    ensures
        forall|k: int|
            0 <= k < spec_file_refs(f, src).len() ==> (#[trigger] spec_file_refs(f, src)[k]).file
                == f,
    decreases ms.len() - i,
{
    lemma_refs_from_files(
        f,
        src,
        spec_tokens(src),
        crate::definition_index::spec_def_sites(src, spec_tokens(src)),
        0,
    );
}

proof fn lemma_refs_from_files(
    f: Seq<char>,
    src: Seq<char>,
    ms: Seq<crate::token::SpecToken>,
    sites: Set<int>,
    i: int,
)
    ensures
        forall|k: int|
            0 <= k < spec_refs_from(f, src, ms, sites, i).len() ==> (#[trigger] spec_refs_from(
                f,
                src,
                ms,
                sites,
                i,
            )[k]).file == f,
    decreases ms.len() - i,
{
    if 0 <= i < ms.len() {
        lemma_refs_from_files(f, src, ms, sites, i + 1);
        let cur = spec_refs_from(f, src, ms, sites, i);
        let rest = spec_refs_from(f, src, ms, sites, i + 1);
        assert forall|k: int| 0 <= k < cur.len() implies (#[trigger] cur[k]).file == f by {
            if cur.len() == rest.len() + 1 {
                if k > 0 {
                    assert(cur[k] == rest[k - 1]);
                }
            } else {
                assert(cur[k] == rest[k]);
            }
        }
    }
}

/// Removing a file distributes over concatenation of entry lists.
pub proof fn lemma_without_file_append(a: Seq<SpecEntry>, b: Seq<SpecEntry>, f: Seq<char>)
    ensures
        without_file(a + b, f) == without_file(a, f) + without_file(b, f),
    decreases b.len(),
{
    if b.len() == 0 {
        assert(a + b =~= a);
        assert(without_file(a, f) + without_file(b, f) =~= without_file(a, f));
    } else {
        lemma_without_file_append(a, b.drop_last(), f);
        assert((a + b).drop_last() =~= a + b.drop_last());
        assert((a + b).last() == b.last());
        if b.last().file == f {
            assert(without_file(a + b, f) =~= without_file(a, f) + without_file(b, f));
        } else {
            assert(without_file(a + b, f) =~= without_file(a, f) + without_file(b, f));
        }
    }
}

/// Removing a file twice removes it once.
pub proof fn lemma_without_file_idempotent(es: Seq<SpecEntry>, f: Seq<char>)
    ensures
        without_file(without_file(es, f), f) == without_file(es, f),
    decreases es.len(),
{
    if es.len() > 0 {
        lemma_without_file_idempotent(es.drop_last(), f);
        if es.last().file == f {
            assert(without_file(es, f) =~= without_file(es.drop_last(), f));
        } else {
            assert(without_file(es, f).drop_last() =~= without_file(es.drop_last(), f));
            assert(without_file(without_file(es, f), f) =~= without_file(es, f));
        }
    }
}

/// Removing a file from entries that all carry that file leaves nothing.
pub proof fn lemma_without_file_all_of_file(es: Seq<SpecEntry>, f: Seq<char>)
    requires
        forall|k: int| 0 <= k < es.len() ==> (#[trigger] es[k]).file == f,
    ensures
        without_file(es, f) == Seq::<SpecEntry>::empty(),
    decreases es.len(),
{
    if es.len() > 0 {
        lemma_without_file_all_of_file(es.drop_last(), f);
        assert(without_file(es, f) =~= Seq::<SpecEntry>::empty());
    } else {
        assert(without_file(es, f) =~= Seq::<SpecEntry>::empty());
    }
}

/// Updating a file twice in a row with identical content yields the same
/// mapping as updating it once: each update first discards the file's whole
/// prior contribution, and all the entries it inserts carry that file.
pub proof fn lemma_update_file_idempotent(es: Seq<SpecEntry>, c: Seq<SpecEntry>, f: Seq<char>)
    requires
        forall|k: int| 0 <= k < c.len() ==> (#[trigger] c[k]).file == f,
    ensures
        without_file(without_file(es, f) + c, f) + c == without_file(es, f) + c,
{
    lemma_without_file_append(without_file(es, f), c, f);
    lemma_without_file_idempotent(es, f);
    lemma_without_file_all_of_file(c, f);
    assert(without_file(without_file(es, f) + c, f) =~= without_file(es, f));
}

/// The entries of `es` contributed by file `g`, in order.
pub open spec fn only_file(es: Seq<SpecEntry>, g: Seq<char>) -> Seq<SpecEntry>
    decreases es.len(),
{
    if es.len() == 0 {
        Seq::empty()
    } else {
        only_file(es.drop_last(), g) + if es.last().file == g {
            seq![es.last()]
        } else {
            Seq::empty()
        }
    }
}

/// After removing file `f`, nothing of `f` remains, while the entries of
/// every other file are exactly what they were, in their order.
pub proof fn lemma_remove_file_exact(es: Seq<SpecEntry>, f: Seq<char>, g: Seq<char>)
    ensures
        only_file(without_file(es, f), f) == Seq::<SpecEntry>::empty(),
        g != f ==> only_file(without_file(es, f), g) == only_file(es, g),
    decreases es.len(),
{
    if es.len() == 0 {
        assert(only_file(without_file(es, f), f) =~= Seq::<SpecEntry>::empty());
        assert(only_file(without_file(es, f), g) =~= only_file(es, g));
    } else {
        lemma_remove_file_exact(es.drop_last(), f, g);
        if es.last().file == f {
            assert(without_file(es, f) =~= without_file(es.drop_last(), f));
        } else {
            assert(without_file(es, f).drop_last() =~= without_file(es.drop_last(), f));
            assert(without_file(es, f).last() == es.last());
            assert(only_file(without_file(es, f), f) =~= Seq::<SpecEntry>::empty());
            if g != f {
                assert(only_file(without_file(es, f), g) =~= only_file(es, g));
            }
        }
    }
}

/// Lookups distribute over concatenation of entry lists: what two files
/// contribute is found together, duplicates retained, never merged.
pub proof fn lemma_find_append(a: Seq<SpecEntry>, b: Seq<SpecEntry>, key: Seq<char>)
    ensures
        spec_find(a + b, key) == spec_find(a, key) + spec_find(b, key),
    decreases b.len(),
{
    if b.len() == 0 {
        assert(a + b =~= a);
        assert(spec_find(a, key) + spec_find(b, key) =~= spec_find(a, key));
    } else {
        lemma_find_append(a, b.drop_last(), key);
        assert((a + b).drop_last() =~= a + b.drop_last());
        assert((a + b).last() == b.last());
        assert(spec_find(a + b, key) =~= spec_find(a, key) + spec_find(b, key));
    }
}

/// Removing one file leaves another file's entries untouched.
pub proof fn lemma_without_other_file(es: Seq<SpecEntry>, f: Seq<char>, g: Seq<char>)
    requires
        f != g,
        forall|k: int| 0 <= k < es.len() ==> (#[trigger] es[k]).file == f,
    ensures
        without_file(es, g) == es,
    decreases es.len(),
{
    if es.len() > 0 {
        lemma_without_other_file(es.drop_last(), f, g);
        assert(without_file(es, g) =~= es);
    } else {
        assert(without_file(es, g) =~= es);
    }
}

/// Two distinct files' contributions are both found: updating an empty index
/// with one file and then another answers every lookup with what the first
/// file contributes followed by what the second contributes — cross-file
/// duplicates are retained, never merged.
pub proof fn lemma_cross_file_duplicates_retained(
    f1: Seq<char>,
    src1: Seq<char>,
    f2: Seq<char>,
    src2: Seq<char>,
    query: Seq<char>,
)
    requires
        f1 != f2,
    ensures
        spec_find(
            without_file(spec_file_defs(f1, src1), f2) + spec_file_defs(f2, src2),
            spec_lower(query),
        ) == spec_find(spec_file_defs(f1, src1), spec_lower(query)) + spec_find(
            spec_file_defs(f2, src2),
            spec_lower(query),
        ),
{
    lemma_file_defs_have_file(f1, src1);
    lemma_without_other_file(spec_file_defs(f1, src1), f1, f2);
    lemma_find_append(spec_file_defs(f1, src1), spec_file_defs(f2, src2), spec_lower(query));
}

/// An entry whose name is the key is found: its location stands in the
/// lookup's answer.
pub proof fn lemma_find_contains(es: Seq<SpecEntry>, key: Seq<char>, k: int)
    requires
        0 <= k < es.len(),
        es[k].name == key,
    ensures
        spec_find(es, key).contains(SpecLoc { file: es[k].file, range: es[k].range }),
    decreases es.len(),
{
    if k == es.len() - 1 {
        let loc = SpecLoc { file: es[k].file, range: es[k].range };
        assert(spec_find(es, key).last() == loc);
    } else {
        lemma_find_contains(es.drop_last(), key, k);
        let loc = SpecLoc { file: es[k].file, range: es[k].range };
        let q = choose|q: int|
            0 <= q < spec_find(es.drop_last(), key).len() && spec_find(es.drop_last(), key)[q]
                == loc;
        assert(spec_find(es, key)[q] == loc);
    }
}

/// Every entry a colon-definition list holds from position `i` on also stands
/// in the list from position 0.
pub proof fn lemma_colon_defs_contains(
    f: Seq<char>,
    src: Seq<char>,
    ms: Seq<crate::token::SpecToken>,
    i: int,
    e: SpecEntry,
)
    requires
        0 <= i,
        spec_colon_defs(f, src, ms, i).contains(e),
    ensures
        spec_colon_defs(f, src, ms, 0).contains(e),
    decreases i,
{
    if i > 0 {
        assert(spec_colon_defs(f, src, ms, i - 1).contains(e)) by {
            let k = choose|k: int|
                0 <= k < spec_colon_defs(f, src, ms, i).len() && spec_colon_defs(f, src, ms, i)[k]
                    == e;
            let prev = spec_colon_defs(f, src, ms, i - 1);
            let cur = spec_colon_defs(f, src, ms, i);
            assert(prev =~= prev.subrange(0, prev.len() - cur.len()) + cur);
            assert(prev[prev.len() - cur.len() + k] == e);
        }
        lemma_colon_defs_contains(f, src, ms, i - 1, e);
    }
}

/// A well-formed colon definition `: NAME ... ;` whose name is a single word
/// contributes exactly one definition entry: its key is the lowercased name,
/// its range spans exactly the name token, and a lookup under any casing of
/// the name returns its location.
pub proof fn lemma_colon_definition_indexed(
    stored: Seq<SpecEntry>,
    file: Seq<char>,
    src: Seq<char>,
    i: int,
    query: Seq<char>,
)
    requires
        0 <= i,
        i + 1 < spec_tokens(src).len(),
        spec_tokens(src)[i].kind == TokenKind::Colon,
        spec_tokens(src)[i + 1].kind == TokenKind::Word,
        find_tok_from(spec_tokens(src), TokenKind::Semicolon, i + 1) < spec_tokens(src).len(),
        spec_lower(query) == spec_lower(token_text(src, spec_tokens(src)[i + 1])),
    ensures
        // this definition contributes exactly one entry, spanning exactly the name
        spec_colon_defs(file, src, spec_tokens(src), i) == seq![
            SpecEntry {
                name: spec_lower(token_text(src, spec_tokens(src)[i + 1])),
                file: file,
                range: spec_range_of(
                    src,
                    spec_tokens(src)[i + 1].start,
                    spec_tokens(src)[i + 1].end,
                ),
            },
        ] + spec_colon_defs(file, src, spec_tokens(src), i + 1),
        // and any casing of the name retrieves it after the update
        spec_find(
            without_file(stored, file) + spec_file_defs(file, src),
            spec_lower(query),
        ).contains(
            SpecLoc {
                file: file,
                range: spec_range_of(
                    src,
                    spec_tokens(src)[i + 1].start,
                    spec_tokens(src)[i + 1].end,
                ),
            },
        ),
{
    let ms = spec_tokens(src);
    let name = token_text(src, ms[i + 1]);
    let entry = SpecEntry {
        name: spec_lower(name),
        file: file,
        range: spec_range_of(src, ms[i + 1].start, ms[i + 1].end),
    };
    // the name tokens right after the colon resolve to the single word
    assert(crate::definition_index::spec_name_at(src, ms, i + 1) == Some(
        (name, ms[i + 1].start, ms[i + 1].end),
    ));
    assert(spec_colon_defs(file, src, ms, i) == seq![entry] + spec_colon_defs(
        file,
        src,
        ms,
        i + 1,
    ));
    // the entry stands among the file's definitions
    assert(spec_colon_defs(file, src, ms, i).contains(entry)) by {
        assert(spec_colon_defs(file, src, ms, i)[0] == entry);
    }
    lemma_colon_defs_contains(file, src, ms, i, entry);
    let defs0 = spec_colon_defs(file, src, ms, 0);
    let k = choose|k: int| 0 <= k < defs0.len() && defs0[k] == entry;
    assert(spec_file_defs(file, src)[k] == entry);
    // the lookup key of any casing of the name is the stored key
    lemma_spec_lower_idempotent(name);
    // and the lookup finds the entry in the updated state
    let state = without_file(stored, file) + spec_file_defs(file, src);
    assert(state[without_file(stored, file).len() + k] == entry);
    lemma_find_contains(state, spec_lower(query), without_file(stored, file).len() + k);
}

/// A colon definition whose name tokens are a number immediately adjacent
/// (zero gap) to a word — a name beginning with digits — contributes a single
/// combined definition entry, not two separate ones: its key is the
/// lowercased concatenation of the two texts and its range spans both tokens.
pub proof fn lemma_combined_name_single_entry(
    file: Seq<char>,
    src: Seq<char>,
    i: int,
)
    requires
        0 <= i,
        i + 2 < spec_tokens(src).len(),
        spec_tokens(src)[i].kind == TokenKind::Colon,
        spec_tokens(src)[i + 1].kind == TokenKind::Number,
        spec_tokens(src)[i + 2].kind == TokenKind::Word,
        spec_tokens(src)[i + 1].end == spec_tokens(src)[i + 2].start,
        find_tok_from(spec_tokens(src), TokenKind::Semicolon, i + 1) < spec_tokens(src).len(),
    ensures
        spec_colon_defs(file, src, spec_tokens(src), i) == seq![
            SpecEntry {
                name: spec_lower(
                    token_text(src, spec_tokens(src)[i + 1]) + token_text(
                        src,
                        spec_tokens(src)[i + 2],
                    ),
                ),
                file: file,
                range: spec_range_of(
                    src,
                    spec_tokens(src)[i + 1].start,
                    spec_tokens(src)[i + 2].end,
                ),
            },
        ] + spec_colon_defs(file, src, spec_tokens(src), i + 1),
{
    let ms = spec_tokens(src);
    assert(crate::definition_index::spec_name_at(src, ms, i + 1) == Some(
        (
            token_text(src, ms[i + 1]) + token_text(src, ms[i + 2]),
            ms[i + 1].start,
            ms[i + 2].end,
        ),
    ));
}

} // verus!
