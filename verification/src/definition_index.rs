//! The cross-file definition/reference index: per open file, the word
//! definitions and word references it contributes, answering lookups over all
//! tracked files, case-insensitively, with duplicates preserved.
//!
//! Both mappings are modelled as flat entry sequences; the entries
//! attributable to a file are exactly those produced by the most recent
//! `update_file` call for it.

use vstd::prelude::*;
use vstd::string::StrSliceExecFns;
use crate::parser::{tokens_correspond, Lexer};
use crate::position::{data_range_from_to, spec_range_of, Range, ToPosition};
use crate::scan::{lemma_scan_spans, spec_tokens};
use crate::strings::{lower_str, spec_lower, str_eq};
use crate::token::{token_matches, Data, SpecToken, Token, TokenKind};
use crate::token_utils::{extract_word_name_with_range, spec_word_name};

verus! {

/// One stored entry: a (lowercased) name, the file that contributed it, and
/// the editor-visible range of the occurrence.
pub ghost struct SpecEntry {
    pub name: Seq<char>,
    pub file: Seq<char>,
    pub range: Range,
}

/// A lookup answer: a file and a range within it.
pub ghost struct SpecLoc {
    pub file: Seq<char>,
    pub range: Range,
}

/// An entry of one of the two mappings.
#[derive(Debug, Clone)]
pub struct Entry {
    /// The word's name, lowercased for case-insensitive lookup.
    pub name: String,
    /// The file that contributed the entry.
    pub file: String,
    /// The range of the occurrence within that file.
    pub range: Range,
}

impl View for Entry {
    type V = SpecEntry;

    open spec fn view(&self) -> SpecEntry {
        SpecEntry { name: self.name@, file: self.file@, range: self.range }
    }
}

/// A definition or reference site handed back by a query.
#[derive(Debug, Clone)]
pub struct Location {
    /// The file holding the occurrence.
    pub file: String,
    /// The range of the occurrence within that file.
    pub range: Range,
}

impl View for Location {
    type V = SpecLoc;

    open spec fn view(&self) -> SpecLoc {
        SpecLoc { file: self.file@, range: self.range }
    }
}

pub open spec fn entries_view(es: Seq<Entry>) -> Seq<SpecEntry> {
    es.map_values(|e: Entry| e@)
}

pub open spec fn locations_view(ls: Seq<Location>) -> Seq<SpecLoc> {
    ls.map_values(|l: Location| l@)
}

pub open spec fn strings_view(ss: Seq<String>) -> Seq<Seq<char>> {
    ss.map_values(|s: String| s@)
}

/// The entries that survive removing a file's contribution.
pub open spec fn without_file(es: Seq<SpecEntry>, f: Seq<char>) -> Seq<SpecEntry>
    decreases es.len(),
{
    if es.len() == 0 {
        Seq::empty()
    } else {
        without_file(es.drop_last(), f) + if es.last().file == f {
            Seq::empty()
        } else {
            seq![es.last()]
        }
    }
}

/// The locations of every entry whose (lowercased) name is `key`, in stored
/// order.
pub open spec fn spec_find(es: Seq<SpecEntry>, key: Seq<char>) -> Seq<SpecLoc>
    decreases es.len(),
{
    if es.len() == 0 {
        Seq::empty()
    } else {
        spec_find(es.drop_last(), key) + if es.last().name == key {
            seq![SpecLoc { file: es.last().file, range: es.last().range }]
        } else {
            Seq::empty()
        }
    }
}

/// The distinct names among the entries, in order of first occurrence.
pub open spec fn spec_distinct_names(es: Seq<SpecEntry>) -> Seq<Seq<char>>
    decreases es.len(),
{
    if es.len() == 0 {
        Seq::empty()
    } else {
        let prev = spec_distinct_names(es.drop_last());
        if prev.contains(es.last().name) {
            prev
        } else {
            prev.push(es.last().name)
        }
    }
}

/// The text of a model token: the source restricted to its span.
pub open spec fn token_text(src: Seq<char>, m: SpecToken) -> Seq<char> {
    src.subrange(m.start, m.end)
}

/// The first index at or after `i` holding a token of kind `k`, or the length
/// of the sequence when there is none.
pub open spec fn find_tok_from(ms: Seq<SpecToken>, k: TokenKind, i: int) -> int
    decreases ms.len() - i,
{
    if !(0 <= i < ms.len()) {
        ms.len() as int
    } else if ms[i].kind == k {
        i
    } else {
        find_tok_from(ms, k, i + 1)
    }
}

pub proof fn lemma_find_tok_from(ms: Seq<SpecToken>, k: TokenKind, i: int)
    requires
        0 <= i <= ms.len(),
    ensures
        i <= find_tok_from(ms, k, i) <= ms.len(),
        find_tok_from(ms, k, i) < ms.len() ==> ms[find_tok_from(ms, k, i)].kind == k,
        forall|j: int| i <= j < find_tok_from(ms, k, i) ==> (#[trigger] ms[j]).kind != k,
    decreases ms.len() - i,
{
    if 0 <= i < ms.len() && ms[i].kind != k {
        lemma_find_tok_from(ms, k, i + 1);
    }
}

/// The name (and its span) resolved from the model tokens at `index`, as
/// [`crate::token_utils::spec_word_name`] resolves it from scanned tokens: a
/// `Number` immediately adjacent to a following `Word` combines into one
/// name; a lone `Word` or `Number` is its own name; anything else names
/// nothing.
pub open spec fn spec_name_at(src: Seq<char>, ms: Seq<SpecToken>, index: int) -> Option<
    (Seq<char>, int, int),
> {
    if !(0 <= index < ms.len()) {
        None
    } else {
        let t = ms[index];
        if t.kind == TokenKind::Number && index + 1 < ms.len() && ms[index + 1].kind
            == TokenKind::Word && t.end == ms[index + 1].start {
            Some((token_text(src, t) + token_text(src, ms[index + 1]), t.start, ms[index + 1].end))
        } else if t.kind == TokenKind::Word {
            Some((token_text(src, t), t.start, t.end))
        } else if t.kind == TokenKind::Number {
            Some((token_text(src, t), t.start, t.end))
        } else {
            None
        }
    }
}

/// Whether `s` is one of the defining keywords, up to ASCII case: a word that
/// declares the word following it (variable/constant/create/value and their
/// double-cell, floating, deferred and buffer-allocating variants).
pub open spec fn spec_is_defining_keyword(s: Seq<char>) -> bool {
    ||| spec_lower(s) == "variable"@
    ||| spec_lower(s) == "constant"@
    ||| spec_lower(s) == "create"@
    ||| spec_lower(s) == "value"@
    ||| spec_lower(s) == "2variable"@
    ||| spec_lower(s) == "2constant"@
    ||| spec_lower(s) == "2value"@
    ||| spec_lower(s) == "fvariable"@
    ||| spec_lower(s) == "fconstant"@
    ||| spec_lower(s) == "defer"@
    ||| spec_lower(s) == "buffer:"@
}

/// Whether `word` is a defining keyword (case-insensitive).
pub fn is_defining_keyword(word: &str) -> (r: bool)
    ensures
        r == spec_is_defining_keyword(word@),
{
    let w = lower_str(word);
    let ws = w.as_str();
    str_eq(ws, "variable") || str_eq(ws, "constant") || str_eq(ws, "create") || str_eq(ws, "value")
        || str_eq(ws, "2variable") || str_eq(ws, "2constant") || str_eq(ws, "2value") || str_eq(
        ws,
        "fvariable",
    ) || str_eq(ws, "fconstant") || str_eq(ws, "defer") || str_eq(ws, "buffer:")
}

/// The definition entry a colon definition contributes: for each `Colon`
/// token with a following `Semicolon`, the name resolved from the tokens
/// right after the colon, lowercased, with the range of the name alone.
pub open spec fn spec_colon_defs(
    file: Seq<char>,
    src: Seq<char>,
    ms: Seq<SpecToken>,
    i: int,
) -> Seq<SpecEntry>
    decreases ms.len() - i,
{
    if !(0 <= i < ms.len()) {
        Seq::empty()
    } else {
        let rest = spec_colon_defs(file, src, ms, i + 1);
        if ms[i].kind == TokenKind::Colon && find_tok_from(ms, TokenKind::Semicolon, i + 1)
            < ms.len() {
            match spec_name_at(src, ms, i + 1) {
                Some(parts) => seq![
                    SpecEntry {
                        name: spec_lower(parts.0),
                        file: file,
                        range: spec_range_of(src, parts.1, parts.2),
                    },
                ] + rest,
                None => rest,
            }
        } else {
            rest
        }
    }
}

/// The start offsets a colon definition marks as definition sites, excluded
/// from the reference pass: the name token's start, or both starts of a
/// combined digit+word name.
pub open spec fn colon_window_sites(ms: Seq<SpecToken>, i: int, j: int) -> Set<int> {
    let t1 = ms[i + 1];
    if t1.kind == TokenKind::Number {
        if i + 2 <= j && ms[i + 2].kind == TokenKind::Word {
            if t1.end == ms[i + 2].start {
                set![t1.start, ms[i + 2].start]
            } else {
                Set::empty()
            }
        } else {
            set![t1.start]
        }
    } else if t1.kind == TokenKind::Word {
        set![t1.start]
    } else {
        Set::empty()
    }
}

/// All definition sites colon definitions mark.
pub open spec fn spec_colon_sites(ms: Seq<SpecToken>, i: int) -> Set<int>
    decreases ms.len() - i,
{
    if !(0 <= i < ms.len()) {
        Set::empty()
    } else {
        let rest = spec_colon_sites(ms, i + 1);
        if ms[i].kind == TokenKind::Colon {
            let j = find_tok_from(ms, TokenKind::Semicolon, i + 1);
            if j < ms.len() {
                colon_window_sites(ms, i, j).union(rest)
            } else {
                rest
            }
        } else {
            rest
        }
    }
}

/// Whether the model tokens at `i`, `i + 1` form a defining-keyword
/// declaration: a `Word` matching a defining keyword, followed by the `Word`
/// being declared.
pub open spec fn keyword_decl_at(src: Seq<char>, ms: Seq<SpecToken>, i: int) -> bool {
    &&& 0 <= i
    &&& i + 1 < ms.len()
    &&& ms[i].kind == TokenKind::Word
    &&& spec_is_defining_keyword(token_text(src, ms[i]))
    &&& ms[i + 1].kind == TokenKind::Word
}

/// The definition entries defining-keyword declarations contribute: the
/// declared word, lowercased, with its own range (the keyword excluded).
pub open spec fn spec_keyword_defs(
    file: Seq<char>,
    src: Seq<char>,
    ms: Seq<SpecToken>,
    i: int,
) -> Seq<SpecEntry>
    decreases ms.len() - i,
{
    if !(0 <= i && i + 1 < ms.len()) {
        Seq::empty()
    } else {
        let rest = spec_keyword_defs(file, src, ms, i + 1);
        if keyword_decl_at(src, ms, i) {
            seq![
                SpecEntry {
                    name: spec_lower(token_text(src, ms[i + 1])),
                    file: file,
                    range: spec_range_of(src, ms[i + 1].start, ms[i + 1].end),
                },
            ] + rest
        } else {
            rest
        }
    }
}

/// All definition sites defining-keyword declarations mark.
pub open spec fn spec_keyword_sites(src: Seq<char>, ms: Seq<SpecToken>, i: int) -> Set<int>
    decreases ms.len() - i,
{
    if !(0 <= i && i + 1 < ms.len()) {
        Set::empty()
    } else {
        let rest = spec_keyword_sites(src, ms, i + 1);
        if keyword_decl_at(src, ms, i) {
            rest.insert(ms[i + 1].start)
        } else {
            rest
        }
    }
}

/// Every start offset marked as a definition site in the file.
pub open spec fn spec_def_sites(src: Seq<char>, ms: Seq<SpecToken>) -> Set<int> {
    spec_colon_sites(ms, 0).union(spec_keyword_sites(src, ms, 0))
}

/// The reference entries of the file: every `Word` token that is not itself a
/// definition site, keyed by its lowercased text.
pub open spec fn spec_refs_from(
    file: Seq<char>,
    src: Seq<char>,
    ms: Seq<SpecToken>,
    sites: Set<int>,
    i: int,
) -> Seq<SpecEntry>
    decreases ms.len() - i,
{
    if !(0 <= i < ms.len()) {
        Seq::empty()
    } else {
        let rest = spec_refs_from(file, src, ms, sites, i + 1);
        if ms[i].kind == TokenKind::Word && !sites.contains(ms[i].start) {
            seq![
                SpecEntry {
                    name: spec_lower(token_text(src, ms[i])),
                    file: file,
                    range: spec_range_of(src, ms[i].start, ms[i].end),
                },
            ] + rest
        } else {
            rest
        }
    }
}

/// The definition entries a file's source contributes: its colon definitions
/// followed by its defining-keyword declarations.
pub open spec fn spec_file_defs(file: Seq<char>, src: Seq<char>) -> Seq<SpecEntry> {
    let ms = spec_tokens(src);
    spec_colon_defs(file, src, ms, 0) + spec_keyword_defs(file, src, ms, 0)
}

/// The reference entries a file's source contributes.
pub open spec fn spec_file_refs(file: Seq<char>, src: Seq<char>) -> Seq<SpecEntry> {
    let ms = spec_tokens(src);
    spec_refs_from(file, src, ms, spec_def_sites(src, ms), 0)
}

/// The offsets held in a vector of marked sites.
pub open spec fn sites_set(sv: Seq<usize>) -> Set<int> {
    Set::new(|p: int| exists|k: int| 0 <= k < sv.len() && sv[k] as int == p)
}

proof fn lemma_sites_push(sv: Seq<usize>, x: usize)
    ensures
        sites_set(sv.push(x)) == sites_set(sv).insert(x as int),
{
    assert(sites_set(sv.push(x)) =~= sites_set(sv).insert(x as int)) by {
        assert forall|p: int| sites_set(sv.push(x)).contains(p) implies sites_set(sv).insert(
            x as int,
        ).contains(p) by {
            let k = choose|k: int| 0 <= k < sv.push(x).len() && sv.push(x)[k] as int == p;
            if k < sv.len() {
                assert(sv[k] as int == p);
            }
        }
        assert forall|p: int| sites_set(sv).insert(x as int).contains(p) implies sites_set(
            sv.push(x),
        ).contains(p) by {
            if p == x as int {
                assert(sv.push(x)[sv.len() as int] as int == p);
            } else {
                let k = choose|k: int| 0 <= k < sv.len() && sv[k] as int == p;
                assert(sv.push(x)[k] as int == p);
            }
        }
    }
}

/// Whether `x` is among the marked sites.
fn contains_usize(v: &Vec<usize>, x: usize) -> (r: bool)
    ensures
        r == sites_set(v@).contains(x as int),
{
    let n = v.len();
    let mut i: usize = 0;
    while i < n
        invariant
            n == v@.len(),
            i <= n,
            forall|k: int| 0 <= k < i ==> v@[k] != x,
        decreases n - i,
    {
        if v[i] == x {
            proof {
                assert(v@[i as int] as int == x as int);
            }
            return true;
        }
        i = i + 1;
    }
    proof {
        if sites_set(v@).contains(x as int) {
            let k = choose|k: int| 0 <= k < v@.len() && v@[k] as int == x as int;
            assert(v@[k] == x);
            assert(false);
        }
    }
    false
}

/// Index of all word definitions and references across the tracked files.
/// Created empty, mutated synchronously by `update_file`/`remove_file`, and
/// queried case-insensitively.
#[derive(Debug)]
pub struct DefinitionIndex {
    /// All definition entries, in insertion order.
    pub definitions: Vec<Entry>,
    /// All reference entries, in insertion order.
    pub references: Vec<Entry>,
}

impl DefinitionIndex {
    /// The definition entries, as their mathematical view.
    pub open spec fn defs(&self) -> Seq<SpecEntry> {
        entries_view(self.definitions@)
    }

    /// The reference entries, as their mathematical view.
    pub open spec fn refs(&self) -> Seq<SpecEntry> {
        entries_view(self.references@)
    }

    /// An empty index: no file has contributed anything.
    pub fn new() -> (r: DefinitionIndex)
        ensures
            r.defs() == Seq::<SpecEntry>::empty(),
            r.refs() == Seq::<SpecEntry>::empty(),
    {
        let r = DefinitionIndex { definitions: Vec::new(), references: Vec::new() };
        proof {
            assert(r.defs() =~= Seq::<SpecEntry>::empty());
            assert(r.refs() =~= Seq::<SpecEntry>::empty());
        }
        r
    }

    /// Replace the file's whole contribution to both mappings: every prior
    /// entry attributed to `file_path` is discarded, the file's source is
    /// re-tokenised in its entirety, and its colon definitions,
    /// defining-keyword declarations and word references are inserted.
    /// Entries contributed by other files are untouched.
    pub fn update_file(&mut self, file_path: &str, source: &str)
        ensures
            final(self).defs() == without_file(old(self).defs(), file_path@) + spec_file_defs(
                file_path@,
                source@,
            ),
            final(self).refs() == without_file(old(self).refs(), file_path@) + spec_file_refs(
                file_path@,
                source@,
            ),
    {
        self.remove_file(file_path);
        let ghost base_defs = self.defs();
        let ghost base_refs = self.refs();
        let ghost s = source@;
        let ghost f = file_path@;
        let ghost ms = spec_tokens(s);

        let mut lexer = Lexer::new(source);
        let tokens = lexer.parse();
        let mut sites: Vec<usize> = Vec::new();

        let mut colon_defs = colon_pass(&tokens, source, file_path, &mut sites);
        let mut keyword_defs = keyword_pass(&tokens, source, file_path, &mut sites);
        proof {
            assert(sites_set(sites@) =~= spec_def_sites(s, ms));
        }
        let mut refs = refs_pass(&tokens, source, file_path, &sites);

        let ghost defs_before = self.definitions@;
        let ghost colon_part = colon_defs@;
        let ghost keyword_part = keyword_defs@;
        self.definitions.append(&mut colon_defs);
        self.definitions.append(&mut keyword_defs);
        let ghost refs_before = self.references@;
        let ghost refs_part = refs@;
        self.references.append(&mut refs);
        proof {
            assert(self.definitions@ == defs_before + colon_part + keyword_part);
            assert(entries_view(defs_before + colon_part + keyword_part) =~= entries_view(
                defs_before,
            ) + entries_view(colon_part) + entries_view(keyword_part));
            assert(self.defs() =~= base_defs + spec_file_defs(f, s));
            assert(entries_view(refs_before + refs_part) =~= entries_view(refs_before)
                + entries_view(refs_part));
            assert(self.refs() =~= base_refs + spec_file_refs(f, s));
        }
    }

    /// Remove every entry contributed by `file_path` from both mappings;
    /// entries from other files are untouched, in their order.
    pub fn remove_file(&mut self, file_path: &str)
        ensures
            final(self).defs() == without_file(old(self).defs(), file_path@),
            final(self).refs() == without_file(old(self).refs(), file_path@),
    {
        self.definitions = retain_other_files(&self.definitions, file_path);
        self.references = retain_other_files(&self.references, file_path);
    }

    /// All definition sites of `word`, in any casing, across all files.
    /// Unknown words give the empty answer, not a failure.
    pub fn find_definitions(&self, word: &str) -> (r: Vec<Location>)
        ensures
            locations_view(r@) == spec_find(self.defs(), spec_lower(word@)),
    {
        let key = lower_str(word);
        find_entries(&self.definitions, &key)
    }

    /// All reference (usage) sites of `word`, in any casing, across all
    /// files.
    pub fn find_references(&self, word: &str) -> (r: Vec<Location>)
        ensures
            locations_view(r@) == spec_find(self.refs(), spec_lower(word@)),
    {
        let key = lower_str(word);
        find_entries(&self.references, &key)
    }

    /// All references to `word`, the definition sites included when
    /// `include_declaration` holds (as the find-references editor command
    /// expects).
    pub fn find_all_references(&self, word: &str, include_declaration: bool) -> (r: Vec<Location>)
        ensures
            include_declaration ==> locations_view(r@) == spec_find(
                self.defs(),
                spec_lower(word@),
            ) + spec_find(self.refs(), spec_lower(word@)),
            !include_declaration ==> locations_view(r@) == spec_find(
                self.refs(),
                spec_lower(word@),
            ),
    {
        let mut refs = self.find_references(word);
        if include_declaration {
            let mut r = self.find_definitions(word);
            let ghost defs_part = r@;
            let ghost refs_part = refs@;
            r.append(&mut refs);
            proof {
                assert(r@ == defs_part + refs_part);
                assert(locations_view(defs_part + refs_part) =~= locations_view(defs_part)
                    + locations_view(refs_part));
            }
            r
        } else {
            refs
        }
    }

    /// Every distinct (lowercased) name that has at least one definition,
    /// across all files, in order of first occurrence.
    pub fn all_words(&self) -> (r: Vec<String>)
        ensures
            strings_view(r@) == spec_distinct_names(self.defs()),
    {
        let ghost es = self.defs();
        let mut r: Vec<String> = Vec::new();
        let n = self.definitions.len();
        let mut i: usize = 0;
        while i < n
            invariant
                n == self.definitions@.len(),
                i <= n,
                strings_view(r@) == spec_distinct_names(self.defs().take(i as int)),
            decreases n - i,
        {
            let name = &self.definitions[i].name;
            let mut seen = false;
            let m = r.len();
            let mut k: usize = 0;
            while k < m && !seen
                invariant
                    m == r@.len(),
                    k <= m,
                    seen ==> strings_view(r@).contains(name@),
                    !seen ==> forall|q: int| 0 <= q < k ==> strings_view(r@)[q] != name@,
                decreases m - k + if seen {
                    0int
                } else {
                    1int
                },
            {
                if str_eq(r[k].as_str(), name.as_str()) {
                    seen = true;
                    proof {
                        assert(strings_view(r@)[k as int] == name@);
                    }
                } else {
                    k = k + 1;
                }
            }
            proof {
                assert(self.defs().take(i + 1).drop_last() =~= self.defs().take(i as int));
                assert(self.defs().take(i + 1).last() == self.defs()[i as int]);
                assert(self.defs()[i as int].name == name@);
                if !seen {
                    assert(!strings_view(r@).contains(name@)) by {
                        if strings_view(r@).contains(name@) {
                            let q = choose|q: int|
                                0 <= q < strings_view(r@).len() && strings_view(r@)[q] == name@;
                            assert(false);
                        }
                    }
                }
            }
            if !seen {
                let owned = String::from_str(name.as_str());
                r.push(owned);
                proof {
                    assert(strings_view(r@) =~= strings_view(r@.drop_last()).push(name@));
                }
            }
            i = i + 1;
        }
        proof {
            assert(self.defs().take(n as int) =~= self.defs());
        }
        r
    }
}

/// Executable name extraction agrees with the model: over corresponding
/// tokens, [`spec_word_name`] and [`spec_name_at`] resolve the same name and
/// span.
proof fn lemma_name_bridge(ts: Seq<Token>, ms: Seq<SpecToken>, src: Seq<char>, index: int)
    requires
        tokens_correspond(ts, ms, src),
        0 <= index,
    ensures
        (spec_word_name(ts, index) is Some) == (spec_name_at(src, ms, index) is Some),
        spec_word_name(ts, index) is Some ==> {
            &&& spec_word_name(ts, index).unwrap().0 == spec_name_at(src, ms, index).unwrap().0
            &&& spec_word_name(ts, index).unwrap().1 == spec_name_at(src, ms, index).unwrap().1
            &&& spec_word_name(ts, index).unwrap().2 == spec_name_at(src, ms, index).unwrap().2
        },
{
    if 0 <= index < ts.len() {
        assert(token_matches(ts[index], ms[index], src));
        if index + 1 < ts.len() {
            assert(token_matches(ts[index + 1], ms[index + 1], src));
        }
    }
}

/// First pass of an update: collect the colon-definition entries and mark
/// their name tokens as definition sites.
fn colon_pass(tokens: &Vec<Token>, source: &str, file_path: &str, sites: &mut Vec<usize>) -> (r:
    Vec<Entry>)
    requires
        tokens_correspond(tokens@, spec_tokens(source@), source@),
    ensures
        entries_view(r@) == spec_colon_defs(file_path@, source@, spec_tokens(source@), 0),
        sites_set(final(sites)@) == sites_set(old(sites)@).union(
            spec_colon_sites(spec_tokens(source@), 0),
        ),
{
    let ghost s = source@;
    let ghost f = file_path@;
    let ghost ms = spec_tokens(s);
    let ghost sites0 = sites@;
    let mut r: Vec<Entry> = Vec::new();
    let n = tokens.len();
    let mut i: usize = 0;
    while i < n
        invariant
            tokens_correspond(tokens@, ms, s),
            ms == spec_tokens(s),
            s == source@,
            f == file_path@,
            sites0 == old(sites)@,
            n == tokens@.len(),
            i <= n,
            entries_view(r@) + spec_colon_defs(f, s, ms, i as int) == spec_colon_defs(
                f,
                s,
                ms,
                0,
            ),
            sites_set(sites@).union(spec_colon_sites(ms, i as int)) == sites_set(sites0).union(
                spec_colon_sites(ms, 0),
            ),
        decreases n - i,
    {
        proof {
            lemma_scan_spans(s, 0);
            assert(token_matches(tokens@[i as int], ms[i as int], s));
        }
        let ghost r_before = entries_view(r@);
        let ghost sites_before = sites_set(sites@);
        let ghost head_defs = spec_colon_defs(f, s, ms, i as int);
        if tokens[i].kind() == TokenKind::Colon {
            let mut j: usize = i + 1;
            while j < n && tokens[j].kind() != TokenKind::Semicolon
                invariant
                    tokens_correspond(tokens@, ms, s),
                    n == tokens@.len(),
                    ms.len() == n,
                    i + 1 <= j <= n,
                    find_tok_from(ms, TokenKind::Semicolon, i + 1) == find_tok_from(
                        ms,
                        TokenKind::Semicolon,
                        j as int,
                    ),
                decreases n - j,
            {
                proof {
                    assert(token_matches(tokens@[j as int], ms[j as int], s));
                }
                j = j + 1;
            }
            proof {
                if j < n {
                    assert(token_matches(tokens@[j as int], ms[j as int], s));
                }
                lemma_find_tok_from(ms, TokenKind::Semicolon, i + 1);
                assert(j as int == find_tok_from(ms, TokenKind::Semicolon, i + 1));
            }
            if j < n {
                proof {
                    assert(token_matches(tokens@[i + 1 as int], ms[i + 1 as int], s));
                }
                let t1 = tokens[i + 1].kind();
                if t1 == TokenKind::Number {
                    proof {
                        assert(ms[i + 1 as int].kind == TokenKind::Number);
                        if j == i + 1 {
                            assert(ms[j as int].kind == TokenKind::Semicolon);
                        }
                        assert(j >= i + 2);
                        assert(token_matches(tokens@[i + 2 as int], ms[i + 2 as int], s));
                    }
                    if tokens[i + 2].kind() == TokenKind::Word {
                        if tokens[i + 1].get_data().end == tokens[i + 2].get_data().start {
                            let a = tokens[i + 1].get_data().start;
                            let b = tokens[i + 2].get_data().start;
                            proof {
                                lemma_sites_push(sites@, a);
                                lemma_sites_push(sites@.push(a), b);
                            }
                            sites.push(a);
                            sites.push(b);
                            proof {
                                assert(sites_set(sites@) =~= sites_before.union(
                                    colon_window_sites(ms, i as int, j as int),
                                ));
                            }
                        } else {
                            proof {
                                assert(sites_set(sites@) =~= sites_before.union(
                                    colon_window_sites(ms, i as int, j as int),
                                ));
                            }
                        }
                    } else {
                        let a = tokens[i + 1].get_data().start;
                        proof {
                            lemma_sites_push(sites@, a);
                        }
                        sites.push(a);
                        proof {
                            assert(sites_set(sites@) =~= sites_before.union(
                                colon_window_sites(ms, i as int, j as int),
                            ));
                        }
                    }
                } else if t1 == TokenKind::Word {
                    let a = tokens[i + 1].get_data().start;
                    proof {
                        lemma_sites_push(sites@, a);
                    }
                    sites.push(a);
                    proof {
                        assert(sites_set(sites@) =~= sites_before.union(
                            colon_window_sites(ms, i as int, j as int),
                        ));
                    }
                } else {
                    proof {
                        assert(sites_set(sites@) =~= sites_before.union(
                            colon_window_sites(ms, i as int, j as int),
                        ));
                    }
                }
                proof {
                    lemma_name_bridge(tokens@, ms, s, i + 1);
                }
                match extract_word_name_with_range(tokens, i + 1) {
                    Some((name, s_off, e_off)) => {
                        proof {
                            assert(spec_name_at(s, ms, i + 1) is Some);
                        }
                        let ghost parts = spec_name_at(s, ms, i + 1).unwrap();
                        let key = lower_str(name.as_str());
                        let name_data = Data::new(s_off, e_off, "");
                        let range = data_range_from_to(&name_data, &name_data, source);
                        let entry = Entry {
                            name: key,
                            file: String::from_str(file_path),
                            range,
                        };
                        proof {
                            assert(entry@ == SpecEntry {
                                name: spec_lower(parts.0),
                                file: f,
                                range: spec_range_of(s, parts.1, parts.2),
                            });
                        }
                        r.push(entry);
                        proof {
                            assert(entries_view(r@) =~= r_before.push(r@.last()@));
                            assert(head_defs == seq![r@.last()@] + spec_colon_defs(
                                f,
                                s,
                                ms,
                                i + 1,
                            ));
                            assert(r_before.push(r@.last()@) + spec_colon_defs(f, s, ms, i + 1)
                                =~= r_before + head_defs);
                        }
                    },
                    None => {
                        proof {
                            assert(head_defs == spec_colon_defs(f, s, ms, i + 1));
                        }
                    },
                }
            } else {
                proof {
                    assert(head_defs == spec_colon_defs(f, s, ms, i + 1));
                    assert(spec_colon_sites(ms, i as int) == spec_colon_sites(ms, i + 1));
                }
            }
        } else {
            proof {
                assert(head_defs == spec_colon_defs(f, s, ms, i + 1));
                assert(spec_colon_sites(ms, i as int) == spec_colon_sites(ms, i + 1));
            }
        }
        proof {
            // both invariants step by one unfolding of the model
            assert(sites_set(sites@).union(spec_colon_sites(ms, i + 1)) =~= sites_before.union(
                spec_colon_sites(ms, i as int),
            ));
            assert(entries_view(r@) + spec_colon_defs(f, s, ms, i + 1) =~= r_before + head_defs);
        }
        i = i + 1;
    }
    proof {
        assert(spec_colon_defs(f, s, ms, n as int) =~= Seq::<SpecEntry>::empty());
        assert(entries_view(r@) =~= entries_view(r@) + spec_colon_defs(f, s, ms, n as int));
        assert(spec_colon_sites(ms, n as int) =~= Set::<int>::empty());
        assert(sites_set(sites@) =~= sites_set(sites@).union(spec_colon_sites(ms, n as int)));
    }
    r
}

/// Second pass of an update: collect the defining-keyword declarations and
/// mark the declared words as definition sites.
fn keyword_pass(tokens: &Vec<Token>, source: &str, file_path: &str, sites: &mut Vec<usize>) -> (r:
    Vec<Entry>)
    requires
        tokens_correspond(tokens@, spec_tokens(source@), source@),
    ensures
        entries_view(r@) == spec_keyword_defs(file_path@, source@, spec_tokens(source@), 0),
        sites_set(final(sites)@) == sites_set(old(sites)@).union(
            spec_keyword_sites(source@, spec_tokens(source@), 0),
        ),
{
    let ghost s = source@;
    let ghost f = file_path@;
    let ghost ms = spec_tokens(s);
    let ghost sites0 = sites@;
    let mut r: Vec<Entry> = Vec::new();
    let n = tokens.len();
    let mut i: usize = 0;
    while i < n && i + 1 < n
        invariant
            tokens_correspond(tokens@, ms, s),
            ms == spec_tokens(s),
            s == source@,
            f == file_path@,
            sites0 == old(sites)@,
            n == tokens@.len(),
            i <= n,
            entries_view(r@) + spec_keyword_defs(f, s, ms, i as int) == spec_keyword_defs(
                f,
                s,
                ms,
                0,
            ),
            sites_set(sites@).union(spec_keyword_sites(s, ms, i as int)) == sites_set(
                sites0,
            ).union(spec_keyword_sites(s, ms, 0)),
        decreases n - i,
    {
        proof {
            lemma_scan_spans(s, 0);
            assert(token_matches(tokens@[i as int], ms[i as int], s));
            assert(token_matches(tokens@[i + 1 as int], ms[i + 1 as int], s));
        }
        let ghost r_before = entries_view(r@);
        let ghost sites_before = sites_set(sites@);
        let ghost head_defs = spec_keyword_defs(f, s, ms, i as int);
        if tokens[i].kind() == TokenKind::Word && is_defining_keyword(tokens[i].get_data().value)
            && tokens[i + 1].kind() == TokenKind::Word {
            proof {
                assert(keyword_decl_at(s, ms, i as int));
            }
            let name_data = *tokens[i + 1].get_data();
            let a = name_data.start;
            proof {
                lemma_sites_push(sites@, a);
            }
            sites.push(a);
            let key = lower_str(name_data.value);
            let range = name_data.to_range(source);
            let entry = Entry { name: key, file: String::from_str(file_path), range };
            r.push(entry);
            proof {
                assert(entries_view(r@) =~= r_before.push(r@.last()@));
                assert(head_defs == seq![r@.last()@] + spec_keyword_defs(f, s, ms, i + 1));
                assert(r_before.push(r@.last()@) + spec_keyword_defs(f, s, ms, i + 1) =~= r_before
                    + head_defs);
                assert(sites_set(sites@).union(spec_keyword_sites(s, ms, i + 1))
                    =~= sites_before.union(spec_keyword_sites(s, ms, i as int)));
            }
        } else {
            proof {
                assert(!keyword_decl_at(s, ms, i as int));
                assert(head_defs == spec_keyword_defs(f, s, ms, i + 1));
                assert(spec_keyword_sites(s, ms, i as int) == spec_keyword_sites(s, ms, i + 1));
            }
        }
        i = i + 1;
    }
    proof {
        assert(spec_keyword_defs(f, s, ms, i as int) =~= Seq::<SpecEntry>::empty());
        assert(entries_view(r@) =~= entries_view(r@) + spec_keyword_defs(f, s, ms, i as int));
        assert(spec_keyword_sites(s, ms, i as int) =~= Set::<int>::empty());
        assert(sites_set(sites@) =~= sites_set(sites@).union(spec_keyword_sites(s, ms, i as int)));
    }
    r
}

/// Third pass of an update: collect the reference entries, every `Word` token
/// whose start was not marked as a definition site.
fn refs_pass(tokens: &Vec<Token>, source: &str, file_path: &str, sites: &Vec<usize>) -> (r: Vec<
    Entry,
>)
    requires
        tokens_correspond(tokens@, spec_tokens(source@), source@),
        sites_set(sites@) == spec_def_sites(source@, spec_tokens(source@)),
    ensures
        entries_view(r@) == spec_file_refs(file_path@, source@),
{
    let ghost s = source@;
    let ghost f = file_path@;
    let ghost ms = spec_tokens(s);
    let ghost def_sites = spec_def_sites(s, ms);
    let mut r: Vec<Entry> = Vec::new();
    let n = tokens.len();
    let mut i: usize = 0;
    while i < n
        invariant
            tokens_correspond(tokens@, ms, s),
            ms == spec_tokens(s),
            s == source@,
            f == file_path@,
            sites_set(sites@) == def_sites,
            def_sites == spec_def_sites(s, ms),
            n == tokens@.len(),
            i <= n,
            entries_view(r@) + spec_refs_from(f, s, ms, def_sites, i as int) == spec_refs_from(
                f,
                s,
                ms,
                def_sites,
                0,
            ),
        decreases n - i,
    {
        proof {
            lemma_scan_spans(s, 0);
            assert(token_matches(tokens@[i as int], ms[i as int], s));
        }
        let ghost r_before = entries_view(r@);
        let ghost head_refs = spec_refs_from(f, s, ms, def_sites, i as int);
        if tokens[i].kind() == TokenKind::Word {
            let data = *tokens[i].get_data();
            if !contains_usize(sites, data.start) {
                let key = lower_str(data.value);
                let range = data.to_range(source);
                let entry = Entry { name: key, file: String::from_str(file_path), range };
                r.push(entry);
                proof {
                    assert(entries_view(r@) =~= r_before.push(r@.last()@));
                    assert(head_refs == seq![r@.last()@] + spec_refs_from(
                        f,
                        s,
                        ms,
                        def_sites,
                        i + 1,
                    ));
                    assert(r_before.push(r@.last()@) + spec_refs_from(f, s, ms, def_sites, i + 1)
                        =~= r_before + head_refs);
                }
            } else {
                proof {
                    assert(head_refs == spec_refs_from(f, s, ms, def_sites, i + 1));
                }
            }
        } else {
            proof {
                assert(head_refs == spec_refs_from(f, s, ms, def_sites, i + 1));
            }
        }
        i = i + 1;
    }
    proof {
        assert(spec_refs_from(f, s, ms, def_sites, n as int) =~= Seq::<SpecEntry>::empty());
        assert(entries_view(r@) =~= entries_view(r@) + spec_refs_from(f, s, ms, def_sites, n as int));
    }
    r
}

/// The entries of `es` whose file is not `file_path`, in order.
fn retain_other_files(es: &Vec<Entry>, file_path: &str) -> (r: Vec<Entry>)
    ensures
        entries_view(r@) == without_file(entries_view(es@), file_path@),
{
    let ghost model = entries_view(es@);
    let mut r: Vec<Entry> = Vec::new();
    let n = es.len();
    let mut i: usize = 0;
    while i < n
        invariant
            n == es@.len(),
            i <= n,
            entries_view(r@) == without_file(entries_view(es@.take(i as int)), file_path@),
        decreases n - i,
    {
        let e = &es[i];
        proof {
            assert(entries_view(es@.take(i + 1)).drop_last() =~= entries_view(
                es@.take(i as int),
            ));
            assert(entries_view(es@.take(i + 1)).last() == es@[i as int]@);
        }
        if !str_eq(e.file.as_str(), file_path) {
            let kept = Entry { name: e.name.clone(), file: e.file.clone(), range: e.range };
            proof {
                assert(kept@ == es@[i as int]@);
            }
            r.push(kept);
            proof {
                assert(entries_view(r@) =~= entries_view(r@.drop_last()).push(es@[i as int]@));
            }
        } else {
            proof {
                assert(entries_view(r@) =~= entries_view(r@) + Seq::<SpecEntry>::empty());
            }
        }
        i = i + 1;
    }
    proof {
        assert(es@.take(n as int) =~= es@);
    }
    r
}

/// The locations of every entry of `es` whose name is exactly `key`.
fn find_entries(es: &Vec<Entry>, key: &String) -> (r: Vec<Location>)
    ensures
        locations_view(r@) == spec_find(entries_view(es@), key@),
{
    let mut r: Vec<Location> = Vec::new();
    let n = es.len();
    let mut i: usize = 0;
    while i < n
        invariant
            n == es@.len(),
            i <= n,
            locations_view(r@) == spec_find(entries_view(es@.take(i as int)), key@),
        decreases n - i,
    {
        let e = &es[i];
        proof {
            assert(entries_view(es@.take(i + 1)).drop_last() =~= entries_view(
                es@.take(i as int),
            ));
            assert(entries_view(es@.take(i + 1)).last() == es@[i as int]@);
        }
        if str_eq(e.name.as_str(), key.as_str()) {
            r.push(Location { file: e.file.clone(), range: e.range });
            proof {
                assert(locations_view(r@) =~= locations_view(r@.drop_last()).push(
                    r@.last()@,
                ));
            }
        } else {
            proof {
                assert(locations_view(r@) =~= locations_view(r@) + Seq::<SpecLoc>::empty());
            }
        }
        i = i + 1;
    }
    proof {
        assert(es@.take(n as int) =~= es@);
    }
    r
}

} // verus!
