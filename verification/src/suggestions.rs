//! Spelling suggestions: the edit distance between two words, and the words
//! of the vocabulary closest to a misspelt one.

use vstd::prelude::*;
use vstd::string::StrSliceExecFns;
use vstd::pervasive::VecAdditionalExecFns;
use crate::definition_index::DefinitionIndex;
use crate::strings::{lower_str, spec_lower, str_eq};
use crate::words::Words;

verus! {

pub open spec fn spec_min(a: int, b: int) -> int {
    if a < b {
        a
    } else {
        b
    }
}

/// The Levenshtein distance between the first `i` characters of `x` and the
/// first `j` characters of `y`: the least number of single-character
/// insertions, deletions and substitutions turning one into the other.
pub open spec fn spec_edit_distance(x: Seq<char>, y: Seq<char>, i: int, j: int) -> int
    decreases i + j,
{
    if i <= 0 {
        if j <= 0 {
            0
        } else {
            j
        }
    } else if j <= 0 {
        i
    } else {
        let cost: int = if x[i - 1] == y[j - 1] {
            0
        } else {
            1
        };
        spec_min(
            spec_min(
                spec_edit_distance(x, y, i - 1, j) + 1,
                spec_edit_distance(x, y, i, j - 1) + 1,
            ),
            spec_edit_distance(x, y, i - 1, j - 1) + cost,
        )
    }
}

/// The distance never exceeds the longer prefix's length.
pub proof fn lemma_edit_distance_bound(x: Seq<char>, y: Seq<char>, i: int, j: int)
    requires
        0 <= i,
        0 <= j,
    ensures
        0 <= spec_edit_distance(x, y, i, j),
        spec_edit_distance(x, y, i, j) <= if i < j {
            j
        } else {
            i
        },
    decreases i + j,
{
    if i > 0 && j > 0 {
        lemma_edit_distance_bound(x, y, i - 1, j);
        lemma_edit_distance_bound(x, y, i, j - 1);
        lemma_edit_distance_bound(x, y, i - 1, j - 1);
    }
}

/// Levenshtein edit distance between two words, case-insensitively.
pub fn edit_distance(a: &str, b: &str) -> (r: usize)
    ensures
        r as int == spec_edit_distance(
            spec_lower(a@),
            spec_lower(b@),
            a@.len() as int,
            b@.len() as int,
        ),
{
    let la = lower_str(a);
    let lb = lower_str(b);
    let ghost x = la@;
    let ghost y = lb@;
    let m = la.as_str().unicode_len();
    let n = lb.as_str().unicode_len();

    let mut prev: Vec<usize> = Vec::new();
    let mut j0: usize = 0;
    while j0 < n
        invariant
            j0 <= n,
            prev@.len() == j0,
            forall|q: int| 0 <= q < j0 ==> prev@[q] == q,
        decreases n - j0,
    {
        prev.push(j0);
        j0 = j0 + 1;
    }
    prev.push(n);
    let mut curr: Vec<usize> = Vec::new();
    let mut j1: usize = 0;
    while j1 < n
        invariant
            j1 <= n,
            curr@.len() == j1,
        decreases n - j1,
    {
        curr.push(0);
        j1 = j1 + 1;
    }
    curr.push(0);
    proof {
        assert forall|q: int| 0 <= q <= n implies prev@[q] == spec_edit_distance(
            x,
            y,
            0,
            q,
        ) by {}
    }

    // rows 1 through m; `rows_done` rows beyond the zeroth are finished
    let mut rows_done: usize = 0;
    while rows_done < m
        invariant
            m == x.len(),
            n == y.len(),
            x == la@,
            y == lb@,
            rows_done <= m,
            prev@.len() == n + 1,
            curr@.len() == n + 1,
            forall|q: int|
                0 <= q <= n ==> prev@[q] == spec_edit_distance(x, y, rows_done as int, q),
        decreases m - rows_done,
    {
        let i = rows_done + 1;
        curr.set(0, i);
        let mut cols_done: usize = 0;
        while cols_done < n
            invariant
                m == x.len(),
                n == y.len(),
                x == la@,
                y == lb@,
                rows_done < m,
                i == rows_done + 1,
                cols_done <= n,
                prev@.len() == n + 1,
                curr@.len() == n + 1,
                forall|q: int|
                    0 <= q <= n ==> prev@[q] == spec_edit_distance(x, y, rows_done as int, q),
                forall|q: int|
                    0 <= q <= cols_done ==> curr@[q] == spec_edit_distance(x, y, i as int, q),
            decreases n - cols_done,
        {
            let j = cols_done + 1;
            let cost: usize = if la.as_str().get_char(i - 1) == lb.as_str().get_char(j - 1) {
                0
            } else {
                1
            };
            let v1 = prev[j].saturating_add(1);
            let v2 = curr[j - 1].saturating_add(1);
            let v3 = prev[j - 1].saturating_add(cost);
            let mut best = v1;
            if v2 < best {
                best = v2;
            }
            if v3 < best {
                best = v3;
            }
            proof {
                lemma_edit_distance_bound(x, y, i - 1, j as int);
                lemma_edit_distance_bound(x, y, i as int, j - 1);
                lemma_edit_distance_bound(x, y, i - 1, j - 1);
                lemma_edit_distance_bound(x, y, i as int, j as int);
                assert(best as int == spec_edit_distance(x, y, i as int, j as int));
            }
            curr.set(j, best);
            cols_done = cols_done + 1;
        }
        // the finished row becomes the previous row
        let done = curr;
        curr = prev;
        prev = done;
        rows_done = rows_done + 1;
    }
    prev[n]
}

/// Words of the vocabulary similar to `word`: built-in and user-defined
/// names within a small edit distance, nearest first, at most `max_results`
/// of them, without case-duplicates.
pub fn find_similar_words(
    word: &str,
    builtin_words: &Words,
    def_index: &DefinitionIndex,
    max_results: usize,
) -> (r: Vec<String>)
    ensures
        r@.len() <= max_results,
{
    let threshold: usize = if word.unicode_len() <= 5 {
        2
    } else {
        3
    };

    let mut names: Vec<String> = Vec::new();
    let mut dists: Vec<usize> = Vec::new();

    // candidates among the built-in words
    let nb = builtin_words.words.len();
    let mut i: usize = 0;
    while i < nb
        invariant
            nb == builtin_words.words@.len(),
            i <= nb,
            names@.len() == dists@.len(),
        decreases nb - i,
    {
        let w = builtin_words.words[i];
        let dist = edit_distance(word, w.token);
        if dist > 0 && dist <= threshold {
            names.push(String::from_str(w.token));
            dists.push(dist);
        }
        i = i + 1;
    }

    // candidates among the user-defined words
    let user = def_index.all_words();
    let nu = user.len();
    let mut k: usize = 0;
    while k < nu
        invariant
            nu == user@.len(),
            k <= nu,
            names@.len() == dists@.len(),
        decreases nu - k,
    {
        let w = &user[k];
        let dist = edit_distance(word, w.as_str());
        if dist > 0 && dist <= threshold {
            names.push(String::from_str(w.as_str()));
            dists.push(dist);
        }
        k = k + 1;
    }

    // stable sort by distance
    let total = names.len();
    let mut s: usize = 1;
    while s < total
        invariant
            names@.len() == total,
            dists@.len() == total,
            1 <= s,
        decreases total - s,
    {
        let moved_name = names.remove(s);
        let moved_dist = dists.remove(s);
        let mut at: usize = 0;
        while at < s && dists[at] <= moved_dist
            invariant
                names@.len() == total - 1,
                dists@.len() == total - 1,
                s < total,
                at <= s,
            decreases s - at,
        {
            at = at + 1;
        }
        names.insert(at, moved_name);
        dists.insert(at, moved_dist);
        s = s + 1;
    }

    // drop case-duplicates of earlier suggestions, then cap the count
    let mut out: Vec<String> = Vec::new();
    let mut p: usize = 0;
    while p < total
        invariant
            names@.len() == total,
            p <= total,
            out@.len() <= p,
        decreases total - p,
    {
        let cand = &names[p];
        let lc = lower_str(cand.as_str());
        let mut dup = false;
        let no = out.len();
        let mut q: usize = 0;
        while q < no && !dup
            invariant
                no == out@.len(),
                q <= no,
            decreases no - q + if dup {
                0int
            } else {
                1int
            },
        {
            let lo = lower_str(out[q].as_str());
            if str_eq(lo.as_str(), lc.as_str()) {
                dup = true;
            } else {
                q = q + 1;
            }
        }
        if !dup {
            out.push(String::from_str(cand.as_str()));
        }
        p = p + 1;
    }
    out.truncate(max_results);
    out
}

} // verus!
