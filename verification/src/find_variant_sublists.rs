//! Finding windows in a token sequence whose kinds match a given pattern.

use vstd::prelude::*;
use crate::token::{Token, TokenKind};

verus! {

/// Whether the tokens starting at `i` match the kinds `ks`, one for one,
/// entirely within bounds.
pub open spec fn pattern_matches_at(ts: Seq<Token>, ks: Seq<TokenKind>, i: int) -> bool {
    &&& 0 <= i
    &&& i + ks.len() <= ts.len()
    &&& forall|j: int| 0 <= j < ks.len() ==> ts[i + j].spec_kind() == #[trigger] ks[j]
}

/// Every window whose token kinds match `ks`, as (start, exclusive end)
/// pairs, in order of start index.
pub open spec fn spec_pattern_windows(ts: Seq<Token>, ks: Seq<TokenKind>, i: int) -> Seq<
    (usize, usize),
>
    decreases ts.len() - i,
{
    if !(0 <= i < ts.len()) {
        Seq::empty()
    } else {
        let rest = spec_pattern_windows(ts, ks, i + 1);
        if pattern_matches_at(ts, ks, i) {
            seq![(i as usize, (i + ks.len()) as usize)] + rest
        } else {
            rest
        }
    }
}

/// Extension of token vectors with pattern-window search.
pub trait FindVariantSublists<'a> {
    /// The tokens searched.
    spec fn pattern_tokens(&self) -> Seq<Token<'a>>;

    /// All windows whose token kinds match `find`, one for one, as pairs of
    /// (start index, exclusive end index).
    fn find_variant_sublists(&self, find: &Vec<TokenKind>) -> (r: Vec<(usize, usize)>)
        ensures
            r@ == spec_pattern_windows(self.pattern_tokens(), find@, 0),
    ;
}

impl<'a> FindVariantSublists<'a> for Vec<Token<'a>> {
    open spec fn pattern_tokens(&self) -> Seq<Token<'a>> {
        self@
    }

    fn find_variant_sublists(&self, find: &Vec<TokenKind>) -> (r: Vec<(usize, usize)>) {
        let ghost ts = self@;
        let ghost ks = find@;
        let mut r: Vec<(usize, usize)> = Vec::new();
        let n = self.len();
        let m = find.len();
        let mut i: usize = 0;
        while i < n
            invariant
                ts == self@,
                ks == find@,
                n == ts.len(),
                m == ks.len(),
                i <= n,
                r@ + spec_pattern_windows(ts, ks, i as int) == spec_pattern_windows(ts, ks, 0),
            decreases n - i,
        {
            if m <= n - i {
                let mut j: usize = 0;
                let mut matched = true;
                while j < m && matched
                    invariant
                        ts == self@,
                        ks == find@,
                        n == ts.len(),
                        m == ks.len(),
                        i + m <= n,
                        j <= m,
                        matched ==> (forall|q: int|
                            0 <= q < j ==> ts[i + q].spec_kind() == #[trigger] ks[q]),
                        !matched ==> j < m && ts[i + j as int].spec_kind() != ks[j as int],
                    decreases m - j + if matched {
                        1int
                    } else {
                        0int
                    },
                {
                    if self[i + j].kind() != find[j] {
                        matched = false;
                    } else {
                        j = j + 1;
                    }
                }
                if matched {
                    let window = (i, i + m);
                    r.push(window);
                    proof {
                        assert(pattern_matches_at(ts, ks, i as int));
                        assert(r@ =~= r@.subrange(0, r@.len() - 1).push(window));
                        assert(r@ + spec_pattern_windows(ts, ks, i + 1) =~= r@.subrange(
                            0,
                            r@.len() - 1,
                        ) + (seq![window] + spec_pattern_windows(ts, ks, i + 1)));
                    }
                } else {
                    proof {
                        assert(!pattern_matches_at(ts, ks, i as int));
                    }
                }
            } else {
                proof {
                    assert(!pattern_matches_at(ts, ks, i as int));
                }
            }
            i = i + 1;
        }
        proof {
            assert(r@ =~= r@ + spec_pattern_windows(ts, ks, n as int));
        }
        r
    }
}

} // verus!
