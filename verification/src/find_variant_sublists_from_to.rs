//! Finding windows in a token sequence that run from one token kind to the
//! nearest following token of another kind.

use vstd::prelude::*;
use crate::token::{Token, TokenKind};

verus! {

/// The first index at or after `i` holding a token of kind `k`, or the length
/// of the sequence when there is none.
pub open spec fn find_kind_from(ts: Seq<Token>, k: TokenKind, i: int) -> int
    decreases ts.len() - i,
{
    if !(0 <= i < ts.len()) {
        ts.len() as int
    } else if ts[i].spec_kind() == k {
        i
    } else {
        find_kind_from(ts, k, i + 1)
    }
}

/// Every window `(i, j)` where the token at `i` has kind `from` and `j` is the
/// nearest index after `i` whose token has kind `to`, in order of `i`. A
/// `from`-token with no following `to`-token opens no window.
pub open spec fn spec_variant_windows(
    ts: Seq<Token>,
    from: TokenKind,
    to: TokenKind,
    i: int,
) -> Seq<(usize, usize)>
    decreases ts.len() - i,
{
    if !(0 <= i < ts.len()) {
        Seq::empty()
    } else {
        let rest = spec_variant_windows(ts, from, to, i + 1);
        if ts[i].spec_kind() == from {
            let j = find_kind_from(ts, to, i + 1);
            if j < ts.len() {
                seq![(i as usize, j as usize)] + rest
            } else {
                rest
            }
        } else {
            rest
        }
    }
}

/// Extension of token vectors with window search.
pub trait FindVariantSublistsFromTo<'a> {
    /// The tokens searched.
    spec fn window_tokens(&self) -> Seq<Token<'a>>;

    /// All windows from a `from`-kind token to the nearest following
    /// `to`-kind token, as pairs of indices (both inclusive).
    fn find_variant_sublists_from_to(&self, from: TokenKind, to: TokenKind) -> (r: Vec<
        (usize, usize),
    >)
        ensures
            r@ == spec_variant_windows(self.window_tokens(), from, to, 0),
    ;
}

impl<'a> FindVariantSublistsFromTo<'a> for Vec<Token<'a>> {
    open spec fn window_tokens(&self) -> Seq<Token<'a>> {
        self@
    }

    fn find_variant_sublists_from_to(&self, from: TokenKind, to: TokenKind) -> (r: Vec<
        (usize, usize),
    >) {
        let ghost ts = self@;
        let mut r: Vec<(usize, usize)> = Vec::new();
        let n = self.len();
        let mut i: usize = 0;
        while i < n
            invariant
                ts == self@,
                n == ts.len(),
                i <= n,
                r@ + spec_variant_windows(ts, from, to, i as int) == spec_variant_windows(
                    ts,
                    from,
                    to,
                    0,
                ),
            decreases n - i,
        {
            if self[i].kind() == from {
                // scan forward for the nearest `to`
                let mut j: usize = i + 1;
                while j < n && self[j].kind() != to
                    invariant
                        ts == self@,
                        n == ts.len(),
                        i + 1 <= j <= n,
                        find_kind_from(ts, to, i + 1) == find_kind_from(ts, to, j as int),
                    decreases n - j,
                {
                    j = j + 1;
                }
                if j < n {
                    r.push((i, j));
                    proof {
                        assert(r@ =~= r@.subrange(0, r@.len() - 1).push((i, j)));
                        assert(r@ + spec_variant_windows(ts, from, to, i + 1)
                            =~= r@.subrange(0, r@.len() - 1) + (seq![(i, j)]
                            + spec_variant_windows(ts, from, to, i + 1)));
                    }
                }
            }
            i = i + 1;
        }
        proof {
            assert(r@ =~= r@ + spec_variant_windows(ts, from, to, n as int));
        }
        r
    }
}

} // verus!
