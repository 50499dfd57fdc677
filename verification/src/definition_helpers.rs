//! Finding colon definitions (`: word ... ;`) in a token stream.

use vstd::prelude::*;
use crate::find_variant_sublists_from_to::{spec_variant_windows, FindVariantSublistsFromTo};
use crate::token::{Token, TokenKind};

verus! {

/// All colon definitions in `tokens`: each as the pair (index of the `:`
/// token, index of the nearest following `;` token). A `:` with no following
/// `;` delimits no definition.
pub fn find_colon_definitions(tokens: &Vec<Token>) -> (r: Vec<(usize, usize)>)
    ensures
        r@ == spec_variant_windows(tokens@, TokenKind::Colon, TokenKind::Semicolon, 0),
{
    tokens.find_variant_sublists_from_to(TokenKind::Colon, TokenKind::Semicolon)
}

} // verus!
