//! Two operations on string slices that the standard library has and
//! that are taken on trust here.

use vstd::prelude::*;

verus! {

/// `==` of `str`: whether two string slices hold the same text.
#[verifier::external_body]
pub(crate) fn str_eq(a: &str, b: &str) -> (r: bool)
    ensures
        r == (a@ == b@),
{
    a == b
}

/// `str::contains` with a character: whether it occurs in the text.
#[verifier::external_body]
pub(crate) fn has_char(text: &str, c: char) -> (r: bool)
    ensures
        r == text@.contains(c),
{
    text.contains(c)
}

} // verus!
