//! Character-for-character comparison of string slices.

use vstd::prelude::*;

verus! {

/// True exactly when the two slices hold the same characters.
pub fn str_eq(a: &str, b: &str) -> (r: bool)
    ensures
        r == (a@ == b@),
{
    let x: String = a.to_owned();
    let y: String = b.to_owned();
    x == y
}

} // verus!
