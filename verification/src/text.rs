//! Small helpers on text.

use vstd::prelude::*;

verus! {

/// Exact, case-sensitive comparison of two texts.
pub fn same_text(a: &str, b: &str) -> (same: bool)
    ensures
        same == (a@ == b@),
{
    let left = a.to_owned();
    let right = b.to_owned();
    left == right
}

} // verus!
