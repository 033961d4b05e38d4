//! Comparison of short texts such as mode and animation names.

use vstd::prelude::*;
use vstd::string::*;

verus! {

/// Tells whether two texts hold the same characters.
pub fn same_text(left: &str, right: &str) -> (same: bool)
    ensures
        same == (left@ == right@),
{
    let len = left.unicode_len();
    if right.unicode_len() != len {
        return false;
    }
    let mut i: usize = 0;
    while i < len
        invariant
            i <= len,
            len == left@.len(),
            len == right@.len(),
            forall|k: int| 0 <= k < i ==> left@[k] == right@[k],
        decreases len - i,
    {
        if left.get_char(i) != right.get_char(i) {
            assert(left@[i as int] != right@[i as int]);
            return false;
        }
        i += 1;
    }
    assert(left@ =~= right@);
    true
}

} // verus!
