//! Comparing texts.

use vstd::prelude::*;

verus! {

/// Whether two texts hold the same characters.
pub fn same_text(left: &str, right: &str) -> (same: bool)
    ensures
        same == (left@ == right@),
{
    let l = left.as_bytes();
    let r = right.as_bytes();
    proof {
        vstd::utf8::encode_utf8_decode_utf8(left@);
        vstd::utf8::encode_utf8_decode_utf8(right@);
    }
    if l.len() != r.len() {
        return false;
    }
    let mut i: usize = 0;
    while i < l.len()
        invariant
            i <= l@.len(),
            l@.len() == r@.len(),
            l@ == vstd::utf8::encode_utf8(left@),
            r@ == vstd::utf8::encode_utf8(right@),
            forall|j: int| 0 <= j < i ==> l@[j] == r@[j],
        decreases l@.len() - i,
    {
        if l[i] != r[i] {
            return false;
        }
        i = i + 1;
    }
    assert(l@ =~= r@);
    true
}

} // verus!
