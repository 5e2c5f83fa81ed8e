use vstd::prelude::*;

verus! {

/// Thirty-two zero bytes: what a digest field holds before it is set.
pub open spec fn zeroed() -> [u8; 32] {
    vstd::array::spec_array_fill_for_copy_type(0u8)
}

/// Tells whether two 32-byte values (keys, commitments, digests) are equal.
pub fn bytes_eq(a: &[u8; 32], b: &[u8; 32]) -> (equal: bool)
    ensures
        equal == (*a == *b),
{
    let mut i: usize = 0;
    while i < 32
        invariant
            i <= 32,
            forall|j: int| 0 <= j < i ==> a[j] == b[j],
        decreases 32 - i,
    {
        if a[i] != b[i] {
            return false;
        }
        i = i + 1;
    }
    assert(*a =~= *b);
    true
}

} // verus!
