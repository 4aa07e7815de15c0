//! The two kinds of 32-byte value that the protocol handles.

use vstd::prelude::*;

verus! {

/// A node of a Merkle tree: a leaf, an inner node or a root.
pub type Node = [u8; 32];

/// The address of an account: an operator, a vault, an authority, a record.
pub type Pubkey = [u8; 32];

/// Whether two 32-byte values are the same.
pub fn bytes_equal(a: &[u8; 32], b: &[u8; 32]) -> (same: bool)
    ensures
        same == (*a == *b),
{
    let mut i: usize = 0;
    while i < 32
        invariant
            i <= 32,
            forall|j: int| 0 <= j < i ==> a@[j] == b@[j],
        decreases 32 - i,
    {
        if a[i] != b[i] {
            return false;
        }
        i += 1;
    }
    assert(*a =~= *b);
    true
}

} // verus!
