//! Root key hashes of the certificate block.

use vstd::prelude::*;

verus! {

/// A Root Key Hash, as held at the end of the certificate block.
#[derive(PartialEq, Eq, Debug, Clone, Copy)]
pub struct Rkh(pub [u8; 32]);

/// A Root Key Table Hash: the SHA-256 hash of the four root key hashes.
#[derive(PartialEq, Eq, Debug, Clone, Copy)]
pub struct Rkth(pub [u8; 32]);

impl Rkth {
    /// Whether two hashes hold the same bytes.
    pub fn same_as(&self, other: &Rkth) -> (r: bool)
        ensures
            r == (self.0@ == other.0@),
    {
        let mut i: usize = 0;
        while i < 32
            invariant
                i <= 32,
                forall|k: int| 0 <= k < i ==> self.0@[k] == other.0@[k],
            decreases 32 - i,
        {
            if self.0[i] != other.0[i] {
                return false;
            }
            i = i + 1;
        }
        assert(self.0@ =~= other.0@);
        true
    }
}

} // verus!
