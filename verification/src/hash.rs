//! Block and state roots.
use vstd::prelude::*;

verus! {

/// A 32-byte block or state root.
#[derive(Clone, Copy, Debug, PartialEq, Eq)]
pub struct Hash256(pub [u8; 32]);

impl Hash256 {
    /// The root whose bytes are all zero.
    pub open spec fn is_zero_root(self) -> bool {
        forall|i: int| 0 <= i < 32 ==> self.0[i] == 0
    }

    /// The root whose bytes are all zero.
    pub fn zero() -> (root: Self)
        ensures
            root.is_zero_root(),
    {
        Hash256([0u8; 32])
    }

    /// Whether every byte is zero.
    pub fn is_zero(&self) -> (b: bool)
        ensures
            b == self.is_zero_root(),
    {
        for i in 0..32usize
            invariant
                forall|j: int| 0 <= j < i ==> self.0[j] == 0,
        {
            if self.0[i] != 0 {
                return false;
            }
        }
        true
    }
}

/// Any two roots that are all zero are the same root.
pub proof fn zero_root_is_unique(a: Hash256, b: Hash256)
    requires
        a.is_zero_root(),
        b.is_zero_root(),
    ensures
        a == b,
{
    assert(a.0 =~= b.0);
}

/// A root is the zero root if and only if its bytes are 32 zeros, so that one byte other than zero,
/// wherever it stands, makes it another root.
pub proof fn zero_root_is_all_zeros(root: Hash256, i: int)
    requires
        0 <= i < 32,
    ensures
        root.is_zero_root() <==> root.0@ == Seq::new(32, |j: int| 0u8),
        root.0@[i] != 0 ==> !root.is_zero_root(),
{
    if root.is_zero_root() {
        assert(root.0@ =~= Seq::new(32, |j: int| 0u8)) by {
            assert forall|j: int| 0 <= j < 32 implies root.0@[j] == 0 by {
                assert(root.0[j] == 0);
            }
        }
    }
    if root.0@ == Seq::new(32, |j: int| 0u8) {
        assert forall|j: int| 0 <= j < 32 implies root.0[j] == 0 by {
            assert(root.0@[j] == 0);
        }
    }
    if root.0@[i] != 0 {
        assert(root.0[i] != 0);
    }
}

} // verus!
