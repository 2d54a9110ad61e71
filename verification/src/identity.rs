//! Identities: the fixed-size opaque byte values by which the ledger names
//! accounts, owners and payout targets.

use vstd::prelude::*;

verus! {

/// An account identity. Two identities are the same exactly when all of
/// their bytes agree.
#[derive(Clone, Copy, Debug)]
pub struct Identity {
    pub bytes: [u8; 32],
}

impl Identity {
    /// The identity made of the given bytes.
    pub fn new(bytes: [u8; 32]) -> (id: Identity)
        ensures
            id.bytes == bytes,
    {
        Identity { bytes }
    }

    /// The bytes of the identity.
    pub fn to_bytes(&self) -> (bytes: [u8; 32])
        ensures
            bytes == self.bytes,
    {
        self.bytes
    }

    /// Identities are determined by their byte sequences.
    pub proof fn lemma_eq_by_bytes(a: Identity, b: Identity)
        ensures
            (a == b) <==> (a.bytes@ == b.bytes@),
    {
        if a.bytes@ == b.bytes@ {
            assert(a.bytes =~= b.bytes);
        }
    }
}

impl PartialEq for Identity {
    fn eq(&self, other: &Self) -> (same: bool) {
        let mut i: usize = 0;
        while i < 32
            invariant
                i <= 32,
                forall|j: int| 0 <= j < i ==> self.bytes@[j] == other.bytes@[j],
            decreases 32 - i,
        {
            if self.bytes[i] != other.bytes[i] {
                return false;
            }
            i += 1;
        }
        proof {
            assert(self.bytes@ =~= other.bytes@);
            Identity::lemma_eq_by_bytes(*self, *other);
        }
        true
    }
}

impl vstd::std_specs::cmp::PartialEqSpecImpl for Identity {
    open spec fn obeys_eq_spec() -> bool {
        true
    }

    open spec fn eq_spec(&self, other: &Self) -> bool {
        *self == *other
    }
}

impl Eq for Identity {}

impl Identity {
    /// Every byte of the identity is zero.
    pub open spec fn is_zero(self) -> bool {
        forall|i: int| 0 <= i < 32 ==> self.bytes@[i] == 0
    }
}

impl Default for Identity {
    fn default() -> (id: Identity)
        ensures
            id.is_zero(),
    {
        Identity { bytes: [0u8; 32] }
    }
}

} // verus!
