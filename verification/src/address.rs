//! Identities of the parties to a duel.

use vstd::prelude::*;
use vstd::std_specs::cmp::PartialEqSpecImpl;

verus! {

/// A 32-byte identity: a participant, a fee recipient, the configuration's
/// owner or the asset that is wagered.
///
/// The identity made of 32 zero bytes is the default one and stands for
/// "not set".
#[derive(Clone, Copy, Debug, Eq)]
pub struct Address {
    pub bytes: [u8; 32],
}

impl Address {
    /// This identity is the default one: every byte of it is zero.
    pub open spec fn unset(&self) -> bool {
        forall|i: int| 0 <= i < 32 ==> self.bytes[i] == 0
    }

    /// The identity with the given bytes.
    pub fn new(bytes: [u8; 32]) -> (address: Address)
        ensures
            address.bytes == bytes,
    {
        Address { bytes }
    }

    /// The bytes of this identity.
    pub fn to_bytes(&self) -> (bytes: [u8; 32])
        ensures
            bytes == self.bytes,
    {
        self.bytes
    }

    /// Tells whether this identity is the default one.
    pub fn is_default(&self) -> (unset: bool)
        ensures
            unset == self.unset(),
    {
        let mut i: usize = 0;
        while i < 32
            invariant
                i <= 32,
                forall|j: int| 0 <= j < i ==> self.bytes[j] == 0,
            decreases 32 - i,
        {
            if self.bytes[i] != 0 {
                return false;
            }
            i = i + 1;
        }
        true
    }

    /// There is only one default identity.
    pub proof fn lemma_unset_is_unique(a: Address, b: Address)
        requires
            a.unset(),
            b.unset(),
        ensures
            a == b,
    {
        assert(a.bytes =~= b.bytes);
    }
}

impl Default for Address {
    /// The default identity.
    fn default() -> (address: Address)
        ensures
            address.unset(),
    {
        Address { bytes: [0; 32] }
    }
}

impl PartialEq for Address {
    /// Two identities are equal when their bytes are.
    fn eq(&self, other: &Self) -> (equal: bool) {
        let mut i: usize = 0;
        while i < 32
            invariant
                i <= 32,
                forall|j: int| 0 <= j < i ==> self.bytes[j] == other.bytes[j],
            decreases 32 - i,
        {
            if self.bytes[i] != other.bytes[i] {
                return false;
            }
            i = i + 1;
        }
        proof {
            assert(self.bytes =~= other.bytes);
        }
        true
    }
}

impl PartialEqSpecImpl for Address {
    open spec fn obeys_eq_spec() -> bool {
        true
    }

    open spec fn eq_spec(&self, other: &Self) -> bool {
        *self == *other
    }
}

} // verus!
