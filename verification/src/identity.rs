//! Identities of the parties and accounts that the ledger deals with.

use vstd::prelude::*;

verus! {

/// The identity of a party, an account or a program: thirty-two opaque bytes.
///
/// Two identities are the same exactly when all their bytes agree, and the
/// executable `==` decides just that.
#[derive(Clone, Copy, Debug, Hash)]
pub struct Identity {
    pub bytes: [u8; 32],
}

impl PartialEq for Identity {
    fn eq(&self, other: &Self) -> (same: bool) {
        let mut i: usize = 0;
        while i < 32
            invariant
                i <= 32,
                forall|j: int| 0 <= j < i ==> self.bytes@[j] == other.bytes@[j],
            decreases 32 - i,
        {
            if self.bytes[i] != other.bytes[i] {
                return false;
            }
            i += 1;
        }
        assert(self.bytes =~= other.bytes);
        true
    }
}

impl Eq for Identity {}

impl vstd::std_specs::cmp::PartialEqSpecImpl for Identity {
    open spec fn obeys_eq_spec() -> bool {
        true
    }

    open spec fn eq_spec(&self, other: &Self) -> bool {
        *self == *other
    }
}

impl Default for Identity {
    /// The identity whose bytes are all zero, as found in a record that was
    /// created and not yet written.
    fn default() -> (identity: Self)
        ensures
            identity.is_zero(),
    {
        Identity { bytes: [0u8; 32] }
    }
}

impl Identity {
    /// Whether every byte of the identity is zero.
    pub open spec fn is_zero(&self) -> bool {
        forall|i: int| 0 <= i < 32 ==> self.bytes@[i] == 0u8
    }

    /// Builds an identity from its bytes.
    pub fn new(bytes: [u8; 32]) -> (identity: Self)
        ensures
            identity.bytes == bytes,
    {
        Identity { bytes }
    }

    /// The bytes of the identity.
    pub fn to_bytes(&self) -> (bytes: [u8; 32])
        ensures
            bytes == self.bytes,
    {
        self.bytes
    }
}

/// Linear search for `key` in `list`.
pub fn contains_identity(list: &Vec<Identity>, key: &Identity) -> (found: bool)
    ensures
        found == list@.contains(*key),
{
    let mut i: usize = 0;
    while i < list.len()
        invariant
            i <= list.len(),
            forall|j: int| 0 <= j < i ==> list@[j] != *key,
        decreases list.len() - i,
    {
        if list[i] == *key {
            return true;
        }
        i += 1;
    }
    false
}

} // verus!
