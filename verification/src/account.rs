use vstd::prelude::*;
use vstd::std_specs::cmp::PartialEqSpecImpl;

verus! {

/// A 32-byte account address. It names a participant or a reward asset.
///
/// Two addresses are the same account exactly when all their bytes agree.
#[derive(Clone, Copy, Debug)]
pub struct AccountId {
    /// The bytes of the address.
    pub bytes: [u8; 32],
}

impl AccountId {
    /// The address made of the given bytes.
    pub fn new(bytes: [u8; 32]) -> (id: AccountId)
        ensures
            id.bytes == bytes,
    {
        AccountId { bytes }
    }

    /// The bytes of this address.
    pub fn to_bytes(&self) -> (bytes: [u8; 32])
        ensures
            bytes == self.bytes,
    {
        self.bytes
    }
}

impl PartialEq for AccountId {
    /// Compares the two addresses byte by byte.
    fn eq(&self, other: &AccountId) -> (r: bool) {
        let mut i: usize = 0;
        while i < 32
            invariant
                i <= 32,
                forall|j: int| 0 <= j < i ==> self.bytes[j] == other.bytes[j],
            decreases 32 - i,
        {
            if self.bytes[i] != other.bytes[i] {
                return false;
            }
            i += 1;
        }
        assert(self.bytes =~= other.bytes);
        true
    }
}

impl PartialEqSpecImpl for AccountId {
    open spec fn obeys_eq_spec() -> bool {
        true
    }

    open spec fn eq_spec(&self, other: &AccountId) -> bool {
        *self == *other
    }
}

impl Eq for AccountId {}

} // verus!
