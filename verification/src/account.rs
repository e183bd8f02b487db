//! Principals: the account identifiers under which every call runs.

use vstd::prelude::*;

verus! {

broadcast use vstd::array::group_array_axioms;

/// A principal: the 32-byte account identifier on whose behalf an operation
/// executes, and to which outbound payments are addressed.
#[derive(Clone, Copy, PartialEq, Eq, Hash, Debug)]
pub struct AccountId {
    pub bytes: [u8; 32],
}

impl AccountId {
    /// Builds an account identifier from its raw bytes.
    pub fn from_bytes(bytes: [u8; 32]) -> (a: AccountId)
        ensures
            a.bytes == bytes,
    {
        AccountId { bytes }
    }

    /// Byte-wise equality test, used by every authorization gate; it agrees
    /// exactly with mathematical equality of the identifiers.
    pub fn eq_account(&self, other: &AccountId) -> (r: bool)
        ensures
            r == (*self == *other),
    {
        let mut i: usize = 0;
        while i < 32
            invariant
                i <= 32,
                forall|j: int| 0 <= j < i ==> self.bytes[j] == other.bytes[j],
            decreases 32 - i,
        {
            if self.bytes[i] != other.bytes[i] {
                return false;
            }
            i = i + 1;
        }
        proof {
            assert(self.bytes =~= other.bytes);
        }
        true
    }
}

} // verus!
