//! Account identities.

use vstd::prelude::*;

verus! {

/// An account identity: an opaque, fixed-width byte string.  Two addresses
/// denote the same account exactly when all twenty bytes agree.
#[derive(Clone, Copy, Debug)]
pub struct Address {
    pub identifier: [u8; 20],
}

impl Address {
    /// Builds the address with the given identifier bytes.
    pub fn new(identifier: [u8; 20]) -> (a: Address)
        ensures
            a.identifier == identifier,
    {
        Address { identifier }
    }
}

impl PartialEq for Address {
    /// Byte-for-byte comparison of the two identifiers.
    fn eq(&self, other: &Address) -> (r: bool) {
        let mut i: usize = 0;
        while i < 20
            invariant
                i <= 20,
                forall|j: int| 0 <= j < i ==> self.identifier@[j] == other.identifier@[j],
            decreases 20 - i,
        {
            if self.identifier[i] != other.identifier[i] {
                return false;
            }
            i += 1;
        }
        proof {
            assert(self.identifier =~= other.identifier);
        }
        true
    }
}

impl vstd::std_specs::cmp::PartialEqSpecImpl for Address {
    open spec fn obeys_eq_spec() -> bool {
        true
    }

    open spec fn eq_spec(&self, other: &Address) -> bool {
        *self == *other
    }
}

} // verus!
