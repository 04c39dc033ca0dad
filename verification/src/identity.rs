//! Identities of the parties and records the engine deals with.

use vstd::prelude::*;
use vstd::std_specs::cmp::PartialEqSpecImpl;

verus! {

/// A 32-byte identity on the ledger: a party, an asset or a record.
#[derive(Clone, Copy, Debug, Eq)]
pub struct Identity {
    pub bytes: [u8; 32],
}

impl PartialEq for Identity {
    /// Two identities are the same when all their bytes agree.
    fn eq(&self, other: &Identity) -> (r: bool) {
        let mut i: usize = 0;
        while i < 32
            invariant
                i <= 32,
                forall|j: int| 0 <= j < i ==> self.bytes[j] == other.bytes[j],
            decreases 32 - i,
        {
            if self.bytes[i] != other.bytes[i] {
                return false;
            }
            i += 1;
        }
        assert(self.bytes =~= other.bytes);
        true
    }
}

impl PartialEqSpecImpl for Identity {
    open spec fn obeys_eq_spec() -> bool {
        true
    }

    open spec fn eq_spec(&self, other: &Identity) -> bool {
        *self == *other
    }
}

} // verus!
