//! A 32-byte identity, standing for the keyed-store address of a record
//! (a participant's account, or a battle's own address).

use vstd::prelude::*;

verus! {

broadcast use vstd::array::group_array_axioms;

/// A 32-byte opaque identity.  Two identities are the same participant
/// exactly when all their bytes agree.
#[derive(Clone, Copy, Debug)]
pub struct Identity(pub [u8; 32]);

/// Compares two 32-byte arrays for equality.
pub fn bytes32_eq(a: &[u8; 32], b: &[u8; 32]) -> (r: bool)
    ensures
        r <==> (a@ =~= b@),
{
    let mut i: usize = 0;
    while i < 32
        invariant
            i <= 32,
            forall|j: int| 0 <= j < i ==> a@[j] == b@[j],
        decreases 32 - i,
    {
        if a[i] != b[i] {
            return false;
        }
        i = i + 1;
    }
    true
}

impl PartialEq for Identity {
    fn eq(&self, other: &Identity) -> (r: bool) {
        let r = bytes32_eq(&self.0, &other.0);
        proof {
            // byte-wise equality of the views coincides with equality of
            // the arrays, by array extensionality
            if self.0@ =~= other.0@ {
                assert(self.0 =~= other.0);
            }
            if self.0 == other.0 {
                assert(self.0@ =~= other.0@);
            }
        }
        r
    }
}

impl vstd::std_specs::cmp::PartialEqSpecImpl for Identity {
    open spec fn obeys_eq_spec() -> bool {
        true
    }

    open spec fn eq_spec(&self, other: &Identity) -> bool {
        self.0 == other.0
    }
}

impl Eq for Identity {
}

} // verus!
