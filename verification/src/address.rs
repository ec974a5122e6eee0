//! Account identities.

use vstd::prelude::*;
use vstd::std_specs::cmp::PartialEqSpecImpl;

verus! {

/// The identity of a participant or of an account: an opaque value of 32 bytes.
///
/// Two addresses are equal exactly when all their bytes are equal.
#[derive(Clone, Copy, Debug)]
pub struct Address {
    pub bytes: [u8; 32],
}

impl View for Address {
    type V = Seq<u8>;

    open spec fn view(&self) -> Seq<u8> {
        self.bytes@
    }
}

impl PartialEq for Address {
    fn eq(&self, other: &Address) -> (r: bool) {
        let mut i: usize = 0;
        while i < 32
            invariant
                i <= 32,
                forall|j: int| 0 <= j < i ==> self.bytes[j] == other.bytes[j],
            decreases 32 - i,
        {
            if self.bytes[i] != other.bytes[i] {
                return false;
            }
            i = i + 1;
        }
        proof {
            assert(self.bytes =~= other.bytes);
        }
        true
    }
}

impl PartialEqSpecImpl for Address {
    open spec fn obeys_eq_spec() -> bool {
        true
    }

    open spec fn eq_spec(&self, other: &Address) -> bool {
        *self == *other
    }
}

impl Eq for Address {

}

impl Address {
    /// The address made of the given bytes.
    pub fn new(bytes: [u8; 32]) -> (a: Address)
        ensures
            a.bytes == bytes,
            a@ == bytes@,
    {
        Address { bytes }
    }

    /// The bytes of the address, in order, as a seed for deriving other addresses.
    pub fn to_vec(&self) -> (v: Vec<u8>)
        ensures
            v@ == self@,
            v@.len() == 32,
    {
        let mut v: Vec<u8> = Vec::new();
        let mut i: usize = 0;
        while i < 32
            invariant
                i <= 32,
                v@.len() == i,
                forall|j: int| 0 <= j < i ==> v@[j] == self.bytes[j],
            decreases 32 - i,
        {
            v.push(self.bytes[i]);
            i = i + 1;
        }
        proof {
            assert(v@ =~= self.bytes@);
        }
        v
    }
}

/// Equal views mean equal addresses.
pub proof fn lemma_address_by_view(a: Address, b: Address)
    requires
        a@ == b@,
    ensures
        a == b,
{
    assert(a.bytes =~= b.bytes);
}

} // verus!
