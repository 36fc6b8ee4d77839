use vstd::prelude::*;

verus! {

broadcast use vstd::array::group_array_axioms;

/// A 32-byte identity (an account or authority key), held as plain bytes.
#[derive(Debug, Clone, Copy)]
pub struct Address(pub [u8; 32]);

impl Address {
    pub fn new(bytes: [u8; 32]) -> (r: Address)
        ensures
            r.0 == bytes,
    {
        Address(bytes)
    }

    pub fn to_bytes(&self) -> (r: [u8; 32])
        ensures
            r == self.0,
    {
        self.0
    }

    /// Whether two identities are the same, byte for byte.
    pub fn same_as(&self, other: &Address) -> (r: bool)
        ensures
            r == (*self == *other),
    {
        let mut i: usize = 0;
        while i < 32
            invariant
                0 <= i <= 32,
                forall|j: int| 0 <= j < i ==> self.0[j] == other.0[j],
            decreases 32 - i,
        {
            if self.0[i] != other.0[i] {
                return false;
            }
            i = i + 1;
        }
        assert(self.0 =~= other.0);
        true
    }
}

impl PartialEq for Address {
    fn eq(&self, other: &Address) -> (r: bool) {
        self.same_as(other)
    }
}

impl vstd::std_specs::cmp::PartialEqSpecImpl for Address {
    open spec fn obeys_eq_spec() -> bool {
        true
    }

    open spec fn eq_spec(&self, other: &Address) -> bool {
        *self == *other
    }
}

/// Whether `who` appears in `set`.
pub fn contains_address(set: &Vec<Address>, who: &Address) -> (r: bool)
    ensures
        r == set@.contains(*who),
{
    let mut i: usize = 0;
    while i < set.len()
        invariant
            0 <= i <= set@.len(),
            forall|j: int| 0 <= j < i ==> set@[j] != *who,
        decreases set@.len() - i,
    {
        if set[i].same_as(who) {
            assert(set@[i as int] == *who);
            return true;
        }
        i = i + 1;
    }
    false
}

} // verus!
