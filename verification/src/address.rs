//! Principals and message identifiers: fixed-width byte strings that are
//! compared bit for bit.

use vstd::prelude::*;

verus! {

/// A principal: the 20-byte name of a user, a token contract or a service.
#[derive(Clone, Copy, Debug, Eq, Hash)]
pub struct Address {
    pub bytes: [u8; 20],
}

impl Address {
    /// Whether this is the null principal, all of whose bytes are zero.
    pub open spec fn is_null(&self) -> bool {
        forall|i: int| 0 <= i < 20 ==> self.bytes[i] == 0
    }

    /// The null principal, which is valid nowhere.
    pub fn zero() -> (r: Address)
        ensures
            r.is_null(),
    {
        Address { bytes: [0u8; 20] }
    }

    /// The principal named by `bytes`.
    pub fn from_bytes(bytes: [u8; 20]) -> (r: Address)
        ensures
            r.bytes == bytes,
    {
        Address { bytes }
    }

    /// Whether this is the null principal.
    pub fn is_zero(&self) -> (r: bool)
        ensures
            r == self.is_null(),
    {
        let mut i: usize = 0;
        while i < 20
            invariant
                i <= 20,
                forall|j: int| 0 <= j < i ==> self.bytes[j] == 0,
            decreases 20 - i,
        {
            if self.bytes[i] != 0 {
                return false;
            }
            i = i + 1;
        }
        true
    }

    /// Whether the two principals are the same, byte for byte.
    pub fn same(&self, other: &Address) -> (r: bool)
        ensures
            r == (*self == *other),
    {
        let mut i: usize = 0;
        while i < 20
            invariant
                i <= 20,
                forall|j: int| 0 <= j < i ==> self.bytes[j] == other.bytes[j],
            decreases 20 - i,
        {
            if self.bytes[i] != other.bytes[i] {
                return false;
            }
            i = i + 1;
        }
        assert(self.bytes =~= other.bytes);
        true
    }
}

impl PartialEq for Address {
    fn eq(&self, other: &Address) -> (r: bool) {
        self.same(other)
    }
}

impl vstd::std_specs::cmp::PartialEqSpecImpl for Address {
    open spec fn obeys_eq_spec() -> bool {
        true
    }

    open spec fn eq_spec(&self, other: &Address) -> bool {
        *self == *other
    }
}

/// The 32-byte identifier that the bridge gives to a message.
#[derive(Clone, Copy, Debug, PartialEq, Eq, Hash)]
pub struct MessageId {
    pub bytes: [u8; 32],
}

impl MessageId {
    /// The identifier all of whose bytes are zero: no message.
    pub open spec fn spec_zero() -> MessageId {
        MessageId { bytes: vstd::array::spec_array_fill_for_copy_type::<u8, 32>(0u8) }
    }

    /// The identifier all of whose bytes are zero: no message.
    #[verifier::when_used_as_spec(spec_zero)]
    pub fn zero() -> (r: MessageId)
        ensures
            r == Self::spec_zero(),
    {
        MessageId { bytes: [0u8; 32] }
    }

    /// The identifier made of `bytes`.
    pub fn from_bytes(bytes: [u8; 32]) -> (r: MessageId)
        ensures
            r.bytes == bytes,
    {
        MessageId { bytes }
    }
}

/// There is one null principal.
pub proof fn lemma_null_unique(a: Address, b: Address)
    requires
        a.is_null(),
        b.is_null(),
    ensures
        a == b,
{
    assert(a.bytes =~= b.bytes);
}

} // verus!
