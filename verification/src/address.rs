//! Account identifiers.

use crate::assoc::Key;
use vstd::prelude::*;

verus! {

/// A 20-byte account identifier.
///
/// The all-zero address is reserved: it never owns a token and stands for
/// "nobody" wherever an address is optional.
#[derive(Clone, Copy, Debug, PartialEq, Eq, Hash)]
pub struct Address {
    bytes: [u8; 20],
}

impl View for Address {
    type V = Seq<u8>;

    /// The twenty bytes, most significant first.
    closed spec fn view(&self) -> Seq<u8> {
        self.bytes@
    }
}

impl Address {
    /// The reserved all-zero address.
    pub closed spec fn zero() -> Address {
        Address { bytes: vstd::array::spec_array_fill_for_copy_type(0u8) }
    }

    /// The all-zero address as a value.
    pub fn zero_address() -> (a: Address)
        ensures
            a == Address::zero(),
    {
        Address { bytes: [0u8; 20] }
    }

    /// The address with these bytes.
    pub fn from_bytes(bytes: [u8; 20]) -> (a: Address)
        ensures
            a@ == bytes@,
    {
        Address { bytes }
    }

    /// The bytes of the address.
    pub fn to_bytes(&self) -> (bytes: [u8; 20])
        ensures
            bytes@ == self@,
    {
        self.bytes
    }

    /// Whether this is the reserved all-zero address.
    pub fn is_zero(&self) -> (r: bool)
        ensures
            r == (*self == Address::zero()),
    {
        let mut i: usize = 0;
        while i < 20
            invariant
                i <= 20,
                forall|j: int| 0 <= j < i ==> self.bytes[j] == 0,
            decreases 20 - i,
        {
            if self.bytes[i] != 0 {
                assert(Address::zero().bytes[i as int] == 0);
                return false;
            }
            i += 1;
        }
        assert(self.bytes =~= Address::zero().bytes);
        true
    }

    /// Byte-wise comparison.
    pub fn same(&self, other: &Address) -> (r: bool)
        ensures
            r == (*self == *other),
    {
        let mut i: usize = 0;
        while i < 20
            invariant
                i <= 20,
                forall|j: int| 0 <= j < i ==> self.bytes[j] == other.bytes[j],
            decreases 20 - i,
        {
            if self.bytes[i] != other.bytes[i] {
                return false;
            }
            i += 1;
        }
        assert(self.bytes =~= other.bytes);
        true
    }

    /// Two addresses are the same exactly when their bytes agree.
    pub proof fn lemma_view_injective(a: Address, b: Address)
        ensures
            (a@ == b@) <==> (a == b),
    {
        if a@ == b@ {
            assert(a.bytes =~= b.bytes);
        }
    }

    /// The zero address consists of zero bytes only.
    pub proof fn lemma_zero_bytes()
        ensures
            Address::zero()@.len() == 20,
            forall|i: int| 0 <= i < 20 ==> Address::zero()@[i] == 0u8,
    {
    }
}

impl Key for Address {
    fn key_eq(&self, other: &Address) -> (r: bool) {
        self.same(other)
    }
}

/// An owner together with an address that may act for that owner.
#[derive(Clone, Copy, Debug, PartialEq, Eq, Hash)]
pub struct Delegation {
    pub owner: Address,
    pub operator: Address,
}

impl Key for Delegation {
    fn key_eq(&self, other: &Delegation) -> (r: bool) {
        self.owner.same(&other.owner) && self.operator.same(&other.operator)
    }
}

} // verus!
