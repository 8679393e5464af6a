//! Plain values that transactions and signatures are made of.

use vstd::prelude::*;

verus! {

/// The number of bytes in an account address.
pub const ADDRESS_LEN: usize = 20;

/// A 20-byte account address.
#[derive(Clone, Copy, Debug, PartialEq, Eq, Hash)]
pub struct Address {
    pub bytes: [u8; 20],
}

impl View for Address {
    type V = Seq<u8>;

    /// The address as its sequence of 20 bytes.
    open spec fn view(&self) -> Seq<u8> {
        self.bytes@
    }
}

impl Address {
    /// Wraps 20 bytes as an address.
    pub fn new(bytes: [u8; 20]) -> (address: Address)
        ensures
            address@ == bytes@,
            address@.len() == ADDRESS_LEN,
    {
        Address { bytes }
    }

    /// Whether two addresses hold the same 20 bytes.
    pub fn same_as(&self, other: &Address) -> (same: bool)
        ensures
            same == (self@ == other@),
    {
        let mut i: usize = 0;
        while i < ADDRESS_LEN
            invariant
                i <= ADDRESS_LEN,
                forall|j: int| 0 <= j < i ==> self.bytes@[j] == other.bytes@[j],
            decreases ADDRESS_LEN - i,
        {
            if self.bytes[i] != other.bytes[i] {
                return false;
            }
            i += 1;
        }
        assert(self.bytes@ =~= other.bytes@);
        true
    }
}

/// An unsigned 256-bit integer, held as four 64-bit limbs, least significant first.
#[derive(Clone, Copy, Debug, PartialEq, Eq, Hash)]
pub struct U256 {
    pub limbs: [u64; 4],
}

impl View for U256 {
    type V = nat;

    /// The number that the four limbs spell in base 2^64.
    open spec fn view(&self) -> nat {
        (self.limbs@[0] + 0x1_0000_0000_0000_0000int * self.limbs@[1]
            + 0x1_0000_0000_0000_0000_0000_0000_0000_0000int * self.limbs@[2]
            + 0x1_0000_0000_0000_0000_0000_0000_0000_0000_0000_0000_0000_0000int
            * self.limbs@[3]) as nat
    }
}

impl U256 {
    /// The 256-bit integer equal to `value`.
    pub fn from_u64(value: u64) -> (word: U256)
        ensures
            word@ == value,
    {
        U256 { limbs: [value, 0, 0, 0] }
    }

    /// The limbs are determined by the number that they spell, and the number
    /// fits in 256 bits.
    pub proof fn limbs_are_determined(self, other: U256)
        ensures
            self@ < 0x1_0000_0000_0000_0000_0000_0000_0000_0000_0000_0000_0000_0000_0000_0000_0000_0000int,
            self@ == other@ ==> self.limbs@ == other.limbs@,
    {
        if self@ == other@ {
            assert(self.limbs@[3] == other.limbs@[3]);
            assert(self.limbs@[2] == other.limbs@[2]);
            assert(self.limbs@[1] == other.limbs@[1]);
            assert(self.limbs@[0] == other.limbs@[0]);
            assert(self.limbs@ =~= other.limbs@);
        }
    }
}

/// An ECDSA signature over a transaction: the two curve scalars and the recovery value.
#[derive(Clone, Copy, Debug, PartialEq, Eq, Hash)]
pub struct Signature {
    pub r: U256,
    pub s: U256,
    pub v: u64,
}

/// What a signature is, as numbers.
pub struct SignatureView {
    pub r: nat,
    pub s: nat,
    pub v: u64,
}

impl View for Signature {
    type V = SignatureView;

    open spec fn view(&self) -> SignatureView {
        SignatureView { r: self.r@, s: self.s@, v: self.v }
    }
}

} // verus!
