//! Plain-value forms of the chain's primitive types: a 20-byte account
//! address, a 256-bit unsigned integer and the 32-byte seed.
use vstd::prelude::*;

verus! {

/// The 32 bytes that determine a token's artwork.
pub type Seed = [u8; 32];

/// An account on the chain: twenty bytes.
#[derive(Clone, Copy, Debug, PartialEq, Eq)]
pub struct Address {
    pub bytes: [u8; 20],
}

impl View for Address {
    type V = Seq<u8>;

    open spec fn view(&self) -> Seq<u8> {
        self.bytes@
    }
}

impl Address {
    /// The address made of the given bytes.
    pub fn new(bytes: [u8; 20]) -> (address: Address)
        ensures
            address@ == bytes@,
    {
        Address { bytes }
    }

    /// Whether two addresses name the same account.
    pub fn same_as(&self, other: &Address) -> (same: bool)
        ensures
            same == (self@ == other@),
    {
        let mut i: usize = 0;
        while i < 20
            invariant
                i <= 20,
                forall|j: int| 0 <= j < i ==> self.bytes@[j] == other.bytes@[j],
            decreases 20 - i,
        {
            if self.bytes[i] != other.bytes[i] {
                return false;
            }
            i += 1;
        }
        assert(self.bytes@ =~= other.bytes@);
        true
    }
}

/// The number that four 64-bit limbs stand for, least significant limb first.
pub open spec fn limbs_value(limbs: Seq<u64>) -> nat {
    (limbs[0] as nat) + (limbs[1] as nat) * 0x1_0000_0000_0000_0000nat
        + (limbs[2] as nat) * 0x1_0000_0000_0000_0000_0000_0000_0000_0000nat
        + (limbs[3] as nat) * 0x1_0000_0000_0000_0000_0000_0000_0000_0000_0000_0000_0000_0000nat
}

/// Different limbs stand for different numbers.
pub proof fn lemma_limbs_value_unique(a: Seq<u64>, b: Seq<u64>)
    requires
        a.len() == 4,
        b.len() == 4,
        limbs_value(a) == limbs_value(b),
    ensures
        a == b,
{
    assert(a[3] == b[3]);
    assert(a[2] == b[2]);
    assert(a[1] == b[1]);
    assert(a[0] == b[0]);
    assert(a =~= b);
}

/// An unsigned integer of 256 bits, held as four 64-bit limbs with the least
/// significant limb first. Amounts of currency and token ids are of this type.
#[derive(Clone, Copy, Debug, PartialEq, Eq)]
pub struct U256 {
    pub limbs: [u64; 4],
}

impl View for U256 {
    type V = nat;

    open spec fn view(&self) -> nat {
        limbs_value(self.limbs@)
    }
}

impl U256 {
    /// The integer whose limbs are given, least significant first.
    pub fn from_limbs(limbs: [u64; 4]) -> (n: U256)
        ensures
            n.limbs@ == limbs@,
            n@ == limbs_value(limbs@),
    {
        U256 { limbs }
    }

    /// The 256-bit form of a 64-bit integer.
    pub fn from_u64(value: u64) -> (n: U256)
        ensures
            n@ == value,
    {
        U256 { limbs: [value, 0, 0, 0] }
    }

    /// The 256-bit form of a length or an index.
    pub fn from_usize(value: usize) -> (n: U256)
        ensures
            n@ == value,
    {
        U256 { limbs: [value as u64, 0, 0, 0] }
    }

    /// Whether `self` is strictly smaller than `other`.
    pub fn lt(&self, other: &U256) -> (less: bool)
        ensures
            less == (self@ < other@),
    {
        if self.limbs[3] != other.limbs[3] {
            self.limbs[3] < other.limbs[3]
        } else if self.limbs[2] != other.limbs[2] {
            self.limbs[2] < other.limbs[2]
        } else if self.limbs[1] != other.limbs[1] {
            self.limbs[1] < other.limbs[1]
        } else {
            self.limbs[0] < other.limbs[0]
        }
    }

    /// The value as an index, where it fits one.
    pub fn to_usize(&self) -> (index: Option<usize>)
        ensures
            index is Some <==> self@ <= usize::MAX,
            index matches Some(i) ==> i == self@,
    {
        if self.limbs[3] == 0 && self.limbs[2] == 0 && self.limbs[1] == 0 && self.limbs[0]
            <= usize::MAX as u64 {
            Some(self.limbs[0] as usize)
        } else {
            None
        }
    }
}

} // verus!
