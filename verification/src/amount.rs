//! 256-bit unsigned amounts, held as four 64-bit words, with arithmetic done by
//! `ethers::types::U256`.

use ethers::types::U256;
use vstd::prelude::*;

verus! {

/// `2^64`, the weight of the second word.
pub open spec fn weight_1() -> nat {
    0x1_0000_0000_0000_0000nat
}

/// `2^128`, the weight of the third word.
pub open spec fn weight_2() -> nat {
    0x1_0000_0000_0000_0000_0000_0000_0000_0000nat
}

/// `2^192`, the weight of the fourth word.
pub open spec fn weight_3() -> nat {
    0x1_0000_0000_0000_0000_0000_0000_0000_0000_0000_0000_0000_0000nat
}

/// `2^256`, one more than the largest amount.
pub open spec fn amount_limit() -> nat {
    0x1_0000_0000_0000_0000_0000_0000_0000_0000_0000_0000_0000_0000_0000_0000_0000_0000_0000nat
}

/// An unsigned 256-bit integer. `w0` is the least significant word.
#[derive(Clone, Copy, Debug, PartialEq, Eq, Structural)]
pub struct Amount {
    pub w0: u64,
    pub w1: u64,
    pub w2: u64,
    pub w3: u64,
}

impl View for Amount {
    type V = nat;

    open spec fn view(&self) -> nat {
        (self.w0 as nat) + (self.w1 as nat) * weight_1() + (self.w2 as nat) * weight_2() + (
        self.w3 as nat) * weight_3()
    }
}

/// Every amount is below `2^256`, and two amounts with the same value are the
/// same amount.
pub proof fn lemma_amount_view(a: Amount, b: Amount)
    ensures
        a@ < amount_limit(),
        a@ == b@ ==> a == b,
{
    let base = weight_1() as int;
    let a_top = a.w2 as int + base * (a.w3 as int);
    let b_top = b.w2 as int + base * (b.w3 as int);
    let a_high = a.w1 as int + base * a_top;
    let b_high = b.w1 as int + base * b_top;
    assert(a@ == a.w0 as int + base * a_high);
    assert(b@ == b.w0 as int + base * b_high);
    assert(a_top < base * base);
    assert(a_high < base * base * base);
    if a@ == b@ {
        assert(base * (a_high - b_high) == b.w0 as int - a.w0 as int);
        assert(a_high == b_high);
        assert(base * (a_top - b_top) == b.w1 as int - a.w1 as int);
        assert(a_top == b_top);
        assert(base * (a.w3 as int - b.w3 as int) == b.w2 as int - a.w2 as int);
        assert(a.w3 == b.w3);
    }
}

impl Amount {
    /// The amount zero.
    pub fn zero() -> (r: Amount)
        ensures
            r@ == 0,
    {
        Amount { w0: 0, w1: 0, w2: 0, w3: 0 }
    }

    /// The amount with the value of `x`.
    pub fn from_u64(x: u64) -> (r: Amount)
        ensures
            r@ == x,
    {
        Amount { w0: x, w1: 0, w2: 0, w3: 0 }
    }

    /// The amount with the value of `x`.
    pub fn from_u128(x: u128) -> (r: Amount)
        ensures
            r@ == x,
    {
        let low: u64 = (x & 0xFFFF_FFFF_FFFF_FFFF) as u64;
        let high: u64 = (x >> 64) as u64;
        assert(low as u128 + (high as u128) * 0x1_0000_0000_0000_0000 == x) by (bit_vector)
            requires
                low == (x & 0xFFFF_FFFF_FFFF_FFFF) as u64,
                high == (x >> 64) as u64,
        ;
        Amount { w0: low, w1: high, w2: 0, w3: 0 }
    }

    /// The value as a `u128`, where it fits in one.
    pub fn as_u128(&self) -> (r: Option<u128>)
        ensures
            match r {
                Some(x) => x == self@,
                None => self@ > u128::MAX,
            },
    {
        if self.w2 != 0 || self.w3 != 0 {
            None
        } else {
            let low: u128 = self.w0 as u128;
            let high: u128 = self.w1 as u128;
            assert(high << 64 == high * 0x1_0000_0000_0000_0000) by (bit_vector)
                requires
                    high <= 0xFFFF_FFFF_FFFF_FFFF,
            ;
            Some((high << 64) + low)
        }
    }

    /// Whether the amount is zero.
    pub fn is_zero(&self) -> (r: bool)
        ensures
            r == (self@ == 0),
    {
        self.w0 == 0 && self.w1 == 0 && self.w2 == 0 && self.w3 == 0
    }

    /// Whether `self` is smaller than `other`.
    pub fn lt(&self, other: &Amount) -> (r: bool)
        ensures
            r == (self@ < other@),
    {
        if self.w3 != other.w3 {
            self.w3 < other.w3
        } else if self.w2 != other.w2 {
            self.w2 < other.w2
        } else if self.w1 != other.w1 {
            self.w1 < other.w1
        } else {
            self.w0 < other.w0
        }
    }

    /// Whether `self` is at most `other`.
    pub fn le(&self, other: &Amount) -> (r: bool)
        ensures
            r == (self@ <= other@),
    {
        !other.lt(self)
    }
}

/// `U256::checked_add`: the sum of the two amounts, or `None` exactly when the
/// sum does not fit in 256 bits.
#[verifier::external_body]
pub(crate) fn word_checked_add(a: Amount, b: Amount) -> (r: Option<Amount>)
    ensures
        match r {
            Some(v) => v@ == a@ + b@,
            None => a@ + b@ >= amount_limit(),
        },
{
    match U256([a.w0, a.w1, a.w2, a.w3]).checked_add(U256([b.w0, b.w1, b.w2, b.w3])) {
        Some(v) => Some(Amount { w0: v.0[0], w1: v.0[1], w2: v.0[2], w3: v.0[3] }),
        None => None,
    }
}

/// `U256::checked_sub`: the difference of the two amounts, or `None` exactly
/// when the second is the larger.
#[verifier::external_body]
pub(crate) fn word_checked_sub(a: Amount, b: Amount) -> (r: Option<Amount>)
    ensures
        match r {
            Some(v) => a@ >= b@ && v@ == a@ - b@,
            None => a@ < b@,
        },
{
    match U256([a.w0, a.w1, a.w2, a.w3]).checked_sub(U256([b.w0, b.w1, b.w2, b.w3])) {
        Some(v) => Some(Amount { w0: v.0[0], w1: v.0[1], w2: v.0[2], w3: v.0[3] }),
        None => None,
    }
}

/// `U256::checked_mul`: the product of the two amounts, or `None` exactly when
/// the product does not fit in 256 bits.
#[verifier::external_body]
pub(crate) fn word_checked_mul(a: Amount, b: Amount) -> (r: Option<Amount>)
    ensures
        match r {
            Some(v) => v@ == a@ * b@,
            None => a@ * b@ >= amount_limit(),
        },
{
    match U256([a.w0, a.w1, a.w2, a.w3]).checked_mul(U256([b.w0, b.w1, b.w2, b.w3])) {
        Some(v) => Some(Amount { w0: v.0[0], w1: v.0[1], w2: v.0[2], w3: v.0[3] }),
        None => None,
    }
}

/// `U256::checked_div`: the quotient of the two amounts, rounded down, or
/// `None` exactly when the divisor is zero.
#[verifier::external_body]
pub(crate) fn word_checked_div(a: Amount, b: Amount) -> (r: Option<Amount>)
    ensures
        match r {
            Some(v) => b@ != 0 && v@ == a@ / b@,
            None => b@ == 0,
        },
{
    match U256([a.w0, a.w1, a.w2, a.w3]).checked_div(U256([b.w0, b.w1, b.w2, b.w3])) {
        Some(v) => Some(Amount { w0: v.0[0], w1: v.0[1], w2: v.0[2], w3: v.0[3] }),
        None => None,
    }
}

/// The number that the bytes spell, most significant byte first.
pub open spec fn big_endian_value(bytes: Seq<u8>) -> nat
    decreases bytes.len(),
{
    if bytes.len() == 0 {
        0
    } else {
        big_endian_value(bytes.drop_last()) * 256 + bytes.last() as nat
    }
}

/// `U256::to_big_endian`: the amount as 32 bytes, most significant byte first.
#[verifier::external_body]
pub(crate) fn word_to_big_endian(a: Amount) -> (r: [u8; 32])
    ensures
        big_endian_value(r@) == a@,
{
    let mut bytes = [0u8; 32];
    U256([a.w0, a.w1, a.w2, a.w3]).to_big_endian(&mut bytes);
    bytes
}

} // verus!
