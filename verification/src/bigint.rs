//! Integers of arbitrary size.
//!
//! A [`BigNum`] holds its value as plain bytes. The arithmetic is done by
//! `num-bigint`, reached through `fvm_shared::bigint`; each operation below
//! hands the bytes over, lets `num-bigint` compute, and takes the bytes of
//! the result back. What it computes is stated here and not proved.

use vstd::prelude::*;
use vstd::arithmetic::power::pow;
use vstd::arithmetic::power2::pow2;
use crate::arith::floor_div;

verus! {

/// The natural number that `bytes` spell in base 256, least significant
/// byte first.
pub open spec fn unsigned_le(bytes: Seq<u8>) -> nat
    decreases bytes.len(),
{
    if bytes.len() == 0 {
        0
    } else {
        bytes[0] as nat + 256 * unsigned_le(bytes.drop_first())
    }
}

/// The integer that `bytes` spell in two's complement, least significant
/// byte first. The empty string spells zero.
pub open spec fn signed_le(bytes: Seq<u8>) -> int {
    if bytes.len() > 0 && bytes.last() >= 0x80 {
        unsigned_le(bytes) - pow(256, bytes.len())
    } else {
        unsigned_le(bytes) as int
    }
}

/// The largest shift that this crate asks for.
pub const MAX_SHIFT: u64 = 128;

/// An integer of arbitrary size, held as its two's-complement bytes, least
/// significant byte first. Every byte string is a value: the empty one is
/// zero, and redundant sign bytes at the end are allowed.
#[derive(Clone, Debug)]
pub struct BigNum {
    pub bytes: Vec<u8>,
}

impl View for BigNum {
    type V = int;

    open spec fn view(&self) -> int {
        signed_le(self.bytes@)
    }
}

impl Default for BigNum {
    /// Zero.
    fn default() -> (r: BigNum)
        ensures
            r@ == 0,
    {
        BigNum::zero()
    }
}

impl PartialEq for BigNum {
    /// Whether the two values are the same, whatever bytes hold them.
    fn eq(&self, other: &BigNum) -> (r: bool) {
        self.le(other) && other.le(self)
    }
}

impl vstd::std_specs::cmp::PartialEqSpecImpl for BigNum {
    open spec fn obeys_eq_spec() -> bool {
        true
    }

    open spec fn eq_spec(&self, other: &BigNum) -> bool {
        self@ == other@
    }
}

impl Eq for BigNum {

}

/// Apart from [`BigNum::zero`] and [`BigNum::max`], each function here is
/// one operation of `num-bigint` on values made from the bytes by
/// `BigInt::from_signed_bytes_le`, with the result turned back into bytes
/// by `BigInt::to_signed_bytes_le`. Its contract says what the operation
/// computes; `num-bigint` is trusted to compute it.
impl BigNum {
    /// Zero.
    pub fn zero() -> (r: BigNum)
        ensures
            r@ == 0,
    {
        BigNum { bytes: Vec::new() }
    }

    /// `BigInt::from` on an `i64`: the result has the value of `x`.
    #[verifier::external_body]
    pub(crate) fn from_i64(x: i64) -> (r: BigNum)
        ensures
            r@ == x,
    {
        BigNum { bytes: fvm_shared::bigint::BigInt::from(x).to_signed_bytes_le() }
    }

    /// `BigInt::from` on a `u64`: the result has the value of `x`.
    #[verifier::external_body]
    pub(crate) fn from_u64(x: u64) -> (r: BigNum)
        ensures
            r@ == x,
    {
        BigNum { bytes: fvm_shared::bigint::BigInt::from(x).to_signed_bytes_le() }
    }

    /// `+` of `BigInt`: the sum.
    #[verifier::external_body]
    pub(crate) fn add(&self, other: &BigNum) -> (r: BigNum)
        ensures
            r@ == self@ + other@,
    {
        let a = fvm_shared::bigint::BigInt::from_signed_bytes_le(&self.bytes);
        let b = fvm_shared::bigint::BigInt::from_signed_bytes_le(&other.bytes);
        BigNum { bytes: (a + b).to_signed_bytes_le() }
    }

    /// `-` of `BigInt`: the difference.
    #[verifier::external_body]
    pub(crate) fn sub(&self, other: &BigNum) -> (r: BigNum)
        ensures
            r@ == self@ - other@,
    {
        let a = fvm_shared::bigint::BigInt::from_signed_bytes_le(&self.bytes);
        let b = fvm_shared::bigint::BigInt::from_signed_bytes_le(&other.bytes);
        BigNum { bytes: (a - b).to_signed_bytes_le() }
    }

    /// `*` of `BigInt`: the product.
    #[verifier::external_body]
    pub(crate) fn mul(&self, other: &BigNum) -> (r: BigNum)
        ensures
            r@ == self@ * other@,
    {
        let a = fvm_shared::bigint::BigInt::from_signed_bytes_le(&self.bytes);
        let b = fvm_shared::bigint::BigInt::from_signed_bytes_le(&other.bytes);
        BigNum { bytes: (a * b).to_signed_bytes_le() }
    }

    /// `<<` of `BigInt` by a `u64`: the value times two to the power `bits`.
    #[verifier::external_body]
    pub(crate) fn shl(&self, bits: u64) -> (r: BigNum)
        requires
            bits <= MAX_SHIFT,
        ensures
            r@ == self@ * pow2(bits as nat),
    {
        let a = fvm_shared::bigint::BigInt::from_signed_bytes_le(&self.bytes);
        BigNum { bytes: (a << bits).to_signed_bytes_le() }
    }

    /// `>>` of `BigInt` by a `u64`: the value divided by two to the power
    /// `bits`, rounded towards negative infinity.
    #[verifier::external_body]
    pub(crate) fn shr(&self, bits: u64) -> (r: BigNum)
        requires
            bits <= MAX_SHIFT,
        ensures
            r@ == self@ / (pow2(bits as nat) as int),
    {
        let a = fvm_shared::bigint::BigInt::from_signed_bytes_le(&self.bytes);
        BigNum { bytes: (a >> bits).to_signed_bytes_le() }
    }

    /// `Integer::div_floor` of `BigInt`: the quotient rounded towards
    /// negative infinity. It panics on a zero divisor, which is left out.
    #[verifier::external_body]
    pub(crate) fn div_floor(&self, divisor: &BigNum) -> (r: BigNum)
        requires
            divisor@ != 0,
        ensures
            r@ == floor_div(self@, divisor@),
    {
        let a = fvm_shared::bigint::BigInt::from_signed_bytes_le(&self.bytes);
        let b = fvm_shared::bigint::BigInt::from_signed_bytes_le(&divisor.bytes);
        BigNum { bytes: fvm_shared::bigint::Integer::div_floor(&a, &b).to_signed_bytes_le() }
    }

    /// `Zero::is_zero` of `BigInt`: whether the value is zero.
    #[verifier::external_body]
    pub(crate) fn is_zero(&self) -> (r: bool)
        ensures
            r == (self@ == 0),
    {
        let a = fvm_shared::bigint::BigInt::from_signed_bytes_le(&self.bytes);
        num_traits::Zero::is_zero(&a)
    }

    /// `<=` of `BigInt`: whether the value is at most that of `other`.
    #[verifier::external_body]
    pub(crate) fn le(&self, other: &BigNum) -> (r: bool)
        ensures
            r == (self@ <= other@),
    {
        let a = fvm_shared::bigint::BigInt::from_signed_bytes_le(&self.bytes);
        let b = fvm_shared::bigint::BigInt::from_signed_bytes_le(&other.bytes);
        a <= b
    }

    /// The larger of two numbers; `other` where they are equal.
    pub fn max(self, other: BigNum) -> (r: BigNum)
        ensures
            r@ == crate::arith::max_of(self@, other@),
    {
        if self.le(&other) {
            other
        } else {
            self
        }
    }
}

} // verus!
