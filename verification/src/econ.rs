//! Amounts of the native token.

use vstd::prelude::*;
use crate::arith::{floor_div, max_of};
use crate::bigint::BigNum;

verus! {

/// A quantity of tokens, counted in the smallest unit, which cannot be
/// divided. It may be negative.
#[derive(Clone, Debug, PartialEq, Eq)]
pub struct TokenAmount {
    pub atto: BigNum,
}

impl View for TokenAmount {
    type V = int;

    open spec fn view(&self) -> int {
        self.atto@
    }
}

impl Default for TokenAmount {
    /// The amount of nothing.
    fn default() -> (r: TokenAmount)
        ensures
            r@ == 0,
    {
        TokenAmount::zero()
    }
}

impl TokenAmount {
    /// The amount of `atto` smallest units.
    pub fn from_atto(atto: BigNum) -> (r: TokenAmount)
        ensures
            r@ == atto@,
            r.atto == atto,
    {
        TokenAmount { atto }
    }

    /// The number of smallest units.
    pub fn atto(&self) -> (r: &BigNum)
        ensures
            r@ == self@,
            *r == self.atto,
    {
        &self.atto
    }

    /// The amount of nothing.
    pub fn zero() -> (r: TokenAmount)
        ensures
            r@ == 0,
    {
        TokenAmount { atto: BigNum::zero() }
    }

    /// The sum of two amounts.
    pub fn add(&self, other: &TokenAmount) -> (r: TokenAmount)
        ensures
            r@ == self@ + other@,
    {
        TokenAmount { atto: self.atto.add(&other.atto) }
    }

    /// The amount taken `factor` times.
    pub fn mul_i64(&self, factor: i64) -> (r: TokenAmount)
        ensures
            r@ == self@ * factor,
    {
        TokenAmount { atto: self.atto.mul(&BigNum::from_i64(factor)) }
    }

    /// The amount divided by `divisor`, rounded towards negative infinity.
    pub fn div_floor_i64(&self, divisor: i64) -> (r: TokenAmount)
        requires
            divisor != 0,
        ensures
            r@ == floor_div(self@, divisor as int),
    {
        TokenAmount { atto: self.atto.div_floor(&BigNum::from_i64(divisor)) }
    }

    /// The larger of two amounts.
    pub fn max(self, other: TokenAmount) -> (r: TokenAmount)
        ensures
            r@ == max_of(self@, other@),
    {
        TokenAmount { atto: self.atto.max(other.atto) }
    }
}

} // verus!
