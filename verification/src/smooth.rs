//! Linear estimates of quantities that change with time, as fixed-point
//! numbers with 128 fractional bits, and the sum of the ratio of two of
//! them over a span of epochs.

use vstd::prelude::*;
use crate::arith::{floor_div, lemma_pow2_scales, q128};
use crate::bigint::BigNum;
use crate::sector::ChainEpoch;

verus! {

/// The number of fractional bits of an estimate.
pub const PRECISION: u64 = 128;

/// The square of a velocity, as a fixed-point number with 128 fractional
/// bits, above which the velocity counts: two to the power 78.
pub open spec fn velocity_threshold() -> int {
    302231454903657293676544
}

/// What a [`FilterEstimate`] stands for: a quantity that is `position` now
/// and grows by `velocity` each epoch, both scaled by two to the power 128.
pub struct Estimate {
    pub position: int,
    pub velocity: int,
}

impl Estimate {
    /// The whole part of the position.
    pub open spec fn point_value(self) -> int {
        self.position / q128()
    }

    /// Whether the velocity is large enough for the sum of a ratio over
    /// this estimate to be taken by logarithms.
    pub open spec fn velocity_counts(self) -> bool {
        (self.velocity * self.velocity) / q128() > velocity_threshold()
    }
}

/// A linear estimate: position and velocity as fixed-point numbers with 128
/// fractional bits.
#[derive(Clone, Debug, PartialEq, Eq)]
pub struct FilterEstimate {
    pub position: BigNum,
    pub velocity: BigNum,
}

impl View for FilterEstimate {
    type V = Estimate;

    open spec fn view(&self) -> Estimate {
        Estimate { position: self.position@, velocity: self.velocity@ }
    }
}

impl Default for FilterEstimate {
    /// The estimate of a quantity that is zero and stays so.
    fn default() -> (r: FilterEstimate)
        ensures
            r@.position == 0,
            r@.velocity == 0,
    {
        FilterEstimate { position: BigNum::zero(), velocity: BigNum::zero() }
    }
}

impl FilterEstimate {
    /// The whole part of the position.
    pub fn estimate(&self) -> (r: BigNum)
        ensures
            r@ == self@.point_value(),
    {
        proof {
            lemma_pow2_scales();
        }
        self.position.shr(PRECISION)
    }
}

/// Whether the sum of the ratio over `denom` is defined for a span of
/// `delta` epochs that starts `relative_start` epochs from now. Where the
/// velocity counts, the denominator has to be positive at both ends of the
/// span; where it does not, the position has to differ from zero.
pub open spec fn cum_sum_defined(delta: int, relative_start: int, denom: Estimate) -> bool {
    if denom.velocity_counts() {
        let at_start = denom.velocity * relative_start + denom.position;
        let at_end = denom.velocity * delta + at_start;
        at_start > 0 && at_end > 0
    } else {
        denom.position != 0
    }
}

/// Computes [`cum_sum_defined`], so that a caller can test it before it
/// asks for a sum.
pub fn cum_sum_is_defined(
    delta: ChainEpoch,
    relative_start: ChainEpoch,
    est_denom: &FilterEstimate,
) -> (defined: bool)
    ensures
        defined == cum_sum_defined(delta as int, relative_start as int, est_denom@),
{
    proof {
        lemma_pow2_scales();
    }
    let velocity = &est_denom.velocity;
    let squared = velocity.mul(velocity).shr(PRECISION);
    let threshold = BigNum::from_u64(1).shl(78);
    if squared.le(&threshold) {
        !est_denom.position.is_zero()
    } else {
        let zero = BigNum::zero();
        let at_start = velocity.mul(&BigNum::from_i64(relative_start)).add(&est_denom.position);
        let at_end = velocity.mul(&BigNum::from_i64(delta)).add(&at_start);
        !at_start.le(&zero) && !at_end.le(&zero)
    }
}

/// The sum of the ratio where the velocity of the denominator does not
/// count: the numerator at the middle of the span, times the length of the
/// span, over the position of the denominator. The result has 128
/// fractional bits.
pub open spec fn flat_cum_sum(delta: int, relative_start: int, num: Estimate, denom: Estimate) -> int {
    let delta_t = delta * q128();
    let middle = relative_start * q128() + delta_t / 2;
    let num_at_middle = (num.velocity * middle) / q128() + num.position;
    floor_div(num_at_middle * delta_t, denom.position)
}

/// What `fvm_shared::smooth::extrapolated_cum_sum_of_ratio` returns for a
/// span of `delta` epochs, a start `relative_start` epochs from now, and
/// the positions and velocities of numerator and denominator.
pub uninterp spec fn cum_sum_of_ratio(
    delta: int,
    relative_start: int,
    num_position: int,
    num_velocity: int,
    denom_position: int,
    denom_velocity: int,
) -> int;

/// The sum of the ratio of `num` over `denom` for a span of `delta` epochs
/// that starts `relative_start` epochs from now, with 128 fractional bits:
/// the closed form where the velocity of the denominator does not count,
/// and what the logarithmic form of `fvm_shared` gives where it does.
pub open spec fn extrapolated_cum_sum(
    delta: int,
    relative_start: int,
    num: Estimate,
    denom: Estimate,
) -> int {
    if denom.velocity_counts() {
        cum_sum_of_ratio(
            delta,
            relative_start,
            num.position,
            num.velocity,
            denom.position,
            denom.velocity,
        )
    } else {
        flat_cum_sum(delta, relative_start, num, denom)
    }
}

/// `fvm_shared::smooth::extrapolated_cum_sum_of_ratio`: the sum, over the
/// epochs of the span, of the numerator over the denominator, with 128
/// fractional bits. The result depends on the six numbers alone. Where the
/// velocity of the denominator does not count, it is the closed form
/// [`flat_cum_sum`]. The inputs on which the outside function may divide by
/// zero are left out.
#[verifier::external_body]
pub(crate) fn extrapolated_cum_sum_of_ratio(
    delta: ChainEpoch,
    relative_start: ChainEpoch,
    est_num: &FilterEstimate,
    est_denom: &FilterEstimate,
) -> (r: BigNum)
    requires
        cum_sum_defined(delta as int, relative_start as int, est_denom@),
    ensures
        r@ == cum_sum_of_ratio(
            delta as int,
            relative_start as int,
            est_num@.position,
            est_num@.velocity,
            est_denom@.position,
            est_denom@.velocity,
        ),
        !est_denom@.velocity_counts() ==> r@ == flat_cum_sum(
            delta as int,
            relative_start as int,
            est_num@,
            est_denom@,
        ),
{
    let num = fvm_shared::smooth::FilterEstimate {
        position: fvm_shared::bigint::BigInt::from_signed_bytes_le(&est_num.position.bytes),
        velocity: fvm_shared::bigint::BigInt::from_signed_bytes_le(&est_num.velocity.bytes),
    };
    let denom = fvm_shared::smooth::FilterEstimate {
        position: fvm_shared::bigint::BigInt::from_signed_bytes_le(&est_denom.position.bytes),
        velocity: fvm_shared::bigint::BigInt::from_signed_bytes_le(&est_denom.velocity.bytes),
    };
    let sum = fvm_shared::smooth::extrapolated_cum_sum_of_ratio(delta, relative_start, &num, &denom);
    BigNum { bytes: sum.to_signed_bytes_le() }
}

} // verus!
