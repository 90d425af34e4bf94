//! The quality of a sector and its quality-adjusted power.

use vstd::prelude::*;
use vstd::arithmetic::div_mod::lemma_div_multiples_vanish;
use crate::arith::{floor_div, lemma_pow2_scales, q20};
use crate::bigint::BigNum;
use crate::sector::{ChainEpoch, DealWeight, SectorOnChainInfo, SectorQuality, SectorSize, StoragePower};

verus! {

/// The number of fractional bits of a sector quality.
pub const SECTOR_QUALITY_PRECISION: i64 = 20;

/// Quality multiplier for committed capacity (no deals) in a sector.
pub const QUALITY_BASE_MULTIPLIER: i64 = 10;

/// Quality multiplier for unverified deals in a sector.
pub const DEAL_WEIGHT_MULTIPLIER: i64 = 10;

/// Quality multiplier for verified deals in a sector.
pub const VERIFIED_DEAL_WEIGHT_MULTIPLIER: i64 = 100;

/// The space-time of a sector, each part weighted by the multiplier of
/// what fills it: verified deals, other deals, or nothing.
pub open spec fn weighted_space_time(space_time: int, deal_weight: int, verified_weight: int) -> int {
    (space_time - (deal_weight + verified_weight)) * QUALITY_BASE_MULTIPLIER
        + deal_weight * DEAL_WEIGHT_MULTIPLIER
        + verified_weight * VERIFIED_DEAL_WEIGHT_MULTIPLIER
}

/// The quality of a sector of `size` bytes that lasts `duration` epochs:
/// the weighted space-time over the space-time, in units of the base
/// multiplier, as a fixed-point number with 20 fractional bits. Both
/// divisions round towards negative infinity.
pub open spec fn sector_quality(size: int, duration: int, deal_weight: int, verified_weight: int) -> int {
    let space_time = size * duration;
    let scaled = weighted_space_time(space_time, deal_weight, verified_weight) * q20();
    floor_div(floor_div(scaled, space_time), QUALITY_BASE_MULTIPLIER as int)
}

/// The quality-adjusted power of a sector: its size times its quality,
/// rounded towards negative infinity.
pub open spec fn qa_power(size: int, duration: int, deal_weight: int, verified_weight: int) -> int {
    (size * sector_quality(size, duration, deal_weight, verified_weight)) / q20()
}

/// The quality of a sector from its size, its duration and the space-time
/// of its deals. A sector full of verified deals has the quality of the
/// verified multiplier over the base multiplier, one without deals the
/// quality one. A sector without space-time has no quality: the duration
/// must be positive.
pub fn quality_for_weight(
    size: SectorSize,
    duration: ChainEpoch,
    deal_weight: &DealWeight,
    verified_weight: &DealWeight,
) -> (quality: SectorQuality)
    requires
        duration > 0,
    ensures
        quality@ == sector_quality(size.bytes(), duration as int, deal_weight@, verified_weight@),
{
    let sector_space_time = BigNum::from_u64(size.as_u64()).mul(&BigNum::from_i64(duration));
    let total_deal_space_time = deal_weight.add(verified_weight);

    let base_multiplier = BigNum::from_i64(QUALITY_BASE_MULTIPLIER);
    let weighted_base_space_time = sector_space_time.sub(&total_deal_space_time).mul(&base_multiplier);
    let weighted_deal_space_time = deal_weight.mul(&BigNum::from_i64(DEAL_WEIGHT_MULTIPLIER));
    let weighted_verified_space_time = verified_weight.mul(
        &BigNum::from_i64(VERIFIED_DEAL_WEIGHT_MULTIPLIER),
    );
    let weighted_sum_space_time = weighted_base_space_time.add(&weighted_deal_space_time).add(
        &weighted_verified_space_time,
    );
    let scaled_up_weighted_sum_space_time = weighted_sum_space_time.shl(
        SECTOR_QUALITY_PRECISION as u64,
    );
    proof {
        lemma_pow2_scales();
        assert(size.bytes() * duration > 0) by (nonlinear_arith)
            requires
                size.bytes() > 0,
                duration > 0,
        ;
    }
    scaled_up_weighted_sum_space_time.div_floor(&sector_space_time).div_floor(&base_multiplier)
}

/// The quality-adjusted power for a sector size and the space-time of its
/// deals.
pub fn qa_power_for_weight(
    size: SectorSize,
    duration: ChainEpoch,
    deal_weight: &DealWeight,
    verified_weight: &DealWeight,
) -> (power: StoragePower)
    requires
        duration > 0,
    ensures
        power@ == qa_power(size.bytes(), duration as int, deal_weight@, verified_weight@),
{
    let quality = quality_for_weight(size, duration, deal_weight, verified_weight);
    proof {
        lemma_pow2_scales();
    }
    BigNum::from_u64(size.as_u64()).mul(&quality).shr(SECTOR_QUALITY_PRECISION as u64)
}

/// The quality-adjusted power of a sector. Its duration runs from the
/// epoch at which its power was last computed to its expiration, and must
/// be positive.
pub fn qa_power_for_sector(size: SectorSize, sector: &SectorOnChainInfo) -> (power: StoragePower)
    requires
        0 < sector.expiration - sector.power_base_epoch <= i64::MAX,
    ensures
        power@ == qa_power(
            size.bytes(),
            sector.expiration - sector.power_base_epoch,
            sector.deal_weight@,
            sector.verified_deal_weight@,
        ),
{
    let duration = sector.expiration - sector.power_base_epoch;
    qa_power_for_weight(size, duration, &sector.deal_weight, &sector.verified_deal_weight)
}

/// Deals that are not verified weigh as much as empty space: the quality
/// does not depend on their weight.
pub proof fn lemma_plain_deals_weigh_as_empty_space(
    size: int,
    duration: int,
    deal_weight: int,
    verified_weight: int,
)
    ensures
        sector_quality(size, duration, deal_weight, verified_weight) == sector_quality(
            size,
            duration,
            0,
            verified_weight,
        ),
        qa_power(size, duration, deal_weight, verified_weight) == qa_power(
            size,
            duration,
            0,
            verified_weight,
        ),
{
    let space_time = size * duration;
    assert(weighted_space_time(space_time, deal_weight, verified_weight) == weighted_space_time(
        space_time,
        0,
        verified_weight,
    ));
}

/// A sector without deals has quality one, and its quality-adjusted power
/// is its size.
pub proof fn lemma_quality_without_deals(size: int, duration: int)
    requires
        size > 0,
        duration > 0,
    ensures
        sector_quality(size, duration, 0, 0) == q20(),
        qa_power(size, duration, 0, 0) == size,
{
    let space_time = size * duration;
    assert(space_time > 0) by (nonlinear_arith)
        requires
            space_time == size * duration,
            size > 0,
            duration > 0,
    ;
    let scaled = weighted_space_time(space_time, 0, 0) * q20();
    assert(scaled == space_time * (10 * q20())) by (nonlinear_arith)
        requires
            scaled == ((space_time - (0 + 0)) * 10 + 0 * 10 + 0 * 100) * q20(),
    ;
    lemma_div_multiples_vanish(10 * q20(), space_time);
    assert(scaled / space_time == 10 * q20());
    lemma_div_multiples_vanish(size, q20());
}

/// A sector whose whole space-time is taken by verified deals has
/// quality ten.
pub proof fn lemma_quality_all_verified(size: int, duration: int)
    requires
        size > 0,
        duration > 0,
    ensures
        sector_quality(size, duration, 0, size * duration) == 10 * q20(),
{
    let space_time = size * duration;
    assert(space_time > 0) by (nonlinear_arith)
        requires
            space_time == size * duration,
            size > 0,
            duration > 0,
    ;
    let scaled = weighted_space_time(space_time, 0, space_time) * q20();
    assert(scaled == space_time * (100 * q20())) by (nonlinear_arith)
        requires
            scaled == ((space_time - (0 + space_time)) * 10 + 0 * 10 + space_time * 100) * q20(),
    ;
    lemma_div_multiples_vanish(100 * q20(), space_time);
    assert(scaled / space_time == 100 * q20());
}

} // verus!
