//! The reward that a sector's power is expected to earn, and the fee for
//! terminating a sector before it expires.

use vstd::prelude::*;
use crate::arith::{floor_div, lemma_pow2_scales, max_of, min_of, q128};
use crate::bigint::BigNum;
use crate::econ::TokenAmount;
use crate::quality::{qa_power, qa_power_for_sector};
use crate::sector::{ChainEpoch, SectorOnChainInfo, SectorSize, StoragePower};
use crate::smooth::{
    cum_sum_defined, cum_sum_is_defined, extrapolated_cum_sum, extrapolated_cum_sum_of_ratio,
    Estimate, FilterEstimate, PRECISION,
};

verus! {

/// Seconds that an epoch lasts.
pub const EPOCH_DURATION_SECONDS: i64 = 30;

pub const SECONDS_IN_HOUR: i64 = 3600;

pub const SECONDS_IN_DAY: i64 = 86400;

pub const SECONDS_IN_YEAR: i64 = 31556925;

pub const EPOCHS_IN_HOUR: i64 = 120;

pub const EPOCHS_IN_DAY: i64 = 2880;

pub const EPOCHS_IN_YEAR: i64 = 1051897;

/// Maximum number of lifetime days penalized when a sector is terminated.
pub const TERMINATION_LIFETIME_CAP: ChainEpoch = 140;

/// The epochs over which the reward is projected for the least fee that a
/// termination costs: three and a half days.
pub const TERMINATION_PENALTY_LOWER_BOUND_PROJECTIONS_PERIOD: ChainEpoch = 10080;

/// The share of the reward expected over a sector's age that is charged:
/// numerator and denominator.
pub const TERMINATION_REWARD_FACTOR_NUM: u32 = 1;

pub const TERMINATION_REWARD_FACTOR_DENOM: u32 = 2;

/// The lengths of an hour, a day and a year in epochs are the whole
/// quotients of their lengths in seconds by the length of an epoch; the
/// lower-bound projection period is three and a half days, and the
/// lifetime cap 140 days.
pub proof fn lemma_epoch_counts()
    ensures
        EPOCHS_IN_HOUR == SECONDS_IN_HOUR / EPOCH_DURATION_SECONDS,
        EPOCHS_IN_DAY == SECONDS_IN_DAY / EPOCH_DURATION_SECONDS,
        EPOCHS_IN_YEAR == SECONDS_IN_YEAR / EPOCH_DURATION_SECONDS,
        TERMINATION_PENALTY_LOWER_BOUND_PROJECTIONS_PERIOD == (EPOCHS_IN_DAY * 35) / 10,
        lifetime_cap() == 403200,
{
}

/// The most epochs of a sector's life that a termination is charged for.
pub open spec fn lifetime_cap() -> int {
    TERMINATION_LIFETIME_CAP * EPOCHS_IN_DAY
}

/// The reward that `qa_power` earns where `cum_sum` is the sum, with 128
/// fractional bits, of reward over network power: their product without
/// its fraction, and never less than zero.
pub open spec fn reward_for_cum_sum(qa_power: int, cum_sum: int) -> int {
    max_of((qa_power * cum_sum) / q128(), 0)
}

/// Whether the reward of a span of `duration` epochs can be projected over
/// the network power `power`: either the power is zero now, or the sum of
/// a ratio over it is defined.
pub open spec fn projection_defined(power: Estimate, duration: int) -> bool {
    power.point_value() != 0 ==> cum_sum_defined(duration, 0, power)
}

/// The reward that `qa_power` is expected to earn over `duration` epochs.
/// Where the network power is zero now, it is the reward of one epoch.
pub open spec fn expected_reward(reward: Estimate, power: Estimate, qa_power: int, duration: int) -> int {
    if power.point_value() == 0 {
        reward.point_value()
    } else {
        reward_for_cum_sum(qa_power, extrapolated_cum_sum(duration, 0, reward, power))
    }
}

/// The age of a sector as far as it is charged for.
pub open spec fn capped_age(sector_age: int) -> int {
    min_of(sector_age, lifetime_cap())
}

/// The age of the replaced sector as far as it is charged for: what the
/// sector's own age leaves below the cap.
pub open spec fn relevant_replaced_age(sector_age: int, replaced_sector_age: int) -> int {
    min_of(replaced_sector_age, lifetime_cap() - capped_age(sector_age))
}

/// The reward that the sector, and the one it replaced, were expected to
/// earn over the epochs that are charged for, in day rewards times epochs.
pub open spec fn reward_over_age(
    day_reward: int,
    sector_age: int,
    replaced_day_reward: int,
    replaced_sector_age: int,
) -> int {
    day_reward * capped_age(sector_age) + replaced_day_reward * relevant_replaced_age(
        sector_age,
        replaced_sector_age,
    )
}

/// The part of the fee that grows with age: the charged share of the
/// reward over the age, per day. Each division rounds towards negative
/// infinity.
pub open spec fn age_penalty(
    day_reward: int,
    sector_age: int,
    replaced_day_reward: int,
    replaced_sector_age: int,
) -> int {
    let expected = reward_over_age(day_reward, sector_age, replaced_day_reward, replaced_sector_age);
    let penalized = floor_div(
        expected * TERMINATION_REWARD_FACTOR_NUM,
        TERMINATION_REWARD_FACTOR_DENOM as int,
    );
    floor_div(penalized, EPOCHS_IN_DAY as int)
}

/// The fee for a termination: the twenty-day reward plus the part that
/// grows with age, and at least `lower_bound`.
pub open spec fn termination_penalty(
    lower_bound: int,
    twenty_day_reward: int,
    day_reward: int,
    sector_age: int,
    replaced_day_reward: int,
    replaced_sector_age: int,
) -> int {
    max_of(
        lower_bound,
        twenty_day_reward + age_penalty(
            day_reward,
            sector_age,
            replaced_day_reward,
            replaced_sector_age,
        ),
    )
}

/// The fee for terminating, at `epoch`, a sector of the given size and
/// record, under the given estimates of network power and reward.
pub open spec fn termination_fee(
    epoch: int,
    size: SectorSize,
    power: Estimate,
    reward: Estimate,
    activation: int,
    expiration: int,
    deal_weight: int,
    verified_deal_weight: int,
    expected_day_reward: int,
    expected_storage_pledge: int,
    power_base_epoch: int,
    replaced_day_reward: int,
) -> int {
    let sector_power = qa_power(
        size.bytes(),
        expiration - power_base_epoch,
        deal_weight,
        verified_deal_weight,
    );
    termination_penalty(
        expected_reward(
            reward,
            power,
            sector_power,
            TERMINATION_PENALTY_LOWER_BOUND_PROJECTIONS_PERIOD as int,
        ),
        expected_storage_pledge,
        expected_day_reward,
        epoch - power_base_epoch,
        replaced_day_reward,
        power_base_epoch - activation,
    )
}

/// Computes [`projection_defined`], so that a caller can test it before
/// it asks for a reward or a penalty.
pub fn projection_is_defined(
    network_qa_power_estimate: &FilterEstimate,
    projection_duration: ChainEpoch,
) -> (defined: bool)
    ensures
        defined == projection_defined(network_qa_power_estimate@, projection_duration as int),
{
    network_qa_power_estimate.estimate().is_zero() || cum_sum_is_defined(
        projection_duration,
        0,
        network_qa_power_estimate,
    )
}

/// The reward that `qa_sector_power` earns where `cum_sum` is the sum of
/// reward over network power for the span in question.
pub fn reward_from_cum_sum(qa_sector_power: &StoragePower, cum_sum: &BigNum) -> (reward: TokenAmount)
    ensures
        reward@ == reward_for_cum_sum(qa_sector_power@, cum_sum@),
{
    proof {
        lemma_pow2_scales();
    }
    let br128 = qa_sector_power.mul(cum_sum);
    TokenAmount::from_atto(br128.shr(PRECISION).max(BigNum::zero()))
}

/// The projected block reward a sector would earn over some period: the
/// sum, over the epochs of the period, of the estimated reward over the
/// estimated network power, times the sector's power; never less than
/// zero. Where the network power is zero now, it is the estimated reward
/// of one epoch.
pub fn expected_reward_for_power(
    reward_estimate: &FilterEstimate,
    network_qa_power_estimate: &FilterEstimate,
    qa_sector_power: &StoragePower,
    projection_duration: ChainEpoch,
) -> (reward: TokenAmount)
    requires
        projection_defined(network_qa_power_estimate@, projection_duration as int),
    ensures
        reward@ == expected_reward(
            reward_estimate@,
            network_qa_power_estimate@,
            qa_sector_power@,
            projection_duration as int,
        ),
{
    let network_qa_power_smoothed = network_qa_power_estimate.estimate();

    if network_qa_power_smoothed.is_zero() {
        return TokenAmount::from_atto(reward_estimate.estimate());
    }
    let expected_reward_for_proving_period = extrapolated_cum_sum_of_ratio(
        projection_duration,
        0,
        reward_estimate,
        network_qa_power_estimate,
    );
    reward_from_cum_sum(qa_sector_power, &expected_reward_for_proving_period)
}

/// The least fee that a termination costs: the reward that the sector's
/// power is expected to earn over the lower-bound projection period.
pub fn pledge_penalty_for_termination_lower_bound(
    reward_estimate: &FilterEstimate,
    network_qa_power_estimate: &FilterEstimate,
    qa_sector_power: &StoragePower,
) -> (penalty: TokenAmount)
    requires
        projection_defined(
            network_qa_power_estimate@,
            TERMINATION_PENALTY_LOWER_BOUND_PROJECTIONS_PERIOD as int,
        ),
    ensures
        penalty@ == expected_reward(
            reward_estimate@,
            network_qa_power_estimate@,
            qa_sector_power@,
            TERMINATION_PENALTY_LOWER_BOUND_PROJECTIONS_PERIOD as int,
        ),
{
    expected_reward_for_power(
        reward_estimate,
        network_qa_power_estimate,
        qa_sector_power,
        TERMINATION_PENALTY_LOWER_BOUND_PROJECTIONS_PERIOD,
    )
}

/// Penalty to locked pledge collateral for the termination of a sector
/// before scheduled expiry. `sector_age` is the time between the sector's
/// activation and its termination, `replaced_sector_age` the age that the
/// sector it replaced had reached. Both are elapsed time: a negative age
/// is not accepted.
pub fn pledge_penalty_for_termination(
    day_reward: &TokenAmount,
    sector_age: ChainEpoch,
    twenty_day_reward_at_activation: &TokenAmount,
    network_qa_power_estimate: &FilterEstimate,
    qa_sector_power: &StoragePower,
    reward_estimate: &FilterEstimate,
    replaced_day_reward: &TokenAmount,
    replaced_sector_age: ChainEpoch,
) -> (penalty: TokenAmount)
    requires
        sector_age >= 0,
        replaced_sector_age >= 0,
        projection_defined(
            network_qa_power_estimate@,
            TERMINATION_PENALTY_LOWER_BOUND_PROJECTIONS_PERIOD as int,
        ),
    ensures
        penalty@ == termination_penalty(
            expected_reward(
                reward_estimate@,
                network_qa_power_estimate@,
                qa_sector_power@,
                TERMINATION_PENALTY_LOWER_BOUND_PROJECTIONS_PERIOD as int,
            ),
            twenty_day_reward_at_activation@,
            day_reward@,
            sector_age as int,
            replaced_day_reward@,
            replaced_sector_age as int,
        ),
{
    let lifetime_cap = TERMINATION_LIFETIME_CAP * EPOCHS_IN_DAY;
    let capped_sector_age = if sector_age <= lifetime_cap {
        sector_age
    } else {
        lifetime_cap
    };

    let expected_reward = day_reward.mul_i64(capped_sector_age);

    let headroom = lifetime_cap - capped_sector_age;
    let relevant_replaced_age = if replaced_sector_age <= headroom {
        replaced_sector_age
    } else {
        headroom
    };

    let expected_reward = expected_reward.add(&replaced_day_reward.mul_i64(relevant_replaced_age));

    let penalized_reward = expected_reward.mul_i64(TERMINATION_REWARD_FACTOR_NUM as i64);
    let penalized_reward = penalized_reward.div_floor_i64(TERMINATION_REWARD_FACTOR_DENOM as i64);

    pledge_penalty_for_termination_lower_bound(
        reward_estimate,
        network_qa_power_estimate,
        qa_sector_power,
    ).max(twenty_day_reward_at_activation.add(&penalized_reward.div_floor_i64(EPOCHS_IN_DAY)))
}

/// The fee for terminating a sector at `epoch`: its quality-adjusted power
/// from its size, its deals and what is left of its life, then the penalty
/// for its age since its power was last computed, with the age before
/// that as the age of the sector it replaced. Positions and velocities are
/// fixed-point numbers with 128 fractional bits. The sector must expire
/// after its power was computed, and neither age may be negative.
pub fn terminate_sectors(
    epoch: i64,
    sector_size: SectorSize,
    qap_position: BigNum,
    qap_velocity: BigNum,
    reward_position: BigNum,
    reward_velocity: BigNum,
    activation: i64,
    expiration: i64,
    deal_weight: BigNum,
    verified_deal_weight: BigNum,
    expected_day_reward: BigNum,
    expected_storage_pledge: BigNum,
    power_base_epoch: i64,
    replaced_day_reward: BigNum,
) -> (fee: TokenAmount)
    requires
        0 < expiration - power_base_epoch <= i64::MAX,
        0 <= epoch - power_base_epoch <= i64::MAX,
        0 <= power_base_epoch - activation <= i64::MAX,
        projection_defined(
            (Estimate { position: qap_position@, velocity: qap_velocity@ }),
            TERMINATION_PENALTY_LOWER_BOUND_PROJECTIONS_PERIOD as int,
        ),
    ensures
        fee@ == termination_fee(
            epoch as int,
            sector_size,
            (Estimate { position: qap_position@, velocity: qap_velocity@ }),
            (Estimate { position: reward_position@, velocity: reward_velocity@ }),
            activation as int,
            expiration as int,
            deal_weight@,
            verified_deal_weight@,
            expected_day_reward@,
            expected_storage_pledge@,
            power_base_epoch as int,
            replaced_day_reward@,
        ),
{
    let network_qa_power_estimate = FilterEstimate { position: qap_position, velocity: qap_velocity };
    let reward_estimate = FilterEstimate { position: reward_position, velocity: reward_velocity };
    let sector = SectorOnChainInfo {
        activation,
        expiration,
        deal_weight,
        verified_deal_weight,
        expected_day_reward: TokenAmount::from_atto(expected_day_reward),
        expected_storage_pledge: TokenAmount::from_atto(expected_storage_pledge),
        power_base_epoch,
        replaced_day_reward: TokenAmount::from_atto(replaced_day_reward),
    };
    let current_epoch = epoch;
    let sector_power = qa_power_for_sector(sector_size, &sector);

    pledge_penalty_for_termination(
        &sector.expected_day_reward,
        current_epoch - sector.power_base_epoch,
        &sector.expected_storage_pledge,
        &network_qa_power_estimate,
        &sector_power,
        &reward_estimate,
        &sector.replaced_day_reward,
        sector.power_base_epoch - sector.activation,
    )
}

/// Where position and velocity of the network power are both zero, the
/// projection is defined and the expected reward is the whole part of the
/// reward's position, whatever the sector's power and the duration.
pub proof fn lemma_zero_power_fallback(reward: Estimate, power: Estimate, qa_power: int, duration: int)
    requires
        power.position == 0,
        power.velocity == 0,
    ensures
        projection_defined(power, duration),
        expected_reward(reward, power, qa_power, duration) == reward.position / q128(),
{
}

/// The expected reward is not negative, unless it is the fallback for a
/// network without power and the reward's position is negative.
pub proof fn lemma_expected_reward_not_negative(
    reward: Estimate,
    power: Estimate,
    qa_power: int,
    duration: int,
)
    requires
        power.point_value() != 0 || reward.position >= 0,
    ensures
        expected_reward(reward, power, qa_power, duration) >= 0,
{
}

/// The fee is not negative, unless the network has no power and the
/// reward's position is negative.
pub proof fn lemma_fee_not_negative(
    epoch: int,
    size: SectorSize,
    power: Estimate,
    reward: Estimate,
    activation: int,
    expiration: int,
    deal_weight: int,
    verified_deal_weight: int,
    expected_day_reward: int,
    expected_storage_pledge: int,
    power_base_epoch: int,
    replaced_day_reward: int,
)
    requires
        power.point_value() != 0 || reward.position >= 0,
    ensures
        termination_fee(
            epoch,
            size,
            power,
            reward,
            activation,
            expiration,
            deal_weight,
            verified_deal_weight,
            expected_day_reward,
            expected_storage_pledge,
            power_base_epoch,
            replaced_day_reward,
        ) >= 0,
{
}

/// The fee is never less than the lower bound. It is never less than the
/// twenty-day reward either, where neither day reward is negative; and
/// where both day rewards are zero it is the larger of the lower bound and
/// the twenty-day reward.
pub proof fn lemma_penalty_floors(
    lower_bound: int,
    twenty_day_reward: int,
    day_reward: int,
    sector_age: int,
    replaced_day_reward: int,
    replaced_sector_age: int,
)
    requires
        sector_age >= 0,
        replaced_sector_age >= 0,
    ensures
        termination_penalty(
            lower_bound,
            twenty_day_reward,
            day_reward,
            sector_age,
            replaced_day_reward,
            replaced_sector_age,
        ) >= lower_bound,
        day_reward >= 0 && replaced_day_reward >= 0 ==> termination_penalty(
            lower_bound,
            twenty_day_reward,
            day_reward,
            sector_age,
            replaced_day_reward,
            replaced_sector_age,
        ) >= twenty_day_reward,
        day_reward == 0 && replaced_day_reward == 0 ==> termination_penalty(
            lower_bound,
            twenty_day_reward,
            day_reward,
            sector_age,
            replaced_day_reward,
            replaced_sector_age,
        ) == max_of(lower_bound, twenty_day_reward),
{
    let own = capped_age(sector_age);
    let replaced = relevant_replaced_age(sector_age, replaced_sector_age);
    if day_reward >= 0 && replaced_day_reward >= 0 {
        assert(day_reward * own >= 0) by (nonlinear_arith)
            requires
                day_reward >= 0,
                own >= 0,
        ;
        assert(replaced_day_reward * replaced >= 0) by (nonlinear_arith)
            requires
                replaced_day_reward >= 0,
                replaced >= 0,
        ;
    }
}

/// With all else fixed, a larger age never makes the fee smaller, where
/// the day reward is not negative and either the replaced sector's day
/// reward is no larger than it or the two ages together stay below the
/// lifetime cap.
pub proof fn lemma_penalty_grows_with_age(
    lower_bound: int,
    twenty_day_reward: int,
    day_reward: int,
    younger: int,
    older: int,
    replaced_day_reward: int,
    replaced_sector_age: int,
)
    requires
        0 <= younger <= older,
        replaced_sector_age >= 0,
        day_reward >= 0,
        replaced_day_reward <= day_reward || capped_age(older) + replaced_sector_age
            <= lifetime_cap(),
    ensures
        termination_penalty(
            lower_bound,
            twenty_day_reward,
            day_reward,
            younger,
            replaced_day_reward,
            replaced_sector_age,
        ) <= termination_penalty(
            lower_bound,
            twenty_day_reward,
            day_reward,
            older,
            replaced_day_reward,
            replaced_sector_age,
        ),
{
    let own_1 = capped_age(younger);
    let own_2 = capped_age(older);
    let replaced_1 = relevant_replaced_age(younger, replaced_sector_age);
    let replaced_2 = relevant_replaced_age(older, replaced_sector_age);
    let gained = own_2 - own_1;
    let lost = replaced_1 - replaced_2;
    assert(0 <= lost <= gained);
    assert(day_reward * own_2 - day_reward * own_1 == day_reward * gained) by (nonlinear_arith)
        requires
            gained == own_2 - own_1,
    ;
    assert(replaced_day_reward * replaced_1 - replaced_day_reward * replaced_2
        == replaced_day_reward * lost) by (nonlinear_arith)
        requires
            lost == replaced_1 - replaced_2,
    ;
    assert(replaced_day_reward * lost <= day_reward * gained) by (nonlinear_arith)
        requires
            0 <= lost <= gained,
            day_reward >= 0,
            replaced_day_reward <= day_reward || lost == 0,
    ;
    assert(reward_over_age(day_reward, younger, replaced_day_reward, replaced_sector_age)
        <= reward_over_age(day_reward, older, replaced_day_reward, replaced_sector_age));
}

/// Beyond the lifetime cap the fee does not depend on the age.
pub proof fn lemma_penalty_flat_beyond_cap(
    lower_bound: int,
    twenty_day_reward: int,
    day_reward: int,
    one_age: int,
    other_age: int,
    replaced_day_reward: int,
    replaced_sector_age: int,
)
    requires
        one_age >= lifetime_cap(),
        other_age >= lifetime_cap(),
    ensures
        termination_penalty(
            lower_bound,
            twenty_day_reward,
            day_reward,
            one_age,
            replaced_day_reward,
            replaced_sector_age,
        ) == termination_penalty(
            lower_bound,
            twenty_day_reward,
            day_reward,
            other_age,
            replaced_day_reward,
            replaced_sector_age,
        ),
{
}

/// A sector that has reached the lifetime cap is charged nothing for the
/// sector it replaced, however old that one was and whatever it earned.
pub proof fn lemma_replaced_age_spent_at_cap(
    lower_bound: int,
    twenty_day_reward: int,
    day_reward: int,
    sector_age: int,
    replaced_day_reward: int,
    replaced_sector_age: int,
)
    requires
        sector_age >= lifetime_cap(),
        replaced_sector_age >= 0,
    ensures
        relevant_replaced_age(sector_age, replaced_sector_age) == 0,
        reward_over_age(day_reward, sector_age, replaced_day_reward, replaced_sector_age)
            == day_reward * lifetime_cap(),
        termination_penalty(
            lower_bound,
            twenty_day_reward,
            day_reward,
            sector_age,
            replaced_day_reward,
            replaced_sector_age,
        ) == termination_penalty(lower_bound, twenty_day_reward, day_reward, sector_age, 0, 0),
{
    assert(replaced_day_reward * 0 == 0);
    assert(0 * 0 == 0);
}

/// The fee is determined by the values of its inputs: two amounts that
/// each are the fee of the same termination are the same amount.
pub proof fn lemma_fee_determined(
    epoch: int,
    size: SectorSize,
    power: Estimate,
    reward: Estimate,
    activation: int,
    expiration: int,
    deal_weight: int,
    verified_deal_weight: int,
    expected_day_reward: int,
    expected_storage_pledge: int,
    power_base_epoch: int,
    replaced_day_reward: int,
    first: TokenAmount,
    second: TokenAmount,
)
    requires
        first@ == termination_fee(
            epoch,
            size,
            power,
            reward,
            activation,
            expiration,
            deal_weight,
            verified_deal_weight,
            expected_day_reward,
            expected_storage_pledge,
            power_base_epoch,
            replaced_day_reward,
        ),
        second@ == termination_fee(
            epoch,
            size,
            power,
            reward,
            activation,
            expiration,
            deal_weight,
            verified_deal_weight,
            expected_day_reward,
            expected_storage_pledge,
            power_base_epoch,
            replaced_day_reward,
        ),
    ensures
        first@ == second@,
{
}

} // verus!
