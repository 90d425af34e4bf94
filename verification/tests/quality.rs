use fvm_shared::bigint::BigInt;
use sector_penalty::bigint::BigNum;
use sector_penalty::econ::TokenAmount;
use sector_penalty::sector::{SectorOnChainInfo, SectorSize};
use sector_penalty::{qa_power_for_sector, qa_power_for_weight, quality_for_weight};

const SIZES: [SectorSize; 5] = [
    SectorSize::_2KiB,
    SectorSize::_8MiB,
    SectorSize::_512MiB,
    SectorSize::_32GiB,
    SectorSize::_64GiB,
];

fn num(x: i128) -> BigNum {
    BigNum { bytes: BigInt::from(x).to_signed_bytes_le() }
}

fn val(x: &BigNum) -> BigInt {
    BigInt::from_signed_bytes_le(&x.bytes)
}

fn sector(expiration: i64, power_base_epoch: i64, deal_weight: i128, verified: i128) -> SectorOnChainInfo {
    SectorOnChainInfo {
        activation: 0,
        expiration,
        deal_weight: num(deal_weight),
        verified_deal_weight: num(verified),
        expected_day_reward: TokenAmount::zero(),
        expected_storage_pledge: TokenAmount::zero(),
        power_base_epoch,
        replaced_day_reward: TokenAmount::zero(),
    }
}

#[test]
fn sector_sizes_in_bytes() {
    assert_eq!(SectorSize::_2KiB.as_u64(), 2 << 10);
    assert_eq!(SectorSize::_8MiB.as_u64(), 8 << 20);
    assert_eq!(SectorSize::_512MiB.as_u64(), 512 << 20);
    assert_eq!(SectorSize::_32GiB.as_u64(), 32 << 30);
    assert_eq!(SectorSize::_64GiB.as_u64(), 64 << 30);
}

#[test]
fn sector_size_from_bytes() {
    for size in SIZES {
        assert_eq!(SectorSize::from_u64(size.as_u64()), Some(size));
    }
    assert_eq!(SectorSize::from_u64(0), None);
    assert_eq!(SectorSize::from_u64(2047), None);
    assert_eq!(SectorSize::from_u64(1 << 34), None);
    assert_eq!(SectorSize::from_u64(u64::MAX), None);
}

#[test]
fn sector_without_deals_has_quality_one() {
    for size in SIZES {
        for duration in [1i64, 2880, 1051897, i64::MAX] {
            let quality = quality_for_weight(size, duration, &num(0), &num(0));
            assert_eq!(val(&quality), BigInt::from(1 << 20));
        }
    }
}

#[test]
fn sector_without_deals_has_its_size_as_power() {
    for size in SIZES {
        for duration in [1i64, 2880, 1051897, i64::MAX] {
            let power = qa_power_for_weight(size, duration, &num(0), &num(0));
            assert_eq!(val(&power), BigInt::from(size.as_u64()));
        }
    }
}

#[test]
fn sector_full_of_verified_deals_has_quality_ten() {
    for size in SIZES {
        for duration in [1i64, 2880, 1051897] {
            let space_time = size.as_u64() as i128 * duration as i128;
            let quality = quality_for_weight(size, duration, &num(0), &num(space_time));
            assert_eq!(val(&quality), BigInt::from(10 << 20));
            let power = qa_power_for_weight(size, duration, &num(0), &num(space_time));
            assert_eq!(val(&power), BigInt::from(10 * size.as_u64()));
        }
    }
}

#[test]
fn sector_full_of_plain_deals_has_quality_one() {
    let space_time = 2048 * 100;
    let quality = quality_for_weight(SectorSize::_2KiB, 100, &num(space_time), &num(0));
    assert_eq!(val(&quality), BigInt::from(1 << 20));
}

#[test]
fn quality_of_mixed_sector() {
    // 20480 byte-epochs: 6144 in deals, 4096 in verified deals.
    let quality = quality_for_weight(SectorSize::_2KiB, 10, &num(6144), &num(4096));
    assert_eq!(val(&quality), BigInt::from(2936012));
    let power = qa_power_for_weight(SectorSize::_2KiB, 10, &num(6144), &num(4096));
    assert_eq!(val(&power), BigInt::from(5734));
}

#[test]
fn quality_of_large_sector() {
    let unit = (1i128 << 36) * 1000;
    let power = qa_power_for_weight(SectorSize::_64GiB, 1_000_000, &num(7 * unit), &num(3 * unit));
    assert_eq!(val(&power), BigInt::from(70574866432u64));
}

#[test]
fn quality_when_deals_exceed_the_space_time() {
    // Space-time 2048; deals of 4096 leave -2048 of base space-time, and
    // (-2048 * 10 + 4096 * 10) << 20 / 2048 / 10 is one.
    let quality = quality_for_weight(SectorSize::_2KiB, 1, &num(4096), &num(0));
    assert_eq!(val(&quality), BigInt::from(1 << 20));
}

#[test]
fn negative_quality_rounds_down() {
    // Space-time 14336 with a verified weight of -1600: the weighted sum
    // is -640, and -640 << 20 / 14336 is -46811.4, rounded down to -46812;
    // a tenth of that is -4681.2, rounded down to -4682.
    let quality = quality_for_weight(SectorSize::_2KiB, 7, &num(0), &num(-1600));
    assert_eq!(val(&quality), BigInt::from(-4682));
    let weighted = BigInt::from((14336 + 1600) * 10 - 1600 * 100);
    let expected = fvm_shared::bigint::Integer::div_floor(
        &fvm_shared::bigint::Integer::div_floor(&(weighted << 20u32), &BigInt::from(14336)),
        &BigInt::from(10),
    );
    assert_eq!(val(&quality), expected);
}

#[test]
fn power_of_sector_counts_from_the_power_base_epoch() {
    let unit = 1i128 << 35;
    // Half of the 1000 epochs since the power base epoch are verified.
    let record = sector(3000, 2000, 0, 500 * unit);
    let power = qa_power_for_sector(SectorSize::_32GiB, &record);
    let direct = qa_power_for_weight(SectorSize::_32GiB, 1000, &num(0), &num(500 * unit));
    assert_eq!(val(&power), val(&direct));
    // (500 * 10 + 500 * 100) / 1000 / 10 = 5.5
    assert_eq!(val(&power), BigInt::from(11 * (1u64 << 34)));
    // From the activation the duration would be 3000 and the power smaller.
    let from_activation = qa_power_for_weight(SectorSize::_32GiB, 3000, &num(0), &num(500 * unit));
    assert_ne!(val(&power), val(&from_activation));
}
