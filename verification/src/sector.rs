//! What is recorded of a sector, as far as its power and its termination
//! fee depend on it.

use vstd::prelude::*;
use crate::bigint::BigNum;
use crate::econ::TokenAmount;

verus! {

/// A count of epochs, the chain's unit of time, or the number of an epoch.
pub type ChainEpoch = i64;

/// Space-time taken by deals: bytes times epochs.
pub type DealWeight = BigNum;

/// Storage power, in bytes.
pub type StoragePower = BigNum;

/// The quality of a sector, as a fixed-point number with 20 fractional bits.
pub type SectorQuality = BigNum;

/// The sizes that a sector can have.
#[derive(Clone, Copy, Debug, PartialEq, Eq, Structural)]
pub enum SectorSize {
    _2KiB,
    _8MiB,
    _512MiB,
    _32GiB,
    _64GiB,
}

impl SectorSize {
    /// The size in bytes.
    pub open spec fn bytes(self) -> int {
        match self {
            SectorSize::_2KiB => 0x800,
            SectorSize::_8MiB => 0x80_0000,
            SectorSize::_512MiB => 0x2000_0000,
            SectorSize::_32GiB => 0x8_0000_0000,
            SectorSize::_64GiB => 0x10_0000_0000,
        }
    }

    /// The size in bytes.
    pub fn as_u64(self) -> (r: u64)
        ensures
            r == self.bytes(),
    {
        match self {
            SectorSize::_2KiB => 0x800,
            SectorSize::_8MiB => 0x80_0000,
            SectorSize::_512MiB => 0x2000_0000,
            SectorSize::_32GiB => 0x8_0000_0000,
            SectorSize::_64GiB => 0x10_0000_0000,
        }
    }

    /// The sector size of `bytes` bytes, if there is one.
    pub fn from_u64(bytes: u64) -> (r: Option<SectorSize>)
        ensures
            match r {
                Some(size) => size.bytes() == bytes,
                None => forall|size: SectorSize| size.bytes() != bytes,
            },
    {
        if bytes == 0x800 {
            Some(SectorSize::_2KiB)
        } else if bytes == 0x80_0000 {
            Some(SectorSize::_8MiB)
        } else if bytes == 0x2000_0000 {
            Some(SectorSize::_512MiB)
        } else if bytes == 0x8_0000_0000 {
            Some(SectorSize::_32GiB)
        } else if bytes == 0x10_0000_0000 {
            Some(SectorSize::_64GiB)
        } else {
            None
        }
    }
}

/// What the chain records of a proven sector, without the fields that play
/// no part in its power or its termination fee.
#[derive(Clone, Debug, PartialEq, Eq)]
pub struct SectorOnChainInfo {
    /// Epoch during which the sector proof was accepted.
    pub activation: ChainEpoch,
    /// Epoch during which the sector expires.
    pub expiration: ChainEpoch,
    /// Integral of active deals over the sector's lifetime.
    pub deal_weight: DealWeight,
    /// Integral of active verified deals over the sector's lifetime.
    pub verified_deal_weight: DealWeight,
    /// Expected reward of one day, computed when the sector was activated,
    /// updated or extended.
    pub expected_day_reward: TokenAmount,
    /// Expected reward of twenty days, computed at the same time.
    pub expected_storage_pledge: TokenAmount,
    /// Epoch at which the sector's power was last computed.
    pub power_base_epoch: ChainEpoch,
    /// The largest day reward that the sector had in earlier lives; zero
    /// for a new sector.
    pub replaced_day_reward: TokenAmount,
}

impl Default for SectorOnChainInfo {
    /// The record with every field zero.
    fn default() -> (r: SectorOnChainInfo)
        ensures
            r.activation == 0,
            r.expiration == 0,
            r.deal_weight@ == 0,
            r.verified_deal_weight@ == 0,
            r.expected_day_reward@ == 0,
            r.expected_storage_pledge@ == 0,
            r.power_base_epoch == 0,
            r.replaced_day_reward@ == 0,
    {
        SectorOnChainInfo {
            activation: 0,
            expiration: 0,
            deal_weight: BigNum::zero(),
            verified_deal_weight: BigNum::zero(),
            expected_day_reward: TokenAmount::zero(),
            expected_storage_pledge: TokenAmount::zero(),
            power_base_epoch: 0,
            replaced_day_reward: TokenAmount::zero(),
        }
    }
}

} // verus!
