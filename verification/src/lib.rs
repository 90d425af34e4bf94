//! Quality-adjusted power of a storage sector and the fee owed when the
//! sector is terminated before it expires, in exact integer arithmetic.

pub mod arith;
pub mod bigint;
pub mod econ;
pub mod penalty;
pub mod quality;
pub mod sector;
pub mod smooth;

pub use penalty::{
    expected_reward_for_power, pledge_penalty_for_termination,
    pledge_penalty_for_termination_lower_bound, terminate_sectors,
};
pub use quality::{qa_power_for_sector, qa_power_for_weight, quality_for_weight};
pub use sector::SectorOnChainInfo;
