//! Integer notions that the contracts of this crate are written in.

use vstd::prelude::*;
use vstd::arithmetic::power2::{lemma2_to64, lemma_pow2_adds, pow2};

verus! {

/// Two to the power 128: the scale of a fixed-point number with 128
/// fractional bits.
pub open spec fn q128() -> int {
    0x1_0000_0000_0000_0000_0000_0000_0000_0000int
}

/// Two to the power 20: the scale of a sector quality.
pub open spec fn q20() -> int {
    0x10_0000
}

/// The quotient of `a` by `b`, rounded towards negative infinity.
pub open spec fn floor_div(a: int, b: int) -> int
    recommends
        b != 0,
{
    if b > 0 {
        a / b
    } else {
        (-a) / (-b)
    }
}

/// The larger of two integers.
pub open spec fn max_of(a: int, b: int) -> int {
    if a <= b {
        b
    } else {
        a
    }
}

/// The smaller of two integers.
pub open spec fn min_of(a: int, b: int) -> int {
    if a <= b {
        a
    } else {
        b
    }
}

/// The powers of two that the fixed-point scales of this crate are.
pub proof fn lemma_pow2_scales()
    ensures
        pow2(20) == q20(),
        pow2(78) == 302231454903657293676544int,
        pow2(128) == q128(),
{
    lemma2_to64();
    lemma_pow2_adds(64, 14);
    lemma_pow2_adds(64, 64);
}

} // verus!
