//! Fixed-point arithmetic in millionths.
//!
//! A score, weight, multiplier or confidence `x` is held as the integer
//! `x * 1_000_000`, so `ONE` stands for 1.0 and `HALF` for 0.5. Products and
//! quotients round towards zero.

use vstd::prelude::*;

verus! {

/// The fixed-point representation of 1.0.
pub const ONE: u32 = 1_000_000;

/// The fixed-point representation of 0.5.
pub const HALF: u32 = 500_000;

/// The product of two fixed-point values, rounded towards zero.
pub open spec fn spec_scale(value: int, factor: int) -> int {
    value * factor / (ONE as int)
}

/// The quotient of two counts as a fixed-point value, rounded towards zero.
pub open spec fn spec_ratio(part: int, whole: int) -> int {
    part * (ONE as int) / whole
}

/// Multiplying by a factor of at most 1.0 never increases a value.
pub proof fn lemma_scale_shrinks(value: int, factor: int)
    requires
        0 <= value,
        0 <= factor <= ONE,
    ensures
        0 <= spec_scale(value, factor) <= value,
        factor == ONE ==> spec_scale(value, factor) == value,
{
    assert(0 <= value * factor <= value * (ONE as int)) by (nonlinear_arith)
        requires
            0 <= value,
            0 <= factor <= ONE,
    ;
    assert(value * (ONE as int) / (ONE as int) == value) by (nonlinear_arith);
    assert(value * factor / (ONE as int) <= value * (ONE as int) / (ONE as int))
        by (nonlinear_arith)
        requires
            value * factor <= value * (ONE as int),
    ;
    assert(0 <= value * factor / (ONE as int)) by (nonlinear_arith)
        requires
            0 <= value * factor,
    ;
}

/// A part of a whole is at most 1.0 of it.
pub proof fn lemma_ratio_bounded(part: int, whole: int)
    requires
        0 <= part <= whole,
        0 < whole,
    ensures
        0 <= spec_ratio(part, whole) <= ONE,
        part == whole ==> spec_ratio(part, whole) == ONE,
{
    assert(0 <= part * (ONE as int) <= whole * (ONE as int)) by (nonlinear_arith)
        requires
            0 <= part <= whole,
    ;
    assert(whole * (ONE as int) / whole == ONE as int) by (nonlinear_arith)
        requires
            0 < whole,
    ;
    assert(part * (ONE as int) / whole <= whole * (ONE as int) / whole) by (nonlinear_arith)
        requires
            part * (ONE as int) <= whole * (ONE as int),
            0 < whole,
    ;
    assert(0 <= part * (ONE as int) / whole) by (nonlinear_arith)
        requires
            0 <= part * (ONE as int),
            0 < whole,
    ;
}

/// `value * factor`, for a factor of at most 1.0.
pub fn scale(value: u32, factor: u32) -> (scaled: u32)
    requires
        factor <= ONE,
    ensures
        scaled == spec_scale(value as int, factor as int),
        scaled <= value,
{
    proof {
        lemma_scale_shrinks(value as int, factor as int);
        assert(value as int * factor as int <= 0xffff_ffff * 1_000_000) by (nonlinear_arith)
            requires
                0 <= value <= 0xffff_ffff,
                0 <= factor <= 1_000_000,
        ;
    }
    ((value as u64 * factor as u64) / (ONE as u64)) as u32
}

/// `part / whole` as a fixed-point value, for a part of a non-empty whole.
pub fn ratio(part: u32, whole: u32) -> (r: u32)
    requires
        part <= whole,
        0 < whole,
    ensures
        r == spec_ratio(part as int, whole as int),
        r <= ONE,
{
    proof {
        lemma_ratio_bounded(part as int, whole as int);
        assert(part as int * 1_000_000 <= 0xffff_ffff * 1_000_000) by (nonlinear_arith)
            requires
                0 <= part <= 0xffff_ffff,
        ;
    }
    ((part as u64 * ONE as u64) / (whole as u64)) as u32
}

} // verus!
