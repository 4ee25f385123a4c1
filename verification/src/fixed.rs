//! Fixed-point quantities.
//!
//! Lengths are whole micro-units, times are whole microseconds, and rates are
//! micro-units per second, so every value is an integer and every rounding is
//! stated.

use vstd::prelude::*;

verus! {

/// One length unit, in micro-units.
pub const UNIT: i64 = 1_000_000;

/// One second, in microseconds.
pub const SECOND: u32 = 1_000_000;

/// The value of `i64` nearest to `v`.
pub open spec fn saturate(v: int) -> int {
    if v < i64::MIN {
        i64::MIN as int
    } else if v > i64::MAX {
        i64::MAX as int
    } else {
        v
    }
}

/// What a rate of `rate` per second amounts to over `dt` microseconds, rounded
/// toward zero.
pub open spec fn scaled(rate: int, dt: int) -> int {
    if rate >= 0 {
        rate * dt / 1_000_000
    } else {
        -((-rate) * dt / 1_000_000)
    }
}

/// Rounding toward zero never moves a value away from zero, and never changes
/// its sign.
pub proof fn scaled_sign(rate: int, dt: int)
    requires
        dt >= 0,
    ensures
        rate >= 0 ==> scaled(rate, dt) >= 0,
        rate <= 0 ==> scaled(rate, dt) <= 0,
        scaled(-rate, dt) == -scaled(rate, dt),
        scaled(rate, 0) == 0,
        scaled(0, dt) == 0,
{
    if rate >= 0 {
        assert(rate * dt >= 0) by (nonlinear_arith)
            requires
                rate >= 0,
                dt >= 0,
        ;
    } else {
        assert((-rate) * dt >= 0) by (nonlinear_arith)
            requires
                rate < 0,
                dt >= 0,
        ;
    }
    assert(rate * 0 == 0 && (-rate) * 0 == 0) by (nonlinear_arith);
    assert(0 * dt == 0) by (nonlinear_arith);
}

/// Clamps a wide value into `i64`.
pub fn saturating(v: i128) -> (r: i64)
    ensures
        r == saturate(v as int),
{
    if v < -0x8000_0000_0000_0000 {
        i64::MIN
    } else if v > 0x7fff_ffff_ffff_ffff {
        i64::MAX
    } else {
        v as i64
    }
}

/// Computes `scaled(rate, dt)` without overflow.
pub fn scale(rate: i64, dt: u32) -> (r: i128)
    ensures
        r == scaled(rate as int, dt as int),
        -0x8000_0000_0000_0000_0000_0000 <= r <= 0x8000_0000_0000_0000_0000_0000,
{
    let wide: i128 = rate as i128;
    let span: i128 = dt as i128;
    if rate >= 0 {
        assert(0 <= wide * span <= 0x8000_0000_0000_0000 * 0x1_0000_0000) by (nonlinear_arith)
            requires
                0 <= wide < 0x8000_0000_0000_0000,
                0 <= span < 0x1_0000_0000,
        ;
        wide * span / 1_000_000
    } else {
        let flipped: i128 = -wide;
        assert(0 <= flipped * span <= 0x8000_0000_0000_0000 * 0x1_0000_0000) by (nonlinear_arith)
            requires
                0 <= flipped <= 0x8000_0000_0000_0000,
                0 <= span < 0x1_0000_0000,
        ;
        -(flipped * span / 1_000_000)
    }
}

/// Adds a wide displacement to a coordinate, saturating at the limits of `i64`.
pub fn offset(base: i64, by: i128) -> (r: i64)
    ensures
        r == saturate(base + by),
{
    if by > 0x1_0000_0000_0000_0000 {
        i64::MAX
    } else if by < -0x1_0000_0000_0000_0000 {
        i64::MIN
    } else {
        saturating(base as i128 + by)
    }
}

} // verus!
