//! Fast trigonometry on fixed-point values.
//!
//! `cos` is approximated by one parabola per period: the argument is
//! reduced to a phase `y` in `[-1/2, 1/2)` of a full turn and the result
//! is `16 * y * (|y| - 1/2)`, scaled to the working precision.  The
//! absolute error against the exact cosine stays below 0.06 over all
//! inputs, which the waveguide filtering renders inaudible.

use vstd::prelude::*;

verus! {

use crate::fixed::FX_ONE;
use crate::fixed::FX_HALF;
use crate::fixed::FX_QUARTER;
use crate::fixed::FX_LIM;
use crate::fixed::iabs;
use crate::fixed::fx_scale;
use crate::fixed::fx_mul_s;
use crate::fixed::fx_mul;
use crate::fixed::frac_floor;
use crate::fixed::lemma_fx_scale_bound;
use crate::fixed::lemma_fx_mul_bound;

/// Raw value of `1 / (2 * pi)`, rounded to the nearest representable.
pub const FX_RECIP_TAU: i64 = 42722830;

/// Raw value of `pi / 2`, rounded to the nearest representable.
pub const FX_HALF_PI: i64 = 421657428;

/// Largest raw magnitude accepted by the phase-domain helpers.
pub const FX_PHASE_LIM: i64 = 0x4_0000_0000_0000;

/// Largest raw magnitude accepted by the radian-domain helpers.
pub const FX_RAD_LIM: i64 = 0x1000_0000_0000;

/// Cosine of a phase measured in turns: `cos_norm_s(t) = cos(2 * pi * t)`
/// up to the parabolic approximation.
pub open spec fn cos_norm_s(t: int) -> int {
    let fr = (t + FX_QUARTER as int) % (FX_ONE as int);
    let y = fr - (FX_HALF as int);
    fx_scale(16 * y * (iabs(y) - FX_HALF as int))
}

/// Sine of a phase measured in turns: a quarter turn behind the cosine.
pub open spec fn sin_norm_s(t: int) -> int {
    cos_norm_s(t - FX_QUARTER as int)
}

/// Cosine of an angle in radians (the phase is the angle over `2 * pi`).
pub open spec fn fast_cos_s(x: int) -> int {
    cos_norm_s(fx_mul_s(x, FX_RECIP_TAU as int))
}

/// Sine of an angle in radians: the cosine a quarter period earlier.
pub open spec fn fast_sin_s(x: int) -> int {
    fast_cos_s(x - FX_HALF_PI as int)
}

/// The parabola values never leave `[-FX_ONE, FX_ONE]`.
pub proof fn lemma_cos_norm_bounded(t: int)
    ensures
        -FX_ONE <= cos_norm_s(t) <= FX_ONE,
{
    let fr = (t + FX_QUARTER as int) % (FX_ONE as int);
    vstd::arithmetic::div_mod::lemma_mod_division_less_than_divisor(
        t + FX_QUARTER as int,
        FX_ONE as int,
    );
    let y = fr - (FX_HALF as int);
    let ya = iabs(y);
    assert(-(FX_ONE as int) * (FX_ONE as int) <= 16 * y * (ya - FX_HALF as int) <= (FX_ONE as int)
        * (FX_ONE as int)) by (nonlinear_arith)
        requires
            -(FX_HALF as int) <= y && y < (FX_HALF as int),
            ya == iabs(y),
    ;
    lemma_fx_scale_bound(16 * y * (ya - FX_HALF as int), FX_ONE as int);
}

/// Cosine over one turn, exact per `cos_norm_s`.
pub fn cos_norm(t: i64) -> (r: i64)
    requires
        -FX_PHASE_LIM <= t <= FX_PHASE_LIM,
    ensures
        r as int == cos_norm_s(t as int),
        -FX_ONE <= r <= FX_ONE,
{
    let u: i64 = t + FX_QUARTER;
    let fr: i64 = frac_floor(u);
    let y: i64 = fr - FX_HALF;
    let ya: i64 = if y >= 0 {
        y
    } else {
        -y
    };
    let z: i64 = ya - FX_HALF;
    proof {
        assert(ya as int == iabs(y as int));
        assert(-(FX_ONE as int) * (FX_ONE as int) <= 16 * (y as int) * (z as int) && 16 * (
        y as int) * (z as int) <= (FX_ONE as int) * (FX_ONE as int)) by (nonlinear_arith)
            requires
                -(FX_HALF as int) <= (y as int) && (y as int) < (FX_HALF as int),
                z as int == iabs(y as int) - FX_HALF as int,
        ;
    }
    let p: i128 = 16 * (y as i128) * (z as i128);
    proof {
        lemma_fx_scale_bound(p as int, FX_ONE as int);
    }
    crate::fixed::fx_scale_i128(p)
}

/// Sine over one turn, exact per `sin_norm_s`.
pub fn sin_norm(t: i64) -> (r: i64)
    requires
        -FX_PHASE_LIM + FX_QUARTER <= t <= FX_PHASE_LIM,
    ensures
        r as int == sin_norm_s(t as int),
        -FX_ONE <= r <= FX_ONE,
{
    cos_norm(t - FX_QUARTER)
}

/// Cosine of an angle in radians, exact per `fast_cos_s`.
pub fn fast_cos(x: i64) -> (r: i64)
    requires
        -FX_RAD_LIM <= x <= FX_RAD_LIM,
    ensures
        r as int == fast_cos_s(x as int),
        -FX_ONE <= r <= FX_ONE,
{
    proof {
        lemma_fx_mul_bound(
            x as int,
            FX_RECIP_TAU as int,
            FX_RAD_LIM as int,
            FX_RECIP_TAU as int,
            FX_PHASE_LIM as int,
        );
    }
    let t: i64 = fx_mul(x, FX_RECIP_TAU);
    cos_norm(t)
}

/// Sine of an angle in radians, exact per `fast_sin_s`.
pub fn fast_sin(x: i64) -> (r: i64)
    requires
        -FX_RAD_LIM + FX_HALF_PI <= x <= FX_RAD_LIM,
    ensures
        r as int == fast_sin_s(x as int),
        -FX_ONE <= r <= FX_ONE,
{
    fast_cos(x - FX_HALF_PI)
}

/// Fused multiply-add on fixed-point values: `a * b + c`, the product
/// scaled per `fx_mul_s` before the addition.
pub fn madd(a: i64, b: i64, c: i64) -> (r: i64)
    requires
        -(FX_LIM as int) * (FX_ONE as int) <= (a as int) * (b as int) <= (FX_LIM as int) * (
        FX_ONE as int),
        i64::MIN < fx_mul_s(a as int, b as int) + c < i64::MAX,
    ensures
        r as int == fx_mul_s(a as int, b as int) + c,
{
    fx_mul(a, b) + c
}

} // verus!
