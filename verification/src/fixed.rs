//! Signed fixed-point arithmetic: the number domain of the synthesis core.
//!
//! A value `v` is represented by the raw integer `v * FX_ONE`, rounded
//! toward zero, in an `i64`.  All products and quotients are computed in
//! 128-bit intermediates and scaled back with truncation toward zero, so
//! every operation has an exact integer meaning, stated by the spec
//! functions in this module.

use vstd::prelude::*;

verus! {

use vstd::arithmetic::div_mod::lemma_div_is_ordered;
use vstd::arithmetic::div_mod::lemma_div_pos_is_pos;
use vstd::arithmetic::div_mod::lemma_div_multiples_vanish;
use vstd::arithmetic::mul::lemma_mul_inequality;

/// Raw representation of 1.0: 28 fractional bits.
pub const FX_ONE: i64 = 268435456;

/// Raw representation of 0.5.
pub const FX_HALF: i64 = 134217728;

/// Raw representation of 0.25.
pub const FX_QUARTER: i64 = 67108864;

/// Largest raw magnitude the arithmetic helpers accept (2^58); far above
/// any signal the synthesis network produces, and small enough that all
/// 128-bit intermediates stay in range.
pub const FX_LIM: i64 = 0x400_0000_0000_0000;

/// Magnitude of an integer.
pub open spec fn iabs(x: int) -> int {
    if x >= 0 {
        x
    } else {
        -x
    }
}

/// Scaling a double-width product back to the working precision:
/// division by `FX_ONE`, rounded toward zero.
pub open spec fn fx_scale(p: int) -> int {
    if p >= 0 {
        p / (FX_ONE as int)
    } else {
        -((-p) / (FX_ONE as int))
    }
}

/// The fixed-point product of raw values `a` and `b`.
pub open spec fn fx_mul_s(a: int, b: int) -> int {
    fx_scale(a * b)
}

/// The fixed-point quotient of raw values `a` and `b` (for `b > 0`),
/// rounded toward zero.
pub open spec fn fx_div_s(a: int, b: int) -> int {
    if a >= 0 {
        (a * (FX_ONE as int)) / b
    } else {
        -(((-a) * (FX_ONE as int)) / b)
    }
}

/// Truncation toward zero is monotone in magnitude: a bound on the
/// double-width product gives a bound on the scaled result.
pub proof fn lemma_fx_scale_bound(p: int, bound: int)
    requires
        0 <= bound,
        -bound * (FX_ONE as int) <= p <= bound * (FX_ONE as int),
    ensures
        -bound <= fx_scale(p) <= bound,
{
    if p >= 0 {
        lemma_div_pos_is_pos(p, FX_ONE as int);
        lemma_div_is_ordered(p, bound * (FX_ONE as int), FX_ONE as int);
        lemma_div_multiples_vanish(bound, FX_ONE as int);
    } else {
        lemma_div_pos_is_pos(-p, FX_ONE as int);
        lemma_div_is_ordered(-p, bound * (FX_ONE as int), FX_ONE as int);
        lemma_div_multiples_vanish(bound, FX_ONE as int);
    }
}

/// Bound on a fixed-point product from bounds on its factors:
/// `|a| <= ab` and `|b| <= bb` with `ab * bb <= cap * FX_ONE`
/// give `|fx_mul_s(a, b)| <= cap`.
pub proof fn lemma_fx_mul_bound(a: int, b: int, ab: int, bb: int, cap: int)
    requires
        0 <= ab,
        0 <= bb,
        0 <= cap,
        -ab <= a <= ab,
        -bb <= b <= bb,
        ab * bb <= cap * (FX_ONE as int),
    ensures
        -cap <= fx_mul_s(a, b) <= cap,
        -(cap * (FX_ONE as int)) <= a * b <= cap * (FX_ONE as int),
{
    assert(-(ab * bb) <= a * b <= ab * bb) by (nonlinear_arith)
        requires
            0 <= ab,
            0 <= bb,
            -ab <= a <= ab,
            -bb <= b <= bb,
    ;
    lemma_fx_scale_bound(a * b, cap);
}

/// Multiplying by zero gives zero.
pub proof fn lemma_fx_mul_zero(a: int)
    ensures
        fx_mul_s(a, 0) == 0,
        fx_mul_s(0, a) == 0,
{
    assert(a * 0 == 0) by (nonlinear_arith);
    assert(0 * a == 0) by (nonlinear_arith);
    assert(fx_scale(0) == 0);
}

/// The fixed-point product of nonnegative values is nonnegative.
pub proof fn lemma_fx_mul_nonneg(a: int, b: int)
    requires
        0 <= a,
        0 <= b,
    ensures
        0 <= fx_mul_s(a, b),
{
    assert(0 <= a * b) by (nonlinear_arith)
        requires
            0 <= a,
            0 <= b,
    ;
    lemma_div_pos_is_pos(a * b, FX_ONE as int);
}

/// A bound on a fixed-point quotient from a bound on the dividend:
/// `|a| * FX_ONE <= cap * b` gives `|fx_div_s(a, b)| <= cap`.
pub proof fn lemma_fx_div_bound(a: int, b: int, cap: int)
    requires
        1 <= b,
        0 <= cap,
        iabs(a) * (FX_ONE as int) <= cap * b,
    ensures
        -cap <= fx_div_s(a, b) <= cap,
{
    if a >= 0 {
        lemma_div_pos_is_pos(a * (FX_ONE as int), b);
        lemma_div_is_ordered(a * (FX_ONE as int), cap * b, b);
        lemma_div_multiples_vanish(cap, b);
        assert(cap * b == b * cap) by (nonlinear_arith);
    } else {
        lemma_div_pos_is_pos((-a) * (FX_ONE as int), b);
        lemma_div_is_ordered((-a) * (FX_ONE as int), cap * b, b);
        lemma_div_multiples_vanish(cap, b);
        assert(cap * b == b * cap) by (nonlinear_arith);
    }
}

/// Scales a double-width raw product down to the working precision.
pub(crate) fn fx_scale_i128(p: i128) -> (r: i64)
    requires
        -(FX_LIM as int) * (FX_ONE as int) <= p <= (FX_LIM as int) * (FX_ONE as int),
    ensures
        r as int == fx_scale(p as int),
        -FX_LIM <= r <= FX_LIM,
{
    proof {
        lemma_fx_scale_bound(p as int, FX_LIM as int);
    }
    if p >= 0 {
        let q: u128 = (p as u128) / (FX_ONE as u128);
        proof {
            lemma_div_pos_is_pos(p as int, FX_ONE as int);
        }
        q as i64
    } else {
        let m: u128 = ((-p) as u128) / (FX_ONE as u128);
        proof {
            lemma_div_pos_is_pos(-(p as int), FX_ONE as int);
        }
        -(m as i64)
    }
}

/// Fixed-point multiplication, exact per `fx_mul_s`.
pub fn fx_mul(a: i64, b: i64) -> (r: i64)
    requires
        -(FX_LIM as int) * (FX_ONE as int) <= (a as int) * (b as int) <= (FX_LIM as int) * (
        FX_ONE as int),
    ensures
        r as int == fx_mul_s(a as int, b as int),
        -FX_LIM <= r <= FX_LIM,
{
    proof {
        assert((a as int) * (b as int) <= 0x4000_0000_0000_0000_0000_0000_0000_0000
            && (a as int) * (b as int) >= -0x4000_0000_0000_0000_0000_0000_0000_0000)
            by (nonlinear_arith)
            requires
                -0x8000_0000_0000_0000 <= a as int <= 0x7FFF_FFFF_FFFF_FFFF,
                -0x8000_0000_0000_0000 <= b as int <= 0x7FFF_FFFF_FFFF_FFFF,
        ;
    }
    let p: i128 = (a as i128) * (b as i128);
    fx_scale_i128(p)
}

/// Fixed-point division by a positive value, exact per `fx_div_s`.
pub fn fx_div(a: i64, b: i64) -> (r: i64)
    requires
        1 <= b,
        -(FX_LIM as int) <= fx_div_s(a as int, b as int) <= FX_LIM as int,
    ensures
        r as int == fx_div_s(a as int, b as int),
        -FX_LIM <= r <= FX_LIM,
{
    if a >= 0 {
        let n: u128 = (a as u128) * (FX_ONE as u128);
        proof {
            lemma_mul_inequality(a as int, 0x7FFF_FFFF_FFFF_FFFF, FX_ONE as int);
            lemma_div_pos_is_pos((a as int) * (FX_ONE as int), b as int);
        }
        let q: u128 = n / (b as u128);
        q as i64
    } else {
        let na: i128 = -(a as i128);
        let n: u128 = (na as u128) * (FX_ONE as u128);
        proof {
            lemma_mul_inequality(na as int, 0x8000_0000_0000_0000, FX_ONE as int);
            lemma_div_pos_is_pos((na as int) * (FX_ONE as int), b as int);
        }
        let m: u128 = n / (b as u128);
        -(m as i64)
    }
}

/// Plain integer division rounded toward zero (for `b > 0`), as the
/// machine division operator computes it.
pub open spec fn div_trunc_s(a: int, b: int) -> int {
    if a >= 0 {
        a / b
    } else {
        -((-a) / b)
    }
}

/// Integer division rounded toward zero, exact per `div_trunc_s`; the
/// magnitude never grows.
pub fn div_trunc(a: i64, b: i64) -> (r: i64)
    requires
        1 <= b,
        a > i64::MIN,
    ensures
        r as int == div_trunc_s(a as int, b as int),
        iabs(r as int) <= iabs(a as int),
{
    if a >= 0 {
        proof {
            lemma_div_pos_is_pos(a as int, b as int);
            vstd::arithmetic::div_mod::lemma_div_nonincreasing(a as int, b as int);
        }
        ((a as u64) / (b as u64)) as i64
    } else {
        proof {
            lemma_div_pos_is_pos(-(a as int), b as int);
            vstd::arithmetic::div_mod::lemma_div_nonincreasing(-(a as int), b as int);
        }
        -((((-a) as u64) / (b as u64)) as i64)
    }
}

/// The fractional part in floor style: always in `[0, FX_ONE)`.
pub open spec fn frac_floor_s(x: int) -> int {
    x % (FX_ONE as int)
}

/// The fractional part in truncation style, as `f32::fract` computes it:
/// the sign of the input is kept, the result is in `(-FX_ONE, FX_ONE)`.
pub open spec fn frac_trunc_s(x: int) -> int {
    if x >= 0 {
        x % (FX_ONE as int)
    } else {
        -((-x) % (FX_ONE as int))
    }
}

/// Floor-style fractional part, exact per `frac_floor_s`.
pub fn frac_floor(x: i64) -> (r: i64)
    requires
        x > i64::MIN,
    ensures
        r as int == frac_floor_s(x as int),
        0 <= r < FX_ONE,
{
    if x >= 0 {
        ((x as u64) % (FX_ONE as u64)) as i64
    } else {
        let m: u64 = ((-x) as u64) % (FX_ONE as u64);
        if m == 0 {
            proof {
                lemma_mod_opposites(x as int, FX_ONE as int);
            }
            0
        } else {
            proof {
                lemma_mod_opposites(x as int, FX_ONE as int);
            }
            FX_ONE - (m as i64)
        }
    }
}

/// For a positive modulus, the residues of `x` and `-x` are opposite:
/// either both are zero, or they sum to the modulus.
proof fn lemma_mod_opposites(x: int, m: int)
    requires
        0 < m,
    ensures
        ((-x) % m == 0) ==> (x % m == 0),
        ((-x) % m != 0) ==> (x % m == m - ((-x) % m)),
{
    let q = (-x) / m;
    let r = (-x) % m;
    vstd::arithmetic::div_mod::lemma_fundamental_div_mod(-x, m);
    assert(x == m * (-q) - r) by (nonlinear_arith)
        requires
            -x == m * q + r,
    ;
    if r == 0 {
        vstd::arithmetic::div_mod::lemma_fundamental_div_mod_converse_mod(x, m, -q, 0);
    } else {
        assert(x == m * (-q - 1) + (m - r)) by (nonlinear_arith)
            requires
                x == m * (-q) - r,
    ;
        vstd::arithmetic::div_mod::lemma_fundamental_div_mod_converse_mod(x, m, -q - 1, m - r);
    }
}

/// Truncation-style fractional part, exact per `frac_trunc_s`.
pub fn frac_trunc(x: i64) -> (r: i64)
    requires
        x > i64::MIN,
    ensures
        r as int == frac_trunc_s(x as int),
        -FX_ONE < r < FX_ONE,
{
    if x >= 0 {
        ((x as u64) % (FX_ONE as u64)) as i64
    } else {
        let m: u64 = ((-x) as u64) % (FX_ONE as u64);
        -(m as i64)
    }
}

} // verus!
