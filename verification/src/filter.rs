//! One-pole low-pass filter.
//!
//! `filter(x)` returns `last + alpha * (x - last)` and remembers the
//! result; `alpha` is derived from a cutoff frequency in Hz and the
//! sample rate.  Every output lies between the previous output and the
//! input, so the filter can never leave the range of its inputs.

use vstd::prelude::*;

verus! {

use crate::fixed::FX_ONE;
use crate::fixed::iabs;
use crate::fixed::fx_mul_s;
use crate::fixed::fx_div_s;
use crate::fixed::fx_mul;
use crate::fixed::fx_div;
use crate::fixed::lemma_fx_mul_bound;
use crate::fixed::lemma_fx_div_bound;
use vstd::arithmetic::div_mod::lemma_div_pos_is_pos;
use vstd::arithmetic::div_mod::lemma_div_is_ordered;
use vstd::arithmetic::div_mod::lemma_div_multiples_vanish;
use vstd::arithmetic::div_mod::lemma_multiply_divide_lt;

/// Raw value of `2 * pi`, rounded to the nearest representable.
pub const FX_TAU: i64 = 1686629713;

/// Largest raw magnitude the filter accepts for its input and state.
pub const FX_FILT_LIM: i64 = 0x10_0000_0000_0000;

/// Largest raw cutoff frequency (in Hz) accepted at construction.
pub const FX_FREQ_LIM: i64 = 0x1_0000_0000_0000;

/// The filter coefficient derived from a cutoff frequency `freq` (Hz,
/// fixed-point) and a sample rate: `w / (w + 1)` for
/// `w = 2 * pi * freq / samples_per_second`.
pub open spec fn lpf_alpha_s(freq: int, sps: int) -> int {
    let w = fx_mul_s(fx_mul_s(FX_TAU as int, (FX_ONE as int) / sps), freq);
    fx_div_s(w, w + FX_ONE as int)
}

/// One filter step: the previous output moved toward the input by the
/// `alpha` fraction of their distance.
pub open spec fn lpf_out_s(alpha: int, last: int, x: int) -> int {
    last + fx_mul_s(x - last, alpha)
}

/// The filter `new` builds for a cutoff frequency `freq` (Hz,
/// fixed-point) at sample rate `sps`: the coefficient per
/// `lpf_alpha_s`, the informational delay `1 / freq`, and zero state.
pub open spec fn lpf_new_s(freq: int, sps: int) -> LpfV {
    LpfV { delay: fx_div_s(FX_ONE as int, freq), alpha: lpf_alpha_s(freq, sps), last: 0 }
}

/// A filter step with `0 <= alpha <= 1` lands between its two operands.
pub proof fn lemma_lpf_out_between(alpha: int, last: int, x: int)
    requires
        0 <= alpha <= FX_ONE,
    ensures
        last <= x ==> last <= lpf_out_s(alpha, last, x) <= x,
        x <= last ==> x <= lpf_out_s(alpha, last, x) <= last,
        iabs(lpf_out_s(alpha, last, x)) <= if iabs(last) >= iabs(x) {
            iabs(last)
        } else {
            iabs(x)
        },
{
    let d = x - last;
    if d >= 0 {
        assert(0 <= d * alpha <= d * (FX_ONE as int)) by (nonlinear_arith)
            requires
                0 <= alpha <= FX_ONE as int,
                0 <= d,
        ;
        lemma_div_pos_is_pos(d * alpha, FX_ONE as int);
        lemma_div_is_ordered(d * alpha, d * (FX_ONE as int), FX_ONE as int);
        lemma_div_multiples_vanish(d, FX_ONE as int);
    } else {
        assert(0 <= (-d) * alpha <= (-d) * (FX_ONE as int)) by (nonlinear_arith)
            requires
                0 <= alpha <= FX_ONE as int,
                0 <= -d,
        ;
        assert((-d) * alpha == -(d * alpha)) by (nonlinear_arith);
        lemma_div_pos_is_pos((-d) * alpha, FX_ONE as int);
        lemma_div_is_ordered((-d) * alpha, (-d) * (FX_ONE as int), FX_ONE as int);
        lemma_div_multiples_vanish(-d, FX_ONE as int);
    }
}

/// On a constant input stream the filter converges geometrically: each
/// step shrinks the distance to the input by the factor `1 - alpha`, up
/// to one raw unit of rounding, and never increases it.
pub proof fn lemma_filter_converges(alpha: int, last: int, x: int)
    requires
        0 <= alpha <= FX_ONE,
    ensures
        iabs(lpf_out_s(alpha, last, x) - x) <= iabs(last - x),
        iabs(lpf_out_s(alpha, last, x) - x) * (FX_ONE as int) <= iabs(last - x) * (FX_ONE - alpha)
            + FX_ONE as int,
{
    lemma_lpf_out_between(alpha, last, x);
    let d = x - last;
    if d >= 0 {
        let q = (d * alpha) / (FX_ONE as int);
        vstd::arithmetic::div_mod::lemma_fundamental_div_mod(d * alpha, FX_ONE as int);
        vstd::arithmetic::div_mod::lemma_mod_division_less_than_divisor(
            d * alpha,
            FX_ONE as int,
        );
        // out - x == -(d - q); show (d - q) * FX_ONE <= d * (FX_ONE - alpha) + FX_ONE.
        assert((d - q) * (FX_ONE as int) == d * (FX_ONE as int) - q * (FX_ONE as int))
            by (nonlinear_arith);
        assert(q * (FX_ONE as int) >= d * alpha - FX_ONE) by (nonlinear_arith)
            requires
                d * alpha == (FX_ONE as int) * q + (d * alpha) % (FX_ONE as int),
                0 <= (d * alpha) % (FX_ONE as int) < FX_ONE as int,
        ;
        assert(d * (FX_ONE as int) - d * alpha == d * (FX_ONE - alpha)) by (nonlinear_arith);
    } else {
        let m = -d;
        let q = (m * alpha) / (FX_ONE as int);
        assert((-d) * alpha == -(d * alpha)) by (nonlinear_arith);
        vstd::arithmetic::div_mod::lemma_fundamental_div_mod(m * alpha, FX_ONE as int);
        vstd::arithmetic::div_mod::lemma_mod_division_less_than_divisor(
            m * alpha,
            FX_ONE as int,
        );
        assert((m - q) * (FX_ONE as int) == m * (FX_ONE as int) - q * (FX_ONE as int))
            by (nonlinear_arith);
        assert(q * (FX_ONE as int) >= m * alpha - FX_ONE) by (nonlinear_arith)
            requires
                m * alpha == (FX_ONE as int) * q + (m * alpha) % (FX_ONE as int),
                0 <= (m * alpha) % (FX_ONE as int) < FX_ONE as int,
        ;
        assert(m * (FX_ONE as int) - m * alpha == m * (FX_ONE - alpha)) by (nonlinear_arith);
    }
}

/// Mathematical state of a low-pass filter.
pub ghost struct LpfV {
    pub delay: int,
    pub alpha: int,
    pub last: int,
}

/// Structural invariant of a filter state: the coefficient is a proper
/// fraction.
pub open spec fn lpf_wf(f: LpfV) -> bool {
    0 <= f.alpha < FX_ONE
}

/// The filter state after one step on input `x`.
pub open spec fn lpf_stepped(f: LpfV, x: int) -> LpfV {
    LpfV { last: lpf_out_s(f.alpha, f.last, x), ..f }
}

/// One-pole low-pass filter.
pub struct LowPassFilter {
    /// `1 / cutoff frequency` in fixed-point seconds; informational.
    pub delay: i64,
    /// Filter coefficient in `[0, 1)`.
    pub alpha: i64,
    /// The previous output.
    pub last: i64,
}

impl View for LowPassFilter {
    type V = LpfV;

    open spec fn view(&self) -> LpfV {
        LpfV { delay: self.delay as int, alpha: self.alpha as int, last: self.last as int }
    }
}

impl LowPassFilter {
    /// Structural invariant: the coefficient is a proper fraction.
    pub open spec fn wf(&self) -> bool {
        lpf_wf(self@)
    }

    /// Builds the filter for a cutoff frequency `freq` (Hz, fixed-point,
    /// positive) at the given sample rate; the initial state is zero.
    pub fn new(freq: i64, samples_per_second: u32) -> (r: LowPassFilter)
        requires
            1 <= freq <= FX_FREQ_LIM,
            1 <= samples_per_second,
        ensures
            r.wf(),
            r@ == lpf_new_s(freq as int, samples_per_second as int),
    {
        let inv_sps: i64 = ((FX_ONE as u64) / (samples_per_second as u64)) as i64;
        proof {
            lemma_div_pos_is_pos(FX_ONE as int, samples_per_second as int);
            lemma_div_is_ordered(FX_ONE as int, FX_ONE as int, samples_per_second as int)
            ;
            vstd::arithmetic::div_mod::lemma_div_is_ordered_by_denominator(
                FX_ONE as int,
                1,
                samples_per_second as int,
            );
            lemma_fx_mul_bound(FX_TAU as int, inv_sps as int, FX_TAU as int, FX_ONE as int, FX_TAU as int);
        }
        let w1: i64 = fx_mul(FX_TAU, inv_sps);
        proof {
            lemma_fx_mul_bound(w1 as int, freq as int, FX_TAU as int, FX_FREQ_LIM as int, 0x40_0000_0000_0000);
        }
        let w: i64 = fx_mul(w1, freq);
        proof {
            crate::fixed::lemma_fx_mul_nonneg(FX_TAU as int, inv_sps as int);
            crate::fixed::lemma_fx_mul_nonneg(w1 as int, freq as int);
            lemma_div_pos_is_pos(w * (FX_ONE as int), w + FX_ONE as int);
            assert(w * (FX_ONE as int) < (w + FX_ONE as int) * (FX_ONE as int))
                by (nonlinear_arith)
                requires
                    0 <= w,
            ;
            lemma_multiply_divide_lt(w * (FX_ONE as int), w + FX_ONE as int, FX_ONE as int);
            lemma_fx_div_bound(FX_ONE as int, freq as int, (FX_ONE as int) * (FX_ONE as int));
            assert(iabs(FX_ONE as int) * (FX_ONE as int) <= (FX_ONE as int) * (FX_ONE as int) * (
            freq as int)) by (nonlinear_arith)
                requires
                    1 <= freq as int,
            ;
        }
        let alpha: i64 = fx_div(w, w + FX_ONE);
        let delay: i64 = fx_div(FX_ONE, freq);
        LowPassFilter { delay, alpha, last: 0 }
    }

    /// One filter step, exact per `lpf_out_s`; the result becomes the
    /// new state and lies between the old state and the input.
    pub fn filter(&mut self, sample: i64) -> (r: i64)
        requires
            old(self).wf(),
            -FX_FILT_LIM <= sample <= FX_FILT_LIM,
            -FX_FILT_LIM <= old(self).last <= FX_FILT_LIM,
        ensures
            final(self).wf(),
            final(self).alpha == old(self).alpha,
            final(self).delay == old(self).delay,
            r as int == lpf_out_s(old(self).alpha as int, old(self).last as int, sample as int),
            final(self).last == r,
            -FX_FILT_LIM <= r <= FX_FILT_LIM,
    {
        proof {
            lemma_fx_mul_bound(
                sample - old(self).last,
                old(self).alpha as int,
                2 * FX_FILT_LIM as int,
                FX_ONE as int,
                2 * FX_FILT_LIM as int,
            );
            lemma_lpf_out_between(old(self).alpha as int, old(self).last as int, sample as int);
        }
        let ret: i64 = fx_mul(sample - self.last, self.alpha) + self.last;
        self.last = ret;
        ret
    }
}

} // verus!
