//! Bidirectional digital waveguide.
//!
//! Two counter-propagating delay lines of equal length with reflection
//! coefficients `alpha` and `beta` at the two ends.  `pop` reads both
//! lines, squashes each sample through `dampen`, and returns the two
//! leakages `(c1_out * (1 - |alpha|), c0_out * (1 - |beta|))`; `push`
//! writes the reflected parts plus the external inputs back and advances
//! both lines.  Every `pop` must be followed by exactly one `push`
//! before the next `pop`.
//!
//! `dampen` passes a sample through unchanged while its magnitude stays
//! at or below `FX_MAX_AMP` and otherwise squashes it monotonically, so
//! whatever a feedback loop does, no chamber output can leave
//! `[-FX_DAMP_LIM, FX_DAMP_LIM]`.

use vstd::prelude::*;

verus! {

use crate::fixed::FX_ONE;
use crate::fixed::iabs;
use crate::fixed::fx_mul_s;
use crate::fixed::fx_div_s;
use crate::fixed::fx_mul;
use crate::fixed::fx_div;
use crate::fixed::lemma_fx_mul_bound;
use crate::buffer::BufV;
use crate::buffer::buf_wf;
use crate::buffer::buf_read;
use crate::buffer::buf_pushed;
use crate::buffer::buf_advanced;
use crate::buffer::DelayLine;
use vstd::arithmetic::div_mod::lemma_div_pos_is_pos;
use vstd::arithmetic::div_mod::lemma_multiply_divide_lt;

/// Amplitude at which damping sets in: 20.0 in fixed-point.
pub const FX_MAX_AMP: i64 = 5368709120;

/// The bound damping enforces: 21.0 in fixed-point; no damped sample can
/// reach beyond it.
pub const FX_DAMP_LIM: i64 = 5637144576;

/// Largest raw magnitude accepted as an external `push` input.
pub const FX_WG_IN_LIM: i64 = 0x4_0000_0000_0000;

/// Mathematical state of a waveguide: the two chambers, the two
/// reflection coefficients, and the two damped chamber outputs of the
/// latest `pop`.
pub ghost struct WgV {
    pub c0: BufV,
    pub c1: BufV,
    pub alpha: int,
    pub beta: int,
    pub c0_out: int,
    pub c1_out: int,
}

/// The soft saturator: the identity within `[-FX_MAX_AMP, FX_MAX_AMP]`,
/// and `sign(s) * (FX_MAX_AMP + 1 - 1 / (|s| - FX_MAX_AMP + 1))` beyond.
pub open spec fn dampen_s(s: int) -> int {
    if s > FX_MAX_AMP as int {
        FX_MAX_AMP + FX_ONE - fx_div_s(FX_ONE as int, s - FX_MAX_AMP + FX_ONE)
    } else if s < -(FX_MAX_AMP as int) {
        -(FX_MAX_AMP + FX_ONE - fx_div_s(FX_ONE as int, -s - FX_MAX_AMP + FX_ONE))
    } else {
        s
    }
}

/// Damped samples never leave `[-FX_DAMP_LIM, FX_DAMP_LIM]`.
pub proof fn lemma_dampen_bounded(s: int)
    ensures
        -FX_DAMP_LIM <= dampen_s(s) <= FX_DAMP_LIM,
        -FX_MAX_AMP <= s <= FX_MAX_AMP ==> dampen_s(s) == s,
{
    if s > FX_MAX_AMP as int {
        let d = s - FX_MAX_AMP + FX_ONE;
        lemma_div_pos_is_pos((FX_ONE as int) * (FX_ONE as int), d);
        assert((FX_ONE as int) * (FX_ONE as int) < d * (FX_ONE as int)) by (nonlinear_arith)
            requires
                d > FX_ONE as int,
        ;
        lemma_multiply_divide_lt((FX_ONE as int) * (FX_ONE as int), d, FX_ONE as int);
    } else if s < -(FX_MAX_AMP as int) {
        let d = -s - FX_MAX_AMP + FX_ONE;
        lemma_div_pos_is_pos((FX_ONE as int) * (FX_ONE as int), d);
        assert((FX_ONE as int) * (FX_ONE as int) < d * (FX_ONE as int)) by (nonlinear_arith)
            requires
                d > FX_ONE as int,
        ;
        lemma_multiply_divide_lt((FX_ONE as int) * (FX_ONE as int), d, FX_ONE as int);
    }
}

/// The waveguide `new` builds: two zeroed chambers of `delay` samples
/// each, the given reflection coefficients, zeroed chamber outputs.
pub open spec fn wg_new_s(delay: int, alpha: int, beta: int, sps: int) -> WgV {
    let fresh = BufV {
        data: Seq::new(delay as nat, |i: int| 0i64),
        pos: 0,
        delay: (delay * (FX_ONE as int)) / sps,
    };
    WgV { c0: fresh, c1: fresh, alpha, beta, c0_out: 0, c1_out: 0 }
}

/// The waveguide state after `pop`: both chamber outputs re-read and
/// damped, the chambers untouched.
pub open spec fn wg_popped(w: WgV) -> WgV {
    WgV { c0_out: dampen_s(buf_read(w.c0) as int), c1_out: dampen_s(buf_read(w.c1) as int), ..w }
}

/// The alpha-side leakage `pop` returns: `c1_out * (1 - |alpha|)`.
pub open spec fn wg_pop_alpha_out(w: WgV) -> int {
    fx_mul_s(dampen_s(buf_read(w.c1) as int), FX_ONE - iabs(w.alpha))
}

/// The beta-side leakage `pop` returns: `c0_out * (1 - |beta|)`.
pub open spec fn wg_pop_beta_out(w: WgV) -> int {
    fx_mul_s(dampen_s(buf_read(w.c0) as int), FX_ONE - iabs(w.beta))
}

/// The waveguide state after `push(x0_in, x1_in)`: the reflected chamber
/// outputs plus the external inputs written, both chambers advanced.
pub open spec fn wg_pushed(w: WgV, x0_in: int, x1_in: int) -> WgV {
    let c0_in = fx_mul_s(w.c1_out, w.alpha) + x0_in;
    let c1_in = fx_mul_s(w.c0_out, w.beta) + x1_in;
    WgV {
        c0: buf_advanced(buf_pushed(w.c0, c0_in as i64)),
        c1: buf_advanced(buf_pushed(w.c1, c1_in as i64)),
        ..w
    }
}

/// Structural invariant of a waveguide state: both chambers well formed
/// and of equal length, reflection coefficients within `[-1, 1]`, the
/// recorded chamber outputs within the damping bound.
pub open spec fn wg_wf(w: WgV) -> bool {
    &&& buf_wf(w.c0)
    &&& buf_wf(w.c1)
    &&& w.c0.data.len() == w.c1.data.len()
    &&& -(FX_ONE as int) <= w.alpha <= FX_ONE as int
    &&& -(FX_ONE as int) <= w.beta <= FX_ONE as int
    &&& -(FX_DAMP_LIM as int) <= w.c0_out <= FX_DAMP_LIM as int
    &&& -(FX_DAMP_LIM as int) <= w.c1_out <= FX_DAMP_LIM as int
}

/// Bidirectional waveguide: two chambers and two reflective ends.
pub struct WaveGuide {
    /// Propagation from end 0 to end 1.
    pub chamber0: DelayLine,
    /// Propagation from end 1 to end 0.
    pub chamber1: DelayLine,
    /// Reflection factor for the first value of the return tuple of
    /// `pop`.
    pub alpha: i64,
    /// Reflection factor for the second value of the return tuple of
    /// `pop`.
    pub beta: i64,
    /// Damped output of chamber 1 at the latest `pop`; running value.
    pub c1_out: i64,
    /// Damped output of chamber 0 at the latest `pop`; running value.
    pub c0_out: i64,
}

impl View for WaveGuide {
    type V = WgV;

    open spec fn view(&self) -> WgV {
        WgV {
            c0: self.chamber0@,
            c1: self.chamber1@,
            alpha: self.alpha as int,
            beta: self.beta as int,
            c0_out: self.c0_out as int,
            c1_out: self.c1_out as int,
        }
    }
}

impl WaveGuide {
    /// Structural invariant.
    pub open spec fn wf(&self) -> bool {
        wg_wf(self@)
    }

    /// Creates a waveguide with two zeroed chambers of `delay` samples
    /// and the given reflection coefficients.
    pub fn new(delay: usize, alpha: i64, beta: i64, samples_per_second: u32) -> (r: WaveGuide)
        requires
            1 <= delay <= 0x8000_0000,
            1 <= samples_per_second,
            -FX_ONE <= alpha <= FX_ONE,
            -FX_ONE <= beta <= FX_ONE,
        ensures
            r.wf(),
            r@ == wg_new_s(delay as int, alpha as int, beta as int, samples_per_second as int),
    {
        WaveGuide {
            chamber0: DelayLine::new(delay, samples_per_second),
            chamber1: DelayLine::new(delay, samples_per_second),
            alpha,
            beta,
            c1_out: 0,
            c0_out: 0,
        }
    }

    /// Reads both chambers through `dampen` and returns the two
    /// leakages `(alpha side, beta side)`.
    pub fn pop(&mut self) -> (r: (i64, i64))
        requires
            old(self).wf(),
        ensures
            final(self).wf(),
            final(self)@ == wg_popped(old(self)@),
            final(self).alpha == old(self).alpha,
            final(self).beta == old(self).beta,
            r.0 as int == wg_pop_alpha_out(old(self)@),
            r.1 as int == wg_pop_beta_out(old(self)@),
            -FX_DAMP_LIM <= r.0 <= FX_DAMP_LIM,
            -FX_DAMP_LIM <= r.1 <= FX_DAMP_LIM,
    {
        let raw1 = self.chamber1.pop();
        let raw0 = self.chamber0.pop();
        self.c1_out = Self::dampen(raw1);
        self.c0_out = Self::dampen(raw0);
        let na: i64 = if self.alpha >= 0 {
            self.alpha
        } else {
            -self.alpha
        };
        let nb: i64 = if self.beta >= 0 {
            self.beta
        } else {
            -self.beta
        };
        proof {
            lemma_fx_mul_bound(
                self.c1_out as int,
                FX_ONE - na as int,
                FX_DAMP_LIM as int,
                FX_ONE as int,
                FX_DAMP_LIM as int,
            );
            lemma_fx_mul_bound(
                self.c0_out as int,
                FX_ONE - nb as int,
                FX_DAMP_LIM as int,
                FX_ONE as int,
                FX_DAMP_LIM as int,
            );
        }
        (fx_mul(self.c1_out, FX_ONE - na), fx_mul(self.c0_out, FX_ONE - nb))
    }

    /// The soft saturator applied to every chamber output.
    pub fn dampen(sample: i64) -> (r: i64)
        ensures
            r as int == dampen_s(sample as int),
            -FX_DAMP_LIM <= r <= FX_DAMP_LIM,
    {
        proof {
            lemma_dampen_bounded(sample as int);
        }
        let sample_abs: i128 = if sample >= 0 {
            sample as i128
        } else {
            -(sample as i128)
        };
        if sample_abs > FX_MAX_AMP as i128 {
            let d: i64 = (sample_abs - (FX_MAX_AMP as i128) + (FX_ONE as i128)) as i64;
            proof {
                lemma_div_pos_is_pos((FX_ONE as int) * (FX_ONE as int), d as int);
                assert((FX_ONE as int) * (FX_ONE as int) < (d as int) * (FX_ONE as int))
                    by (nonlinear_arith)
                    requires
                        d as int > FX_ONE as int,
                ;
                lemma_multiply_divide_lt(
                    (FX_ONE as int) * (FX_ONE as int),
                    d as int,
                    FX_ONE as int,
                );
            }
            let t: i64 = fx_div(FX_ONE, d);
            let m: i64 = FX_MAX_AMP + FX_ONE - t;
            if sample >= 0 {
                m
            } else {
                -m
            }
        } else {
            sample
        }
    }

    /// Writes the reflected chamber outputs plus the external inputs
    /// and advances both chambers.
    pub fn push(&mut self, x0_in: i64, x1_in: i64)
        requires
            old(self).wf(),
            -FX_WG_IN_LIM <= x0_in <= FX_WG_IN_LIM,
            -FX_WG_IN_LIM <= x1_in <= FX_WG_IN_LIM,
        ensures
            final(self).wf(),
            final(self)@ == wg_pushed(old(self)@, x0_in as int, x1_in as int),
            final(self).alpha == old(self).alpha,
            final(self).beta == old(self).beta,
    {
        proof {
            lemma_fx_mul_bound(
                old(self)@.c1_out,
                old(self)@.alpha,
                FX_DAMP_LIM as int,
                FX_ONE as int,
                FX_DAMP_LIM as int,
            );
            lemma_fx_mul_bound(
                old(self)@.c0_out,
                old(self)@.beta,
                FX_DAMP_LIM as int,
                FX_ONE as int,
                FX_DAMP_LIM as int,
            );
        }
        let c0_in: i64 = fx_mul(self.c1_out, self.alpha) + x0_in;
        let c1_in: i64 = fx_mul(self.c0_out, self.beta) + x1_in;
        self.chamber0.push(c0_in);
        self.chamber1.push(c1_in);
        self.chamber0.samples.advance();
        self.chamber1.samples.advance();
    }
}

/// The waveguide state with both chambers zeroed; the recorded chamber
/// outputs are kept, as the next `pop` overwrites them.
pub open spec fn wg_zeroed(w: WgV) -> WgV {
    WgV { c0: crate::buffer::buf_zeroed(w.c0), c1: crate::buffer::buf_zeroed(w.c1), ..w }
}

/// Both chambers hold only zeros.
pub open spec fn wg_chambers_zero(w: WgV) -> bool {
    &&& forall|j: int| 0 <= j < w.c0.data.len() ==> w.c0.data[j] == 0i64
    &&& forall|j: int| 0 <= j < w.c1.data.len() ==> w.c1.data[j] == 0i64
}

impl WaveGuide {
    /// Zeroes both chambers, keeping everything else.
    pub fn clear(&mut self)
        requires
            old(self).wf(),
        ensures
            final(self).wf(),
            final(self)@ == wg_zeroed(old(self)@),
    {
        self.chamber0.samples.clear();
        self.chamber1.samples.clear();
    }
}

/// Left to itself, the waveguide decays: whatever its starting state,
/// after a `pop` both leakages and both recorded chamber outputs are
/// within the damping bound, and a following `push(0, 0)` writes only
/// values within that same bound back into the chambers, so no feedback
/// can grow without limit.
pub proof fn lemma_waveguide_decays(w: WgV)
    requires
        wg_wf(w),
    ensures
        -FX_DAMP_LIM <= wg_pop_alpha_out(w) <= FX_DAMP_LIM,
        -FX_DAMP_LIM <= wg_pop_beta_out(w) <= FX_DAMP_LIM,
        -FX_DAMP_LIM <= wg_popped(w).c0_out <= FX_DAMP_LIM,
        -FX_DAMP_LIM <= wg_popped(w).c1_out <= FX_DAMP_LIM,
        -FX_DAMP_LIM <= fx_mul_s(wg_popped(w).c1_out, w.alpha) + 0 <= FX_DAMP_LIM,
        -FX_DAMP_LIM <= fx_mul_s(wg_popped(w).c0_out, w.beta) + 0 <= FX_DAMP_LIM,
{
    lemma_dampen_bounded(buf_read(w.c0) as int);
    lemma_dampen_bounded(buf_read(w.c1) as int);
    lemma_fx_mul_bound(
        wg_popped(w).c1_out,
        FX_ONE - iabs(w.alpha),
        FX_DAMP_LIM as int,
        FX_ONE as int,
        FX_DAMP_LIM as int,
    );
    lemma_fx_mul_bound(
        wg_popped(w).c0_out,
        FX_ONE - iabs(w.beta),
        FX_DAMP_LIM as int,
        FX_ONE as int,
        FX_DAMP_LIM as int,
    );
    lemma_fx_mul_bound(
        wg_popped(w).c1_out,
        w.alpha,
        FX_DAMP_LIM as int,
        FX_ONE as int,
        FX_DAMP_LIM as int,
    );
    lemma_fx_mul_bound(
        wg_popped(w).c0_out,
        w.beta,
        FX_DAMP_LIM as int,
        FX_ONE as int,
        FX_DAMP_LIM as int,
    );
}

} // verus!
