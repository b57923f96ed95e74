//! One audio cylinder: a piston/ignition oscillator connected through
//! three waveguides.
//!
//! The exhaust waveguide runs from the cylinder to the extractor, the
//! intake waveguide from the cylinder to the intake collector, and the
//! extractor waveguide from the exhaust side to the exhaust collector.
//! The valve functions modulate the reflection coefficient of the
//! cylinder-side (alpha) end of the exhaust and intake waveguides, so an
//! open valve lets the cylinder excitation leak out.

use vstd::prelude::*;

verus! {

use crate::fixed::FX_ONE;
use crate::fixed::FX_HALF;
use crate::fixed::FX_QUARTER;
use crate::fixed::iabs;
use crate::fixed::fx_mul_s;
use crate::fixed::fx_div_s;
use crate::fixed::fx_mul;
use crate::fixed::fx_div;
use crate::fixed::frac_trunc;
use crate::fixed::frac_trunc_s;
use crate::fixed::lemma_fx_mul_bound;
use crate::fixed::lemma_fx_div_bound;
use crate::math::cos_norm;
use crate::math::cos_norm_s;
use crate::math::sin_norm;
use crate::math::sin_norm_s;
use crate::math::lemma_cos_norm_bounded;
use crate::filter::lemma_lpf_out_between;
use crate::waveguide::WaveGuide;
use crate::waveguide::WgV;
use crate::waveguide::wg_wf;
use crate::waveguide::wg_popped;
use crate::waveguide::wg_pushed;
use crate::waveguide::wg_pop_alpha_out;
use crate::waveguide::wg_pop_beta_out;
use crate::waveguide::FX_DAMP_LIM;
use crate::waveguide::FX_WG_IN_LIM;

/// Largest raw magnitude of the piston and ignition strength factors.
pub const FX_FACTOR_LIM: i64 = 0x4_0000_0000;

/// Largest raw magnitude of the cylinder excitation: both factors at
/// full strength against unit oscillations.
pub const FX_CYL_SOUND_LIM: i64 = 0x8_0000_0000;

/// Largest raw magnitude accepted as an effective crank position.
pub const FX_CRANK_IN_LIM: i64 = 0x1_0000_0000_0000;

/// Piston motion over one crank cycle: `cos(4 * pi * c)`.
pub open spec fn piston_motion_s(c: int) -> int {
    cos_norm_s(2 * c)
}

/// Piston motion, exact per `piston_motion_s`.
pub fn piston_motion(crank_pos: i64) -> (r: i64)
    requires
        -FX_ONE < crank_pos < FX_ONE,
    ensures
        r as int == piston_motion_s(crank_pos as int),
        -FX_ONE <= r <= FX_ONE,
{
    cos_norm(2 * crank_pos)
}

/// Ignition pressure wave: half a sine period of length `tau` starting
/// half way through the crank cycle, zero elsewhere.
pub open spec fn fuel_ignition_s(c: int, tau: int) -> int {
    if FX_HALF < c && c < FX_HALF + tau / 2 {
        sin_norm_s(fx_div_s(c - FX_HALF, tau))
    } else {
        0
    }
}

/// Ignition wave, exact per `fuel_ignition_s`.
pub fn fuel_ignition(crank_pos: i64, ignition_time: i64) -> (r: i64)
    requires
        -FX_ONE < crank_pos < FX_ONE,
        1 <= ignition_time <= FX_ONE,
    ensures
        r as int == fuel_ignition_s(crank_pos as int, ignition_time as int),
        -FX_ONE <= r <= FX_ONE,
{
    if FX_HALF < crank_pos && crank_pos < FX_HALF + ignition_time / 2 {
        proof {
            lemma_fx_div_bound(
                crank_pos - FX_HALF as int,
                ignition_time as int,
                FX_ONE as int,
            );
            assert(iabs(crank_pos - FX_HALF as int) * (FX_ONE as int) <= (FX_ONE as int) * (
            ignition_time as int)) by (nonlinear_arith)
                requires
                    0 < crank_pos - FX_HALF as int <= ignition_time as int,
        ;
        }
        sin_norm(fx_div(crank_pos - FX_HALF, ignition_time))
    } else {
        0
    }
}

/// Intake valve opening: `sin(4 * pi * c)` while `0 < c < 1/4`, zero
/// elsewhere.
pub open spec fn intake_valve_s(c: int) -> int {
    if 0 < c && c < FX_QUARTER {
        sin_norm_s(2 * c)
    } else {
        0
    }
}

/// Exhaust valve opening: `sin(-4 * pi * c)` while `3/4 < c < 1`, zero
/// elsewhere.
pub open spec fn exhaust_valve_s(c: int) -> int {
    if 3 * (FX_QUARTER as int) < c && c < FX_ONE as int {
        sin_norm_s(-2 * c)
    } else {
        0
    }
}

/// Over the window where the parabola is read, its values are in
/// `[0, 1]`: both valve functions only ever open, never invert.
pub proof fn lemma_cos_norm_nonneg(u: int)
    requires
        -(FX_QUARTER as int) <= u <= FX_QUARTER as int,
    ensures
        0 <= cos_norm_s(u) <= FX_ONE,
{
    lemma_cos_norm_bounded(u);
    let fr = (u + FX_QUARTER) % (FX_ONE as int);
    vstd::arithmetic::div_mod::lemma_small_mod((u + FX_QUARTER) as nat, FX_ONE as nat);
    let y = fr - (FX_HALF as int);
    assert(0 <= 16 * y * (iabs(y) - FX_HALF as int)) by (nonlinear_arith)
        requires
            -(FX_HALF as int) <= y <= 0,
    ;
    vstd::arithmetic::div_mod::lemma_div_pos_is_pos(
        16 * y * (iabs(y) - FX_HALF as int),
        FX_ONE as int,
    );
}

/// The intake valve function stays within `[0, 1]`.
pub proof fn lemma_intake_valve_range(c: int)
    ensures
        0 <= intake_valve_s(c) <= FX_ONE,
{
    if 0 < c && c < FX_QUARTER {
        lemma_cos_norm_nonneg(2 * c - FX_QUARTER);
    }
}

/// The exhaust valve function stays within `[0, 1]`.
pub proof fn lemma_exhaust_valve_range(c: int)
    ensures
        0 <= exhaust_valve_s(c) <= FX_ONE,
{
    if 3 * (FX_QUARTER as int) < c && c < FX_ONE as int {
        let t = -2 * c - FX_QUARTER;
        vstd::arithmetic::div_mod::lemma_mod_add_multiples_vanish(
            t + FX_QUARTER,
            FX_ONE as int,
        );
        vstd::arithmetic::div_mod::lemma_mod_add_multiples_vanish(
            t + FX_QUARTER + FX_ONE,
            FX_ONE as int,
        );
        vstd::arithmetic::div_mod::lemma_small_mod(
            (t + FX_QUARTER + 2 * (FX_ONE as int)) as nat,
            FX_ONE as nat,
        );
        let fr = (t + FX_QUARTER) % (FX_ONE as int);
        assert(fr == t + FX_QUARTER + 2 * (FX_ONE as int));
        let y = fr - (FX_HALF as int);
        assert(0 <= 16 * y * (iabs(y) - FX_HALF as int)) by (nonlinear_arith)
            requires
                -(FX_HALF as int) <= y <= 0,
        ;
        vstd::arithmetic::div_mod::lemma_div_pos_is_pos(
            16 * y * (iabs(y) - FX_HALF as int),
            FX_ONE as int,
        );
        lemma_cos_norm_bounded(t);
    }
}

/// Intake valve opening, exact per `intake_valve_s`.
pub fn intake_valve(crank_pos: i64) -> (r: i64)
    requires
        -FX_ONE < crank_pos < FX_ONE,
    ensures
        r as int == intake_valve_s(crank_pos as int),
        0 <= r <= FX_ONE,
{
    proof {
        lemma_intake_valve_range(crank_pos as int);
    }
    if 0 < crank_pos && crank_pos < FX_QUARTER {
        sin_norm(2 * crank_pos)
    } else {
        0
    }
}

/// Exhaust valve opening, exact per `exhaust_valve_s`.
pub fn exhaust_valve(crank_pos: i64) -> (r: i64)
    requires
        -FX_ONE < crank_pos < FX_ONE,
    ensures
        r as int == exhaust_valve_s(crank_pos as int),
        0 <= r <= FX_ONE,
{
    proof {
        lemma_exhaust_valve_range(crank_pos as int);
    }
    if 3 * FX_QUARTER < crank_pos && crank_pos < FX_ONE {
        sin_norm(-2 * crank_pos)
    } else {
        0
    }
}

/// Mathematical state of a cylinder.
pub ghost struct CylV {
    pub crank_offset: int,
    pub exhaust_waveguide: WgV,
    pub intake_waveguide: WgV,
    pub extractor_waveguide: WgV,
    pub intake_open_refl: int,
    pub intake_closed_refl: int,
    pub exhaust_open_refl: int,
    pub exhaust_closed_refl: int,
    pub piston_motion_factor: int,
    pub ignition_factor: int,
    pub ignition_time: int,
    pub cyl_sound: int,
    pub extractor_exhaust: int,
}

/// Structural invariant of a cylinder state.
pub open spec fn cyl_wf(c: CylV) -> bool {
    &&& wg_wf(c.exhaust_waveguide)
    &&& wg_wf(c.intake_waveguide)
    &&& wg_wf(c.extractor_waveguide)
    &&& -(FX_ONE as int) <= c.crank_offset <= FX_ONE as int
    &&& -(FX_ONE as int) <= c.intake_open_refl <= FX_ONE as int
    &&& -(FX_ONE as int) <= c.intake_closed_refl <= FX_ONE as int
    &&& -(FX_ONE as int) <= c.exhaust_open_refl <= FX_ONE as int
    &&& -(FX_ONE as int) <= c.exhaust_closed_refl <= FX_ONE as int
    &&& -(FX_FACTOR_LIM as int) <= c.piston_motion_factor <= FX_FACTOR_LIM as int
    &&& -(FX_FACTOR_LIM as int) <= c.ignition_factor <= FX_FACTOR_LIM as int
    &&& 1 <= c.ignition_time <= FX_ONE as int
    &&& -(FX_CYL_SOUND_LIM as int) <= c.cyl_sound <= FX_CYL_SOUND_LIM as int
    &&& -(FX_DAMP_LIM as int) <= c.extractor_exhaust <= FX_DAMP_LIM as int
}

/// The raw cylinder excitation at crank angle `crank`: piston motion
/// plus ignition wave, each at its strength factor.
pub open spec fn cyl_sound_s(c: CylV, crank: int) -> int {
    fx_mul_s(piston_motion_s(crank), c.piston_motion_factor) + fx_mul_s(
        fuel_ignition_s(crank, c.ignition_time),
        c.ignition_factor,
    )
}

/// A valve opening linearly interpolates the reflection coefficient
/// from closed to open.
pub open spec fn valve_alpha_s(open_refl: int, closed_refl: int, valve: int) -> int {
    fx_mul_s(open_refl - closed_refl, valve) + closed_refl
}

/// The full effect of `Cylinder::pop`: the successor state and the
/// three returned signals `(intake leakage, exhaust-collector leakage,
/// cylinder excitation)`.
pub open spec fn cyl_pop_s(c: CylV, crank_pos: int, exhaust_collector: int, ivs: int, evs: int) -> (
    CylV,
    int,
    int,
    int,
) {
    let crank = frac_trunc_s(crank_pos + c.crank_offset);
    let ex_valve = exhaust_valve_s(frac_trunc_s(crank + evs));
    let in_valve = intake_valve_s(frac_trunc_s(crank + ivs));
    let ex_wg = WgV {
        alpha: valve_alpha_s(c.exhaust_open_refl, c.exhaust_closed_refl, ex_valve),
        ..c.exhaust_waveguide
    };
    let in_wg = WgV {
        alpha: valve_alpha_s(c.intake_open_refl, c.intake_closed_refl, in_valve),
        ..c.intake_waveguide
    };
    let next = CylV {
        cyl_sound: cyl_sound_s(c, crank),
        exhaust_waveguide: wg_popped(ex_wg),
        intake_waveguide: wg_popped(in_wg),
        extractor_waveguide: wg_pushed(
            wg_popped(c.extractor_waveguide),
            wg_pop_beta_out(ex_wg),
            exhaust_collector,
        ),
        extractor_exhaust: wg_pop_alpha_out(c.extractor_waveguide),
        ..c
    };
    (next, wg_pop_beta_out(in_wg), wg_pop_beta_out(c.extractor_waveguide), cyl_sound_s(c, crank))
}

/// The full effect of `Cylinder::push` with intake mix `intake`: the
/// exhaust and intake waveguides are fed the cylinder excitation scaled
/// by how far their valve is open.
pub open spec fn cyl_push_s(c: CylV, intake: int) -> CylV {
    let ex_in = fx_mul_s(
        fx_mul_s(FX_ONE - iabs(c.exhaust_waveguide.alpha), c.cyl_sound),
        FX_HALF as int,
    );
    let in_in = fx_mul_s(
        fx_mul_s(FX_ONE - iabs(c.intake_waveguide.alpha), c.cyl_sound),
        FX_HALF as int,
    );
    CylV {
        exhaust_waveguide: wg_pushed(c.exhaust_waveguide, ex_in, c.extractor_exhaust),
        intake_waveguide: wg_pushed(c.intake_waveguide, in_in, intake),
        ..c
    }
}

/// A cylinder with every delay slot and running value zeroed; the
/// parameters and valve reflections are kept.
pub open spec fn cyl_reset_s(c: CylV) -> CylV {
    CylV {
        exhaust_waveguide: crate::waveguide::wg_zeroed(c.exhaust_waveguide),
        intake_waveguide: crate::waveguide::wg_zeroed(c.intake_waveguide),
        extractor_waveguide: crate::waveguide::wg_zeroed(c.extractor_waveguide),
        cyl_sound: 0,
        extractor_exhaust: 0,
        ..c
    }
}

/// Every chamber of the cylinder holds only zeros, and both running
/// values are zero.
pub open spec fn cyl_quiet(c: CylV) -> bool {
    &&& crate::waveguide::wg_chambers_zero(c.exhaust_waveguide)
    &&& crate::waveguide::wg_chambers_zero(c.intake_waveguide)
    &&& crate::waveguide::wg_chambers_zero(c.extractor_waveguide)
    &&& c.cyl_sound == 0
    &&& c.extractor_exhaust == 0
}

/// One audio cylinder.
pub struct Cylinder {
    /// Offset of this cylinder's piston crank within the cycle.
    pub crank_offset: i64,
    /// Waveguide from the cylinder to the exhaust extractor.
    pub exhaust_waveguide: WaveGuide,
    /// Waveguide from the cylinder to the intake collector.
    pub intake_waveguide: WaveGuide,
    /// Waveguide from the exhaust side to the exhaust collector.
    pub extractor_waveguide: WaveGuide,
    /// Intake-side reflection when the valve is fully open.
    pub intake_open_refl: i64,
    /// Intake-side reflection when the valve is closed.
    pub intake_closed_refl: i64,
    /// Exhaust-side reflection when the valve is fully open.
    pub exhaust_open_refl: i64,
    /// Exhaust-side reflection when the valve is closed.
    pub exhaust_closed_refl: i64,
    /// Strength of the piston motion in the excitation.
    pub piston_motion_factor: i64,
    /// Strength of the ignition wave in the excitation.
    pub ignition_factor: i64,
    /// Length of the ignition wave in crank cycles, in `(0, 1]`.
    pub ignition_time: i64,
    /// Running value: the latest cylinder excitation.
    pub cyl_sound: i64,
    /// Running value: the latest extractor alpha-side leakage.
    pub extractor_exhaust: i64,
}

impl View for Cylinder {
    type V = CylV;

    open spec fn view(&self) -> CylV {
        CylV {
            crank_offset: self.crank_offset as int,
            exhaust_waveguide: self.exhaust_waveguide@,
            intake_waveguide: self.intake_waveguide@,
            extractor_waveguide: self.extractor_waveguide@,
            intake_open_refl: self.intake_open_refl as int,
            intake_closed_refl: self.intake_closed_refl as int,
            exhaust_open_refl: self.exhaust_open_refl as int,
            exhaust_closed_refl: self.exhaust_closed_refl as int,
            piston_motion_factor: self.piston_motion_factor as int,
            ignition_factor: self.ignition_factor as int,
            ignition_time: self.ignition_time as int,
            cyl_sound: self.cyl_sound as int,
            extractor_exhaust: self.extractor_exhaust as int,
        }
    }
}

impl Cylinder {
    /// Structural invariant.
    pub open spec fn wf(&self) -> bool {
        cyl_wf(self@)
    }

    /// Takes the effective crank position, the current exhaust
    /// collector pressure and the two valve shifts; updates the valve
    /// reflections, reads all three waveguides, feeds the extractor,
    /// and returns `(intake leakage, exhaust-collector leakage,
    /// cylinder excitation)`.
    pub fn pop(&mut self, crank_pos: i64, exhaust_collector: i64, intake_valve_shift: i64,
        exhaust_valve_shift: i64) -> (r: (i64, i64, i64))
        requires
            old(self).wf(),
            -FX_CRANK_IN_LIM <= crank_pos <= FX_CRANK_IN_LIM,
            -FX_WG_IN_LIM <= exhaust_collector <= FX_WG_IN_LIM,
            -FX_HALF <= intake_valve_shift <= FX_HALF,
            -FX_HALF <= exhaust_valve_shift <= FX_HALF,
        ensures
            final(self).wf(),
            ({
                let s = cyl_pop_s(
                    old(self)@,
                    crank_pos as int,
                    exhaust_collector as int,
                    intake_valve_shift as int,
                    exhaust_valve_shift as int,
                );
                &&& final(self)@ == s.0
                &&& r.0 as int == s.1
                &&& r.1 as int == s.2
                &&& r.2 as int == s.3
            }),
            -FX_DAMP_LIM <= r.0 <= FX_DAMP_LIM,
            -FX_DAMP_LIM <= r.1 <= FX_DAMP_LIM,
            -FX_CYL_SOUND_LIM <= r.2 <= FX_CYL_SOUND_LIM,
    {
        let crank: i64 = frac_trunc(crank_pos + self.crank_offset);
        let pm: i64 = piston_motion(crank);
        let fi: i64 = fuel_ignition(crank, self.ignition_time);
        proof {
            lemma_fx_mul_bound(
                pm as int,
                old(self)@.piston_motion_factor,
                FX_ONE as int,
                FX_FACTOR_LIM as int,
                FX_FACTOR_LIM as int,
            );
            lemma_fx_mul_bound(
                fi as int,
                old(self)@.ignition_factor,
                FX_ONE as int,
                FX_FACTOR_LIM as int,
                FX_FACTOR_LIM as int,
            );
        }
        self.cyl_sound = fx_mul(pm, self.piston_motion_factor) + fx_mul(fi, self.ignition_factor);

        let ex_valve: i64 = exhaust_valve(frac_trunc(crank + exhaust_valve_shift));
        let in_valve: i64 = intake_valve(frac_trunc(crank + intake_valve_shift));
        proof {
            lemma_fx_mul_bound(
                old(self)@.exhaust_open_refl - old(self)@.exhaust_closed_refl,
                ex_valve as int,
                2 * FX_ONE as int,
                FX_ONE as int,
                2 * FX_ONE as int,
            );
            lemma_lpf_out_between(
                ex_valve as int,
                old(self)@.exhaust_closed_refl,
                old(self)@.exhaust_open_refl,
            );
            lemma_fx_mul_bound(
                old(self)@.intake_open_refl - old(self)@.intake_closed_refl,
                in_valve as int,
                2 * FX_ONE as int,
                FX_ONE as int,
                2 * FX_ONE as int,
            );
            lemma_lpf_out_between(
                in_valve as int,
                old(self)@.intake_closed_refl,
                old(self)@.intake_open_refl,
            );
        }
        self.exhaust_waveguide.alpha = fx_mul(
            self.exhaust_open_refl - self.exhaust_closed_refl,
            ex_valve,
        ) + self.exhaust_closed_refl;
        self.intake_waveguide.alpha = fx_mul(
            self.intake_open_refl - self.intake_closed_refl,
            in_valve,
        ) + self.intake_closed_refl;

        let ex_wg_ret = self.exhaust_waveguide.pop();
        let in_wg_ret = self.intake_waveguide.pop();

        let extractor_wg_ret = self.extractor_waveguide.pop();
        self.extractor_exhaust = extractor_wg_ret.0;
        self.extractor_waveguide.push(ex_wg_ret.1, exhaust_collector);

        (in_wg_ret.1, extractor_wg_ret.1, self.cyl_sound)
    }

    /// Zeroes every delay slot and both running values, keeping the
    /// parameters.
    pub fn clear(&mut self)
        requires
            old(self).wf(),
        ensures
            final(self).wf(),
            final(self)@ == cyl_reset_s(old(self)@),
    {
        self.exhaust_waveguide.clear();
        self.intake_waveguide.clear();
        self.extractor_waveguide.clear();
        self.extractor_exhaust = 0;
        self.cyl_sound = 0;
    }

    /// Called after `pop`, once the engine has mixed the intake signal:
    /// feeds the exhaust and intake waveguides.
    pub fn push(&mut self, intake: i64)
        requires
            old(self).wf(),
            -FX_WG_IN_LIM <= intake <= FX_WG_IN_LIM,
        ensures
            final(self).wf(),
            final(self)@ == cyl_push_s(old(self)@, intake as int),
    {
        proof {
            lemma_fx_mul_bound(
                FX_ONE - iabs(old(self)@.exhaust_waveguide.alpha),
                old(self)@.cyl_sound,
                FX_ONE as int,
                FX_CYL_SOUND_LIM as int,
                FX_CYL_SOUND_LIM as int,
            );
            lemma_fx_mul_bound(
                FX_ONE - iabs(old(self)@.intake_waveguide.alpha),
                old(self)@.cyl_sound,
                FX_ONE as int,
                FX_CYL_SOUND_LIM as int,
                FX_CYL_SOUND_LIM as int,
            );
        }
        let na: i64 = if self.exhaust_waveguide.alpha >= 0 {
            self.exhaust_waveguide.alpha
        } else {
            -self.exhaust_waveguide.alpha
        };
        proof {
            lemma_fx_mul_bound(
                fx_mul_s(FX_ONE - iabs(old(self)@.exhaust_waveguide.alpha), old(self)@.cyl_sound),
                FX_HALF as int,
                FX_CYL_SOUND_LIM as int,
                FX_ONE as int,
                FX_CYL_SOUND_LIM as int,
            );
        }
        let ex_in: i64 = fx_mul(fx_mul(FX_ONE - na, self.cyl_sound), FX_HALF);
        self.exhaust_waveguide.push(ex_in, self.extractor_exhaust);
        let nb: i64 = if self.intake_waveguide.alpha >= 0 {
            self.intake_waveguide.alpha
        } else {
            -self.intake_waveguide.alpha
        };
        proof {
            lemma_fx_mul_bound(
                fx_mul_s(FX_ONE - iabs(old(self)@.intake_waveguide.alpha), old(self)@.cyl_sound),
                FX_HALF as int,
                FX_CYL_SOUND_LIM as int,
                FX_ONE as int,
                FX_CYL_SOUND_LIM as int,
            );
        }
        let in_in: i64 = fx_mul(fx_mul(FX_ONE - nb, self.cyl_sound), FX_HALF);
        self.intake_waveguide.push(in_in, intake);
    }
}

} // verus!
