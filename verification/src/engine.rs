//! The engine: cylinders, muffler, noise sources, filters and running
//! state, advanced one sample at a time by the generator.
//!
//! The per-sample update has a strict two-phase schedule: every
//! delay-consuming entity is popped before anything that could influence
//! the popped values is pushed.  `eng_gen_s` states the whole update as
//! one function from engine state to engine state plus the three sub-mix
//! signals `(intake, engine vibrations, exhaust)`.

use vstd::prelude::*;

verus! {

use crate::fixed::FX_ONE;
use crate::fixed::FX_HALF;
use crate::fixed::fx_mul_s;
use crate::fixed::div_trunc_s;
use crate::fixed::frac_trunc_s;
use crate::noise::Noise;
use crate::noise::NoiseV;
use crate::noise::noise_next;
use crate::noise::noise_sample;
use crate::filter::LowPassFilter;
use crate::filter::LpfV;
use crate::filter::lpf_wf;
use crate::filter::lpf_out_s;
use crate::waveguide::WaveGuide;
use crate::waveguide::WgV;
use crate::waveguide::wg_wf;
use crate::waveguide::wg_popped;
use crate::waveguide::wg_pushed;
use crate::waveguide::wg_pop_alpha_out;
use crate::waveguide::wg_pop_beta_out;
use crate::cylinder::Cylinder;
use crate::cylinder::CylV;
use crate::cylinder::cyl_wf;
use crate::cylinder::cyl_pop_s;
use crate::cylinder::cyl_push_s;
use crate::cylinder::intake_valve_s;
use crate::cylinder::FX_FACTOR_LIM;
use crate::cylinder::FX_CYL_SOUND_LIM;
use crate::waveguide::FX_DAMP_LIM;

/// Largest number of cylinders an engine may hold.
pub const ENGINE_CYL_MAX: usize = 64;

/// Largest number of parallel muffler elements.
pub const ENGINE_MUF_MAX: usize = 64;

/// Largest raw engine speed in revolutions per minute.
pub const FX_RPM_LIM: i64 = 0x1_0000_0000_0000;

/// Largest raw magnitude of a sub-mix or master volume.
pub const FX_VOL_LIM: i64 = 0x1_0000_0000;

/// Largest raw magnitude either collector can reach: every cylinder and
/// the straight pipe contribute at most one damped sample each.
pub const FX_COLL_LIM: i64 = 0x100_0000_0000;

/// Largest raw magnitude of the engine vibration signal: every cylinder
/// contributes at most one full excitation.
pub const FX_VIB_LIM: i64 = 0x200_0000_0000;

/// Largest sample rate accepted at construction.
pub const ENGINE_SPS_MAX: u32 = 16777216;

/// Largest raw delay, in seconds, a waveguide may be sized with.
pub const FX_SEC_LIM: i64 = 0x8000_0000;

/// Raw speed of sound in meters per second.
pub const FX_SPEED_OF_SOUND: i64 = 92073361408;

/// Preset engine speed of the V8 configuration.
pub const FX_V8_RPM: i64 = 237059511943;

/// Preset intake sub-mix volume of the V8 configuration.
pub const FX_V8_INTAKE_VOLUME: i64 = 87224335;

/// Preset exhaust sub-mix volume of the V8 configuration.
pub const FX_V8_EXHAUST_VOLUME: i64 = 171454657;

/// Preset vibrations sub-mix volume of the V8 configuration.
pub const FX_V8_VIBRATIONS_VOLUME: i64 = 9756473;

/// A time in fixed-point seconds as a whole number of samples:
/// `max(1, floor(seconds * samples_per_second))`.
pub open spec fn seconds_to_samples_s(seconds: int, sps: int) -> int {
    let n = (seconds * sps) / (FX_ONE as int);
    if n >= 1 {
        n
    } else {
        1
    }
}

/// Converts a time in fixed-point seconds into a whole number of
/// samples, exact per `seconds_to_samples_s`.
pub fn seconds_to_samples(seconds: i64, samples_per_second: u32) -> (r: usize)
    requires
        0 <= seconds <= FX_SEC_LIM,
        1 <= samples_per_second <= ENGINE_SPS_MAX,
    ensures
        r as int == seconds_to_samples_s(seconds as int, samples_per_second as int),
        1 <= r <= 0x8000_0000,
{
    proof {
        vstd::arithmetic::mul::lemma_mul_upper_bound(
            seconds as int,
            FX_SEC_LIM as int,
            samples_per_second as int,
            ENGINE_SPS_MAX as int,
        );
        vstd::arithmetic::div_mod::lemma_div_pos_is_pos(
            seconds * samples_per_second,
            FX_ONE as int,
        );
        vstd::arithmetic::div_mod::lemma_div_is_ordered(
            seconds * samples_per_second,
            (FX_SEC_LIM as int) * (ENGINE_SPS_MAX as int),
            FX_ONE as int,
        );
    }
    let n: u64 = ((seconds as u64) * (samples_per_second as u64)) / (FX_ONE as u64);
    if n < 1 {
        1
    } else {
        n as usize
    }
}

/// Converts a distance in fixed-point meters into samples via the speed
/// of sound.
pub fn distance_to_samples(meters: i64, samples_per_second: u32) -> (r: usize)
    requires
        0 <= meters,
        (meters as int) * (FX_ONE as int) <= (FX_SEC_LIM as int) * (FX_SPEED_OF_SOUND as int),
        1 <= samples_per_second <= ENGINE_SPS_MAX,
    ensures
        r as int == seconds_to_samples_s(
            crate::fixed::fx_div_s(meters as int, FX_SPEED_OF_SOUND as int),
            samples_per_second as int,
        ),
        1 <= r <= 0x8000_0000,
{
    proof {
        crate::fixed::lemma_fx_div_bound(
            meters as int,
            FX_SPEED_OF_SOUND as int,
            FX_SEC_LIM as int,
        );
    }
    let secs: i64 = crate::fixed::fx_div(meters, FX_SPEED_OF_SOUND);
    proof {
        vstd::arithmetic::div_mod::lemma_div_pos_is_pos(
            (meters as int) * (FX_ONE as int),
            FX_SPEED_OF_SOUND as int,
        );
    }
    seconds_to_samples(secs, samples_per_second)
}

/// Converts a number of samples into fixed-point seconds.
pub fn samples_to_seconds(samples: usize, samples_per_second: u32) -> (r: i64)
    requires
        samples <= 0x8000_0000,
        1 <= samples_per_second,
    ensures
        r as int == (samples * FX_ONE) / (samples_per_second as int),
{
    proof {
        vstd::arithmetic::div_mod::lemma_div_pos_is_pos(
            (samples as int) * (FX_ONE as int),
            samples_per_second as int,
        );
        vstd::arithmetic::div_mod::lemma_div_is_ordered_by_denominator(
            (samples as int) * (FX_ONE as int),
            1,
            samples_per_second as int,
        );
    }
    (((samples as u64) * (FX_ONE as u64)) / (samples_per_second as u64)) as i64
}

/// Converts a number of samples into fixed-point meters via the speed
/// of sound.
pub fn samples_to_distance(samples: usize, samples_per_second: u32) -> (r: i64)
    requires
        samples <= 0x8000_0000,
        1 <= samples_per_second,
        (samples as int) * (FX_ONE as int) <= (samples_per_second as int) * 0x1_0000_0000_0000,
    ensures
        r as int == fx_mul_s(
            (samples * FX_ONE) / (samples_per_second as int),
            FX_SPEED_OF_SOUND as int,
        ),
{
    let secs: i64 = samples_to_seconds(samples, samples_per_second);
    proof {
        vstd::arithmetic::div_mod::lemma_multiply_divide_le(
            (samples as int) * (FX_ONE as int),
            samples_per_second as int,
            0x1_0000_0000_0000,
        );
        crate::fixed::lemma_fx_mul_bound(
            secs as int,
            FX_SPEED_OF_SOUND as int,
            0x1_0000_0000_0000,
            FX_SPEED_OF_SOUND as int,
            0x200_0000_0000_0000,
        );
    }
    crate::fixed::fx_mul(secs, FX_SPEED_OF_SOUND)
}

/// Mathematical state of the muffler.
pub ghost struct MufV {
    pub straight_pipe: WgV,
    pub muffler_elements: Seq<WgV>,
}

/// Aggregate of one straight pipe and parallel muffler elements.
pub struct Muffler {
    /// The straight pipe from the exhaust collector.
    pub straight_pipe: WaveGuide,
    /// The parallel resonant branches.
    pub muffler_elements: Vec<WaveGuide>,
}

impl View for Muffler {
    type V = MufV;

    open spec fn view(&self) -> MufV {
        MufV {
            straight_pipe: self.straight_pipe@,
            muffler_elements: Seq::new(
                self.muffler_elements@.len(),
                |i: int| self.muffler_elements@[i]@,
            ),
        }
    }
}

/// Structural invariant of a muffler state.
pub open spec fn muf_wf(m: MufV) -> bool {
    &&& wg_wf(m.straight_pipe)
    &&& 1 <= m.muffler_elements.len() <= ENGINE_MUF_MAX
    &&& forall|i: int|
        0 <= i < m.muffler_elements.len() ==> wg_wf(#[trigger] m.muffler_elements[i])
}

/// Mathematical state of the engine.
pub ghost struct EngV {
    pub rpm: int,
    pub intake_volume: int,
    pub exhaust_volume: int,
    pub engine_vibrations_volume: int,
    pub cylinders: Seq<CylV>,
    pub intake_noise: NoiseV,
    pub intake_noise_factor: int,
    pub intake_noise_lp: LpfV,
    pub engine_vibration_filter: LpfV,
    pub muffler: MufV,
    pub intake_valve_shift: int,
    pub exhaust_valve_shift: int,
    pub crankshaft_fluctuation: int,
    pub crankshaft_fluctuation_lp: LpfV,
    pub crankshaft_noise: NoiseV,
    pub crankshaft_pos: int,
    pub exhaust_collector: int,
    pub intake_collector: int,
}

/// Structural invariant of an engine state: every component well
/// formed, every tuning parameter within its working range, the
/// crankshaft position within its cycle, and the running signals within
/// the bounds the update step maintains.
pub open spec fn eng_wf(e: EngV) -> bool {
    &&& 1 <= e.cylinders.len() <= ENGINE_CYL_MAX
    &&& forall|i: int| 0 <= i < e.cylinders.len() ==> cyl_wf(#[trigger] e.cylinders[i])
    &&& muf_wf(e.muffler)
    &&& 0 <= e.rpm <= FX_RPM_LIM
    &&& -FX_VOL_LIM <= e.intake_volume <= FX_VOL_LIM
    &&& -FX_VOL_LIM <= e.exhaust_volume <= FX_VOL_LIM
    &&& -FX_VOL_LIM <= e.engine_vibrations_volume <= FX_VOL_LIM
    &&& -FX_FACTOR_LIM <= e.intake_noise_factor <= FX_FACTOR_LIM
    &&& lpf_wf(e.intake_noise_lp)
    &&& lpf_wf(e.engine_vibration_filter)
    &&& lpf_wf(e.crankshaft_fluctuation_lp)
    &&& -(FX_ONE as int) <= e.intake_noise_lp.last <= FX_ONE as int
    &&& -(FX_ONE as int) <= e.crankshaft_fluctuation_lp.last <= FX_ONE as int
    &&& -FX_VIB_LIM <= e.engine_vibration_filter.last <= FX_VIB_LIM
    &&& -(FX_HALF as int) <= e.intake_valve_shift <= FX_HALF as int
    &&& -(FX_HALF as int) <= e.exhaust_valve_shift <= FX_HALF as int
    &&& -FX_FACTOR_LIM <= e.crankshaft_fluctuation <= FX_FACTOR_LIM
    &&& 0 <= e.crankshaft_pos < FX_ONE as int
    &&& -FX_COLL_LIM <= e.exhaust_collector <= FX_COLL_LIM
    &&& -FX_COLL_LIM <= e.intake_collector <= FX_COLL_LIM
}

/// The first `k` cylinders' intake leakages, summed.
pub open spec fn sum_pop_intake(cs: Seq<CylV>, crank: int, lec: int, ivs: int, evs: int, k: int) -> int
    decreases k,
{
    if k <= 0 {
        0
    } else {
        sum_pop_intake(cs, crank, lec, ivs, evs, k - 1) + cyl_pop_s(cs[k - 1], crank, lec, ivs, evs).1
    }
}

/// The first `k` cylinders' exhaust-collector leakages, summed.
pub open spec fn sum_pop_exhaust(cs: Seq<CylV>, crank: int, lec: int, ivs: int, evs: int, k: int) -> int
    decreases k,
{
    if k <= 0 {
        0
    } else {
        sum_pop_exhaust(cs, crank, lec, ivs, evs, k - 1) + cyl_pop_s(cs[k - 1], crank, lec, ivs, evs).2
    }
}

/// The first `k` cylinders' excitations, summed.
pub open spec fn sum_pop_vib(cs: Seq<CylV>, crank: int, lec: int, ivs: int, evs: int, k: int) -> int
    decreases k,
{
    if k <= 0 {
        0
    } else {
        sum_pop_vib(cs, crank, lec, ivs, evs, k - 1) + cyl_pop_s(cs[k - 1], crank, lec, ivs, evs).3
    }
}

/// The first `k` muffler elements' alpha-side leakages, summed.
pub open spec fn sum_el_alpha(els: Seq<WgV>, k: int) -> int
    decreases k,
{
    if k <= 0 {
        0
    } else {
        sum_el_alpha(els, k - 1) + wg_pop_alpha_out(els[k - 1])
    }
}

/// The first `k` muffler elements' beta-side leakages, summed.
pub open spec fn sum_el_beta(els: Seq<WgV>, k: int) -> int
    decreases k,
{
    if k <= 0 {
        0
    } else {
        sum_el_beta(els, k - 1) + wg_pop_beta_out(els[k - 1])
    }
}

/// The intake signal pushed into one cylinder: the filtered intake
/// noise modulated by that cylinder's intake valve, plus its share of
/// the intake collector.
pub open spec fn cyl_intake_in(c: CylV, intake_noise: int, coll_share: int, crank_pos: int) -> int {
    fx_mul_s(intake_noise, intake_valve_s(frac_trunc_s(crank_pos + c.crank_offset))) + coll_share
}

/// All cylinders after the pop phase.
pub open spec fn cyls_popped_s(cs: Seq<CylV>, crank: int, lec: int, ivs: int, evs: int) -> Seq<
    CylV,
> {
    Seq::new(cs.len(), |i: int| cyl_pop_s(cs[i], crank, lec, ivs, evs).0)
}

/// All cylinders after the push phase.
pub open spec fn cyls_pushed_s(cs: Seq<CylV>, intake_noise: int, coll_share: int, crank_pos: int) -> Seq<
    CylV,
> {
    Seq::new(cs.len(), |i: int| cyl_push_s(cs[i], cyl_intake_in(cs[i], intake_noise, coll_share, crank_pos)))
}

/// All muffler elements after the pop phase.
pub open spec fn els_popped_s(els: Seq<WgV>) -> Seq<WgV> {
    Seq::new(els.len(), |i: int| wg_popped(els[i]))
}

/// All muffler elements after the push phase.
pub open spec fn els_pushed_s(els: Seq<WgV>, share: int) -> Seq<WgV> {
    Seq::new(els.len(), |i: int| wg_pushed(els[i], share, 0))
}

/// The whole per-sample engine update: the successor state and the
/// three sub-mix signals `(intake, engine vibrations, exhaust)`.
pub open spec fn eng_gen_s(e: EngV) -> (EngV, int, int, int) {
    let noise1 = noise_next(e.intake_noise);
    let filtered_noise = lpf_out_s(e.intake_noise_lp.alpha, e.intake_noise_lp.last, noise_sample(noise1.w));
    let intake_noise = fx_mul_s(filtered_noise, e.intake_noise_factor);
    let num_cyl = e.cylinders.len() as int;
    let lec = div_trunc_s(e.exhaust_collector, num_cyl);
    let noise2 = noise_next(e.crankshaft_noise);
    let fluct_off = lpf_out_s(
        e.crankshaft_fluctuation_lp.alpha,
        e.crankshaft_fluctuation_lp.last,
        noise_sample(noise2.w),
    );
    let crank_eff = fx_mul_s(e.crankshaft_fluctuation, fluct_off) + e.crankshaft_pos;
    let ivs = e.intake_valve_shift;
    let evs = e.exhaust_valve_shift;
    let cyls1 = cyls_popped_s(e.cylinders, crank_eff, lec, ivs, evs);
    let intake_coll = sum_pop_intake(e.cylinders, crank_eff, lec, ivs, evs, num_cyl);
    let exhaust_coll = sum_pop_exhaust(e.cylinders, crank_eff, lec, ivs, evs, num_cyl);
    let vib = sum_pop_vib(e.cylinders, crank_eff, lec, ivs, evs, num_cyl);
    let sp_alpha = wg_pop_alpha_out(e.muffler.straight_pipe);
    let sp_beta = wg_pop_beta_out(e.muffler.straight_pipe);
    let n_el = e.muffler.muffler_elements.len() as int;
    let muf_alpha = sum_el_alpha(e.muffler.muffler_elements, n_el);
    let muf_beta = sum_el_beta(e.muffler.muffler_elements, n_el);
    let coll_share = div_trunc_s(intake_coll, num_cyl);
    let cyls2 = cyls_pushed_s(cyls1, intake_noise, coll_share, e.crankshaft_pos);
    let sp2 = wg_pushed(wg_popped(e.muffler.straight_pipe), exhaust_coll, muf_alpha);
    let els2 = els_pushed_s(els_popped_s(e.muffler.muffler_elements), div_trunc_s(sp_beta, n_el));
    let vib2 = lpf_out_s(e.engine_vibration_filter.alpha, e.engine_vibration_filter.last, vib);
    let next = EngV {
        cylinders: cyls2,
        intake_noise: noise1,
        intake_noise_lp: LpfV { last: filtered_noise, ..e.intake_noise_lp },
        engine_vibration_filter: LpfV { last: vib2, ..e.engine_vibration_filter },
        muffler: MufV { straight_pipe: sp2, muffler_elements: els2 },
        crankshaft_fluctuation_lp: LpfV { last: fluct_off, ..e.crankshaft_fluctuation_lp },
        crankshaft_noise: noise2,
        exhaust_collector: exhaust_coll + sp_alpha,
        intake_collector: intake_coll,
        ..e
    };
    (next, intake_coll, vib2, muf_beta)
}

/// Container of cylinders, muffler, noise sources, filters and running
/// state.
pub struct Engine {
    /// Engine speed in revolutions per minute, fixed-point.
    pub rpm: i64,
    /// Intake sub-mix volume.
    pub intake_volume: i64,
    /// Exhaust sub-mix volume.
    pub exhaust_volume: i64,
    /// Vibrations sub-mix volume.
    pub engine_vibrations_volume: i64,
    /// The cylinders, in firing order.
    pub cylinders: Vec<Cylinder>,
    /// Noise source feeding the intake.
    pub intake_noise: Noise,
    /// Strength of the intake noise.
    pub intake_noise_factor: i64,
    /// Low-pass shaping the intake noise.
    pub intake_noise_lp: LowPassFilter,
    /// Low-pass shaping the summed cylinder excitations.
    pub engine_vibration_filter: LowPassFilter,
    /// The muffler at the exhaust collector.
    pub muffler: Muffler,
    /// Intake valve timing shift, in `(-1/2, 1/2)`.
    pub intake_valve_shift: i64,
    /// Exhaust valve timing shift, in `(-1/2, 1/2)`.
    pub exhaust_valve_shift: i64,
    /// Strength of the crankshaft speed fluctuation.
    pub crankshaft_fluctuation: i64,
    /// Low-pass shaping the crankshaft fluctuation noise.
    pub crankshaft_fluctuation_lp: LowPassFilter,
    /// Noise source driving the crankshaft fluctuation.
    pub crankshaft_noise: Noise,
    /// Crankshaft position within the four-stroke cycle, in `[0, 1)`.
    pub crankshaft_pos: i64,
    /// Running value: pressure at the exhaust collector.
    pub exhaust_collector: i64,
    /// Running value: pressure at the intake collector.
    pub intake_collector: i64,
}

impl View for Engine {
    type V = EngV;

    open spec fn view(&self) -> EngV {
        EngV {
            rpm: self.rpm as int,
            intake_volume: self.intake_volume as int,
            exhaust_volume: self.exhaust_volume as int,
            engine_vibrations_volume: self.engine_vibrations_volume as int,
            cylinders: Seq::new(self.cylinders@.len(), |i: int| self.cylinders@[i]@),
            intake_noise: self.intake_noise@,
            intake_noise_factor: self.intake_noise_factor as int,
            intake_noise_lp: self.intake_noise_lp@,
            engine_vibration_filter: self.engine_vibration_filter@,
            muffler: self.muffler@,
            intake_valve_shift: self.intake_valve_shift as int,
            exhaust_valve_shift: self.exhaust_valve_shift as int,
            crankshaft_fluctuation: self.crankshaft_fluctuation as int,
            crankshaft_fluctuation_lp: self.crankshaft_fluctuation_lp@,
            crankshaft_noise: self.crankshaft_noise@,
            crankshaft_pos: self.crankshaft_pos as int,
            exhaust_collector: self.exhaust_collector as int,
            intake_collector: self.intake_collector as int,
        }
    }
}

/// One cylinder of the preset configuration, as a value: the shared
/// geometry, strengths and reflections, a distinct crank offset and
/// valve-side reflection pair, zeroed running state, and waveguides
/// sized from the sample rate.
pub open spec fn v8_cylinder_s(sps: int, crank_offset: int, exhaust_alpha: int,
    intake_alpha: int) -> CylV {
    CylV {
        crank_offset,
        exhaust_waveguide: crate::waveguide::wg_new_s(
            seconds_to_samples_s(257251, sps),
            exhaust_alpha,
            16106127,
            sps,
        ),
        intake_waveguide: crate::waveguide::wg_new_s(
            seconds_to_samples_s(39147, sps),
            intake_alpha,
            -203362058,
            sps,
        ),
        extractor_waveguide: crate::waveguide::wg_new_s(
            seconds_to_samples_s(156587, sps),
            0,
            -218224,
            sps,
        ),
        intake_open_refl: 1630528,
        intake_closed_refl: 268435456,
        exhaust_open_refl: -188320,
        exhaust_closed_refl: 191797563,
        piston_motion_factor: 687054725,
        ignition_factor: 688408713,
        ignition_time: 27608408,
        cyl_sound: 0,
        extractor_exhaust: 0,
    }
}

/// The preset V8 engine `Engine::new` builds at sample rate `sps`:
/// eight cylinders at their crank offsets, a four-element muffler, the
/// shaping filters, default-seeded noise sources, and zeroed running
/// state, with every delay line sized per `seconds_to_samples_s`.
pub open spec fn v8_engine_s(sps: int) -> EngV {
    EngV {
        rpm: FX_V8_RPM as int,
        intake_volume: FX_V8_INTAKE_VOLUME as int,
        exhaust_volume: FX_V8_EXHAUST_VOLUME as int,
        engine_vibrations_volume: FX_V8_VIBRATIONS_VOLUME as int,
        cylinders: seq![
            v8_cylinder_s(sps, 0, 191797563, 55146816),
            v8_cylinder_s(sps, 134217728, 191797563, FX_ONE as int),
            v8_cylinder_s(sps, 178956980, 126959169, FX_ONE as int),
            v8_cylinder_s(sps, 201326592, 2882640, FX_ONE as int),
            v8_cylinder_s(sps, 214748365, 18859216, FX_ONE as int),
            v8_cylinder_s(sps, 223696204, 67720951, FX_ONE as int),
            v8_cylinder_s(sps, 230087537, 116416423, FX_ONE as int),
            v8_cylinder_s(sps, 234881024, 157596309, FX_ONE as int),
        ],
        intake_noise: crate::noise::noise_seeded(crate::noise::NOISE_DEFAULT_SEED),
        intake_noise_factor: 368211358,
        intake_noise_lp: crate::filter::lpf_new_s(508653752029, sps),
        engine_vibration_filter: crate::filter::lpf_new_s(24787538280, sps),
        muffler: MufV {
            straight_pipe: crate::waveguide::wg_new_s(
                seconds_to_samples_s(1728053, sps),
                1697696,
                442976,
                sps,
            ),
            muffler_elements: seq![
                crate::waveguide::wg_new_s(seconds_to_samples_s(39147, sps), 0, -38139648, sps),
                crate::waveguide::wg_new_s(seconds_to_samples_s(50332, sps), 0, -38139648, sps),
                crate::waveguide::wg_new_s(seconds_to_samples_s(55924, sps), 0, -38139648, sps),
                crate::waveguide::wg_new_s(seconds_to_samples_s(67109, sps), 0, -38139648, sps),
            ],
        },
        intake_valve_shift: -11189344,
        exhaust_valve_shift: -1248392,
        crankshaft_fluctuation: 107378316,
        crankshaft_fluctuation_lp: crate::filter::lpf_new_s(3120721125, sps),
        crankshaft_noise: crate::noise::noise_seeded(crate::noise::NOISE_DEFAULT_SEED),
        crankshaft_pos: 0,
        exhaust_collector: 0,
        intake_collector: 0,
    }
}

impl Muffler {
    /// Structural invariant.
    pub open spec fn wf(&self) -> bool {
        muf_wf(self@)
    }

    /// Pop phase of the parallel elements: reads every element and
    /// returns the summed `(alpha, beta)` leakages.
    pub fn pop_elements(&mut self) -> (r: (i64, i64))
        requires
            old(self).wf(),
        ensures
            final(self).wf(),
            final(self)@ == (MufV {
                muffler_elements: els_popped_s(old(self)@.muffler_elements),
                ..old(self)@
            }),
            r.0 as int == sum_el_alpha(
                old(self)@.muffler_elements,
                old(self)@.muffler_elements.len() as int,
            ),
            r.1 as int == sum_el_beta(
                old(self)@.muffler_elements,
                old(self)@.muffler_elements.len() as int,
            ),
            -(ENGINE_MUF_MAX as int) * FX_DAMP_LIM <= r.0 as int <= (ENGINE_MUF_MAX as int)
                * FX_DAMP_LIM,
            -(ENGINE_MUF_MAX as int) * FX_DAMP_LIM <= r.1 as int <= (ENGINE_MUF_MAX as int)
                * FX_DAMP_LIM,
    {
        let ghost els0 = self@.muffler_elements;
        let ghost m0 = self@;
        let n = self.muffler_elements.len();
        proof {
            assert forall|j: int| 0 <= j < n implies wg_wf(
                #[trigger] self.muffler_elements@[j]@,
            ) && self.muffler_elements@[j]@ == els0[j] by {
                assert(m0.muffler_elements[j] == self.muffler_elements@[j]@);
            }
        }
        let mut muf_a: i64 = 0;
        let mut muf_b: i64 = 0;
        let mut k: usize = 0;
        while k < n
            invariant
                k <= n,
                n == els0.len(),
                n <= ENGINE_MUF_MAX,
                self.muffler_elements@.len() == n,
                self@ == (MufV { muffler_elements: self@.muffler_elements, ..m0 }),
                forall|j: int| 0 <= j < n ==> wg_wf(#[trigger] els0[j]),
                forall|j: int|
                    0 <= j < k ==> #[trigger] self.muffler_elements@[j]@ == wg_popped(els0[j]),
                forall|j: int| k <= j < n ==> #[trigger] self.muffler_elements@[j]@ == els0[j],
                forall|j: int| 0 <= j < n ==> wg_wf(#[trigger] self.muffler_elements@[j]@),
                muf_a as int == sum_el_alpha(els0, k as int),
                muf_b as int == sum_el_beta(els0, k as int),
                -(k as int) * FX_DAMP_LIM <= muf_a as int <= (k as int) * FX_DAMP_LIM,
                -(k as int) * FX_DAMP_LIM <= muf_b as int <= (k as int) * FX_DAMP_LIM,
            decreases n - k,
        {
            let ret = self.muffler_elements[k].pop();
            muf_a = muf_a + ret.0;
            muf_b = muf_b + ret.1;
            k = k + 1;
        }
        proof {
            assert(self@.muffler_elements =~= els_popped_s(els0));
        }
        (muf_a, muf_b)
    }

    /// Push phase of the parallel elements: each receives its share of
    /// the straight pipe's beta leakage on its alpha side and silence
    /// on its beta side.
    pub fn push_elements(&mut self, share: i64)
        requires
            old(self).wf(),
            -FX_DAMP_LIM <= share <= FX_DAMP_LIM,
        ensures
            final(self).wf(),
            final(self)@ == (MufV {
                muffler_elements: els_pushed_s(old(self)@.muffler_elements, share as int),
                ..old(self)@
            }),
    {
        let ghost els0 = self@.muffler_elements;
        let ghost m0 = self@;
        let n = self.muffler_elements.len();
        proof {
            assert forall|j: int| 0 <= j < n implies wg_wf(
                #[trigger] self.muffler_elements@[j]@,
            ) && self.muffler_elements@[j]@ == els0[j] by {
                assert(m0.muffler_elements[j] == self.muffler_elements@[j]@);
            }
        }
        let mut k: usize = 0;
        while k < n
            invariant
                k <= n,
                n == els0.len(),
                self.muffler_elements@.len() == n,
                self@ == (MufV { muffler_elements: self@.muffler_elements, ..m0 }),
                -FX_DAMP_LIM <= share <= FX_DAMP_LIM,
                forall|j: int| 0 <= j < n ==> wg_wf(#[trigger] els0[j]),
                forall|j: int|
                    0 <= j < k ==> #[trigger] self.muffler_elements@[j]@ == wg_pushed(
                        els0[j],
                        share as int,
                        0,
                    ),
                forall|j: int| k <= j < n ==> #[trigger] self.muffler_elements@[j]@ == els0[j],
                forall|j: int| 0 <= j < n ==> wg_wf(#[trigger] self.muffler_elements@[j]@),
            decreases n - k,
        {
            self.muffler_elements[k].push(share, 0);
            k = k + 1;
        }
        proof {
            assert(self@.muffler_elements =~= els_pushed_s(els0, share as int));
        }
    }
}

impl Engine {
    /// Structural invariant.
    pub open spec fn wf(&self) -> bool {
        eng_wf(self@)
    }

    /// Pop phase of the cylinders: every cylinder is popped against the
    /// effective crank position and the previous exhaust collector
    /// share; returns the accumulated `(intake, exhaust, vibration)`
    /// signals.
    pub fn pop_cylinders(&mut self, crank_eff: i64, lec: i64, ivs: i64, evs: i64) -> (r: (
        i64,
        i64,
        i64,
    ))
        requires
            old(self).wf(),
            -crate::cylinder::FX_CRANK_IN_LIM <= crank_eff <= crate::cylinder::FX_CRANK_IN_LIM,
            -crate::waveguide::FX_WG_IN_LIM <= lec <= crate::waveguide::FX_WG_IN_LIM,
            -FX_HALF <= ivs <= FX_HALF,
            -FX_HALF <= evs <= FX_HALF,
        ensures
            final(self)@ == (EngV {
                cylinders: cyls_popped_s(
                    old(self)@.cylinders,
                    crank_eff as int,
                    lec as int,
                    ivs as int,
                    evs as int,
                ),
                ..old(self)@
            }),
            forall|j: int|
                0 <= j < final(self)@.cylinders.len() ==> cyl_wf(
                    #[trigger] final(self)@.cylinders[j],
                ),
            r.0 as int == sum_pop_intake(
                old(self)@.cylinders,
                crank_eff as int,
                lec as int,
                ivs as int,
                evs as int,
                old(self)@.cylinders.len() as int,
            ),
            r.1 as int == sum_pop_exhaust(
                old(self)@.cylinders,
                crank_eff as int,
                lec as int,
                ivs as int,
                evs as int,
                old(self)@.cylinders.len() as int,
            ),
            r.2 as int == sum_pop_vib(
                old(self)@.cylinders,
                crank_eff as int,
                lec as int,
                ivs as int,
                evs as int,
                old(self)@.cylinders.len() as int,
            ),
            -(ENGINE_CYL_MAX as int) * FX_DAMP_LIM <= r.0 as int <= (ENGINE_CYL_MAX as int)
                * FX_DAMP_LIM,
            -(ENGINE_CYL_MAX as int) * FX_DAMP_LIM <= r.1 as int <= (ENGINE_CYL_MAX as int)
                * FX_DAMP_LIM,
            -(ENGINE_CYL_MAX as int) * FX_CYL_SOUND_LIM <= r.2 as int <= (ENGINE_CYL_MAX as int)
                * FX_CYL_SOUND_LIM,
    {
        let ghost e0 = self@;
        let ghost cyls0 = e0.cylinders;
        let n = self.cylinders.len();
        proof {
            assert forall|j: int| 0 <= j < n implies cyl_wf(#[trigger] self.cylinders@[j]@)
                && self.cylinders@[j]@ == cyls0[j] by {
                assert(e0.cylinders[j] == self.cylinders@[j]@);
            }
        }
        let mut intake_acc: i64 = 0;
        let mut exhaust_acc: i64 = 0;
        let mut vib_acc: i64 = 0;
        let mut i: usize = 0;
        while i < n
            invariant
                i <= n,
                n == cyls0.len(),
                n <= ENGINE_CYL_MAX,
                self.cylinders@.len() == n,
                self@ == (EngV { cylinders: self@.cylinders, ..e0 }),
                forall|j: int| 0 <= j < n ==> cyl_wf(#[trigger] cyls0[j]),
                -crate::cylinder::FX_CRANK_IN_LIM <= crank_eff
                    <= crate::cylinder::FX_CRANK_IN_LIM,
                -crate::waveguide::FX_WG_IN_LIM <= lec <= crate::waveguide::FX_WG_IN_LIM,
                -FX_HALF <= ivs <= FX_HALF,
                -FX_HALF <= evs <= FX_HALF,
                forall|j: int|
                    0 <= j < i ==> #[trigger] self.cylinders@[j]@ == cyl_pop_s(
                        cyls0[j],
                        crank_eff as int,
                        lec as int,
                        ivs as int,
                        evs as int,
                    ).0,
                forall|j: int| i <= j < n ==> #[trigger] self.cylinders@[j]@ == cyls0[j],
                forall|j: int| 0 <= j < n ==> cyl_wf(#[trigger] self.cylinders@[j]@),
                intake_acc as int == sum_pop_intake(
                    cyls0,
                    crank_eff as int,
                    lec as int,
                    ivs as int,
                    evs as int,
                    i as int,
                ),
                exhaust_acc as int == sum_pop_exhaust(
                    cyls0,
                    crank_eff as int,
                    lec as int,
                    ivs as int,
                    evs as int,
                    i as int,
                ),
                vib_acc as int == sum_pop_vib(
                    cyls0,
                    crank_eff as int,
                    lec as int,
                    ivs as int,
                    evs as int,
                    i as int,
                ),
                -(i as int) * FX_DAMP_LIM <= intake_acc as int <= (i as int) * FX_DAMP_LIM,
                -(i as int) * FX_DAMP_LIM <= exhaust_acc as int <= (i as int) * FX_DAMP_LIM,
                -(i as int) * FX_CYL_SOUND_LIM <= vib_acc as int <= (i as int)
                    * FX_CYL_SOUND_LIM,
            decreases n - i,
        {
            let r3 = self.cylinders[i].pop(crank_eff, lec, ivs, evs);
            intake_acc = intake_acc + r3.0;
            exhaust_acc = exhaust_acc + r3.1;
            vib_acc = vib_acc + r3.2;
            i = i + 1;
        }
        proof {
            assert(self@.cylinders =~= cyls_popped_s(
                cyls0,
                crank_eff as int,
                lec as int,
                ivs as int,
                evs as int,
            ));
        }
        (intake_acc, exhaust_acc, vib_acc)
    }

    /// Push phase of the cylinders: each receives the filtered intake
    /// noise modulated by its own intake valve plus its share of the
    /// intake collector.
    pub fn push_cylinders(&mut self, intake_noise: i64, coll_share: i64)
        requires
            -FX_FACTOR_LIM <= intake_noise <= FX_FACTOR_LIM,
            -FX_COLL_LIM <= coll_share <= FX_COLL_LIM,
            0 <= old(self)@.crankshaft_pos < FX_ONE,
            1 <= old(self)@.cylinders.len() <= ENGINE_CYL_MAX,
            forall|j: int|
                0 <= j < old(self)@.cylinders.len() ==> cyl_wf(#[trigger] old(self)@.cylinders[j]),
        ensures
            final(self)@ == (EngV {
                cylinders: cyls_pushed_s(
                    old(self)@.cylinders,
                    intake_noise as int,
                    coll_share as int,
                    old(self)@.crankshaft_pos,
                ),
                ..old(self)@
            }),
            forall|j: int|
                0 <= j < final(self)@.cylinders.len() ==> cyl_wf(
                    #[trigger] final(self)@.cylinders[j],
                ),
    {
        let ghost e0 = self@;
        let ghost cyls0 = e0.cylinders;
        let n = self.cylinders.len();
        let crank_plain = self.crankshaft_pos;
        proof {
            assert forall|j: int| 0 <= j < n implies cyl_wf(#[trigger] self.cylinders@[j]@)
                && self.cylinders@[j]@ == cyls0[j] by {
                assert(e0.cylinders[j] == self.cylinders@[j]@);
            }
        }
        let mut i: usize = 0;
        while i < n
            invariant
                i <= n,
                n == cyls0.len(),
                self.cylinders@.len() == n,
                self@ == (EngV { cylinders: self@.cylinders, ..e0 }),
                crank_plain == e0.crankshaft_pos,
                0 <= crank_plain < FX_ONE,
                -FX_FACTOR_LIM <= intake_noise <= FX_FACTOR_LIM,
                -FX_COLL_LIM <= coll_share <= FX_COLL_LIM,
                forall|j: int| 0 <= j < n ==> cyl_wf(#[trigger] cyls0[j]),
                forall|j: int|
                    0 <= j < i ==> #[trigger] self.cylinders@[j]@ == cyl_push_s(
                        cyls0[j],
                        cyl_intake_in(
                            cyls0[j],
                            intake_noise as int,
                            coll_share as int,
                            crank_plain as int,
                        ),
                    ),
                forall|j: int| i <= j < n ==> #[trigger] self.cylinders@[j]@ == cyls0[j],
                forall|j: int| 0 <= j < n ==> cyl_wf(#[trigger] self.cylinders@[j]@),
            decreases n - i,
        {
            proof {
                assert(cyl_wf(self.cylinders@[i as int]@));
            }
            let off = self.cylinders[i].crank_offset;
            let valve = crate::cylinder::intake_valve(crate::fixed::frac_trunc(crank_plain + off));
            proof {
                crate::fixed::lemma_fx_mul_bound(
                    intake_noise as int,
                    valve as int,
                    FX_FACTOR_LIM as int,
                    FX_ONE as int,
                    FX_FACTOR_LIM as int,
                );
            }
            let in_sig = crate::fixed::fx_mul(intake_noise, valve) + coll_share;
            self.cylinders[i].push(in_sig);
            i = i + 1;
        }
        proof {
            assert(self@.cylinders =~= cyls_pushed_s(
                cyls0,
                intake_noise as int,
                coll_share as int,
                crank_plain as int,
            ));
        }
    }

    /// One cylinder of the preset configuration: shared geometry and
    /// strengths, with its own crank offset and valve-side reflections.
    fn v8_cylinder(samples_per_second: u32, crank_offset: i64, exhaust_alpha: i64,
        intake_alpha: i64) -> (c: Cylinder)
        requires
            1 <= samples_per_second <= ENGINE_SPS_MAX,
            0 <= crank_offset <= FX_ONE,
            -FX_ONE <= exhaust_alpha <= FX_ONE,
            -FX_ONE <= intake_alpha <= FX_ONE,
        ensures
            c.wf(),
            c@ == v8_cylinder_s(
                samples_per_second as int,
                crank_offset as int,
                exhaust_alpha as int,
                intake_alpha as int,
            ),
    {
        Cylinder {
            crank_offset,
            exhaust_waveguide: WaveGuide::new(
                seconds_to_samples(257251, samples_per_second),
                exhaust_alpha,
                16106127,
                samples_per_second,
            ),
            intake_waveguide: WaveGuide::new(
                seconds_to_samples(39147, samples_per_second),
                intake_alpha,
                -203362058,
                samples_per_second,
            ),
            extractor_waveguide: WaveGuide::new(
                seconds_to_samples(156587, samples_per_second),
                0,
                -218224,
                samples_per_second,
            ),
            intake_open_refl: 1630528,
            intake_closed_refl: 268435456,
            exhaust_open_refl: -188320,
            exhaust_closed_refl: 191797563,
            piston_motion_factor: 687054725,
            ignition_factor: 688408713,
            ignition_time: 27608408,
            cyl_sound: 0,
            extractor_exhaust: 0,
        }
    }

    /// Factory returning the preset V8-like configuration: eight
    /// cylinders, a four-element muffler, shaped noise and fluctuation
    /// filters, and zeroed running state.
    pub fn new(samples_per_second: u32) -> (r: Engine)
        requires
            1 <= samples_per_second <= ENGINE_SPS_MAX,
        ensures
            r.wf(),
            r@ == v8_engine_s(samples_per_second as int),
    {
        let mut cylinders: Vec<Cylinder> = Vec::new();
        cylinders.push(Self::v8_cylinder(samples_per_second, 0, 191797563, 55146816));
        cylinders.push(Self::v8_cylinder(samples_per_second, 134217728, 191797563, FX_ONE));
        cylinders.push(Self::v8_cylinder(samples_per_second, 178956980, 126959169, FX_ONE));
        cylinders.push(Self::v8_cylinder(samples_per_second, 201326592, 2882640, FX_ONE));
        cylinders.push(Self::v8_cylinder(samples_per_second, 214748365, 18859216, FX_ONE));
        cylinders.push(Self::v8_cylinder(samples_per_second, 223696204, 67720951, FX_ONE));
        cylinders.push(Self::v8_cylinder(samples_per_second, 230087537, 116416423, FX_ONE));
        cylinders.push(Self::v8_cylinder(samples_per_second, 234881024, 157596309, FX_ONE));
        let mut muffler_elements: Vec<WaveGuide> = Vec::new();
        muffler_elements.push(
            WaveGuide::new(
                seconds_to_samples(39147, samples_per_second),
                0,
                -38139648,
                samples_per_second,
            ),
        );
        muffler_elements.push(
            WaveGuide::new(
                seconds_to_samples(50332, samples_per_second),
                0,
                -38139648,
                samples_per_second,
            ),
        );
        muffler_elements.push(
            WaveGuide::new(
                seconds_to_samples(55924, samples_per_second),
                0,
                -38139648,
                samples_per_second,
            ),
        );
        muffler_elements.push(
            WaveGuide::new(
                seconds_to_samples(67109, samples_per_second),
                0,
                -38139648,
                samples_per_second,
            ),
        );
        let r = Engine {
            rpm: FX_V8_RPM,
            intake_volume: FX_V8_INTAKE_VOLUME,
            exhaust_volume: FX_V8_EXHAUST_VOLUME,
            engine_vibrations_volume: FX_V8_VIBRATIONS_VOLUME,
            cylinders,
            intake_noise: Noise::default(),
            intake_noise_factor: 368211358,
            intake_noise_lp: LowPassFilter::new(508653752029, samples_per_second),
            engine_vibration_filter: LowPassFilter::new(24787538280, samples_per_second),
            muffler: Muffler {
                straight_pipe: WaveGuide::new(
                    seconds_to_samples(1728053, samples_per_second),
                    1697696,
                    442976,
                    samples_per_second,
                ),
                muffler_elements,
            },
            intake_valve_shift: -11189344,
            exhaust_valve_shift: -1248392,
            crankshaft_fluctuation: 107378316,
            crankshaft_fluctuation_lp: LowPassFilter::new(3120721125, samples_per_second),
            crankshaft_noise: Noise::default(),
            crankshaft_pos: 0,
            exhaust_collector: 0,
            intake_collector: 0,
        };
        proof {
            let s = v8_engine_s(samples_per_second as int);
            assert(r@.cylinders =~= s.cylinders);
            assert(r@.muffler.muffler_elements =~= s.muffler.muffler_elements);
            assert(r@ == s);
        }
        r
    }
}

/// An engine state with its noise sources and their shaping filters
/// replaced by fixed values: what remains is the noise-free state.
pub open spec fn eng_scrubbed(e: EngV) -> EngV {
    EngV {
        intake_noise: crate::noise::noise_seeded(0),
        crankshaft_noise: crate::noise::noise_seeded(0),
        intake_noise_lp: LpfV { last: 0, ..e.intake_noise_lp },
        crankshaft_fluctuation_lp: LpfV { last: 0, ..e.crankshaft_fluctuation_lp },
        ..e
    }
}

/// Stationarity without noise: with the intake noise strength and the
/// crankshaft fluctuation both zero, the per-sample update is a function
/// of the noise-free state alone — two engines that agree on everything
/// but their noise sources produce the same three signals and agree
/// again afterwards.
pub proof fn lemma_gen_stationary_without_noise(e1: EngV, e2: EngV)
    requires
        e1.intake_noise_factor == 0,
        e1.crankshaft_fluctuation == 0,
        eng_scrubbed(e1) == eng_scrubbed(e2),
    ensures
        eng_gen_s(e1).1 == eng_gen_s(e2).1,
        eng_gen_s(e1).2 == eng_gen_s(e2).2,
        eng_gen_s(e1).3 == eng_gen_s(e2).3,
        eng_scrubbed(eng_gen_s(e1).0) == eng_scrubbed(eng_gen_s(e2).0),
{
    assert(e1.cylinders == eng_scrubbed(e1).cylinders);
    assert(e2.intake_noise_factor == 0 && e2.crankshaft_fluctuation == 0);
    let f1 = lpf_out_s(
        e1.intake_noise_lp.alpha,
        e1.intake_noise_lp.last,
        noise_sample(noise_next(e1.intake_noise).w),
    );
    let f2 = lpf_out_s(
        e2.intake_noise_lp.alpha,
        e2.intake_noise_lp.last,
        noise_sample(noise_next(e2.intake_noise).w),
    );
    crate::fixed::lemma_fx_mul_zero(f1);
    crate::fixed::lemma_fx_mul_zero(f2);
    let o1 = lpf_out_s(
        e1.crankshaft_fluctuation_lp.alpha,
        e1.crankshaft_fluctuation_lp.last,
        noise_sample(noise_next(e1.crankshaft_noise).w),
    );
    let o2 = lpf_out_s(
        e2.crankshaft_fluctuation_lp.alpha,
        e2.crankshaft_fluctuation_lp.last,
        noise_sample(noise_next(e2.crankshaft_noise).w),
    );
    crate::fixed::lemma_fx_mul_zero(o1);
    crate::fixed::lemma_fx_mul_zero(o2);
    assert(eng_scrubbed(eng_gen_s(e1).0) == eng_scrubbed(eng_gen_s(e2).0));
}

} // verus!
