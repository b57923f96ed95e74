//! The top-level sample generator.
//!
//! Owns the engine, a DC-removal low-pass filter and a master volume.
//! `frame` advances the crankshaft, runs the engine's two-phase update,
//! mixes the three sub-mix signals and removes the DC offset, returning
//! exactly one sample.

use vstd::prelude::*;

verus! {

use crate::fixed::FX_ONE;
use crate::fixed::fx_mul_s;
use crate::fixed::fx_mul;
use crate::fixed::div_trunc;
use crate::fixed::div_trunc_s;
use crate::fixed::frac_floor;
use crate::fixed::lemma_fx_mul_bound;
use crate::fixed::lemma_fx_mul_zero;
use crate::filter::LowPassFilter;
use crate::filter::LpfV;
use crate::filter::lpf_wf;
use crate::filter::lpf_out_s;
use crate::filter::lemma_lpf_out_between;
use crate::filter::FX_FILT_LIM;
use crate::waveguide::wg_wf;
use crate::cylinder::cyl_reset_s;
use crate::cylinder::cyl_wf;
use crate::cylinder::FX_FACTOR_LIM;
use crate::engine::Engine;
use crate::engine::EngV;
use crate::engine::MufV;
use crate::engine::eng_wf;
use crate::engine::eng_gen_s;
use crate::engine::FX_COLL_LIM;
use crate::engine::FX_VIB_LIM;
use crate::engine::FX_VOL_LIM;

/// Default master volume of a fresh generator: 0.1 in fixed-point.
pub const FX_DEFAULT_VOLUME: i64 = 26843546;

/// Largest raw magnitude a produced sample can reach.
pub const FX_OUT_LIM: i64 = 0x20_0000_0000_0000;

/// Mathematical state of a generator.
pub ghost struct GenV {
    pub volume: int,
    pub samples_per_second: int,
    pub engine: EngV,
    pub dc_lp: LpfV,
}

/// Structural invariant of a generator state.
pub open spec fn gen_wf(g: GenV) -> bool {
    &&& eng_wf(g.engine)
    &&& 1 <= g.samples_per_second <= 0xFFFF_FFFF
    &&& -FX_VOL_LIM <= g.volume <= FX_VOL_LIM
    &&& lpf_wf(g.dc_lp)
    &&& -FX_FILT_LIM <= g.dc_lp.last <= FX_FILT_LIM
}

/// The mixed sample before DC removal: the three sub-mix signals at
/// their volumes, scaled by the master volume.
pub open spec fn mix_s(g: GenV, intake: int, vibration: int, exhaust: int) -> int {
    fx_mul_s(
        fx_mul_s(exhaust, g.engine.exhaust_volume) + fx_mul_s(intake, g.engine.intake_volume)
            + fx_mul_s(vibration, g.engine.engine_vibrations_volume),
        g.volume,
    )
}

/// The whole effect of `frame`: the crankshaft advanced by
/// `rpm / (samples_per_second * 120)` within its cycle, the engine
/// updated, the mix taken, and the DC-removal filter applied; the
/// returned sample is the mix minus its low-passed copy.
pub open spec fn gen_frame_s(g: GenV) -> (GenV, int) {
    let inc = div_trunc_s(g.engine.rpm, g.samples_per_second * 120);
    let crank2 = (g.engine.crankshaft_pos + inc) % (FX_ONE as int);
    let stepped = eng_gen_s(EngV { crankshaft_pos: crank2, ..g.engine });
    let mixed = mix_s(g, stepped.1, stepped.2, stepped.3);
    let dc_out = lpf_out_s(g.dc_lp.alpha, g.dc_lp.last, mixed);
    (
        GenV { engine: stepped.0, dc_lp: LpfV { last: dc_out, ..g.dc_lp }, ..g },
        mixed - dc_out,
    )
}

/// The generator: engine, DC filter, master volume.
pub struct Generator {
    /// Master volume.
    pub volume: i64,
    /// The fixed sample rate.
    pub samples_per_second: u32,
    /// The engine being voiced.
    pub engine: Engine,
    /// Low-pass whose output is subtracted from each sample to remove
    /// the DC offset.
    pub dc_lp: LowPassFilter,
}

impl View for Generator {
    type V = GenV;

    open spec fn view(&self) -> GenV {
        GenV {
            volume: self.volume as int,
            samples_per_second: self.samples_per_second as int,
            engine: self.engine@,
            dc_lp: self.dc_lp@,
        }
    }
}

impl Generator {
    /// Structural invariant.
    pub open spec fn wf(&self) -> bool {
        gen_wf(self@)
    }

    /// Builds a generator around `engine` with the given DC-removal
    /// filter and the default master volume.
    pub fn new(samples_per_second: u32, engine: Engine, dc_lp: LowPassFilter) -> (r: Generator)
        requires
            1 <= samples_per_second,
            engine.wf(),
            dc_lp.wf(),
            -FX_FILT_LIM <= dc_lp.last <= FX_FILT_LIM,
        ensures
            r.wf(),
            r@ == (GenV {
                volume: FX_DEFAULT_VOLUME as int,
                samples_per_second: samples_per_second as int,
                engine: engine@,
                dc_lp: dc_lp@,
            }),
    {
        Generator { volume: FX_DEFAULT_VOLUME, samples_per_second, engine, dc_lp }
    }

    /// One engine update: pops every delay-consuming entity, then
    /// pushes everything back in the prescribed order; returns the
    /// three sub-mix signals `(intake, engine vibrations, exhaust)`.
    #[verifier::rlimit(100)]
    #[verifier::spinoff_prover]
    fn gen(&mut self) -> (r: (i64, i64, i64))
        requires
            old(self).wf(),
        ensures
            final(self).wf(),
            ({
                let s = eng_gen_s(old(self)@.engine);
                &&& final(self)@ == (GenV { engine: s.0, ..old(self)@ })
                &&& r.0 as int == s.1
                &&& r.1 as int == s.2
                &&& r.2 as int == s.3
            }),
            -FX_COLL_LIM <= r.0 <= FX_COLL_LIM,
            -FX_VIB_LIM <= r.1 <= FX_VIB_LIM,
            -FX_COLL_LIM <= r.2 <= FX_COLL_LIM,
    {
        let ghost e0 = self@.engine;
        let intake_noise_raw = self.engine.intake_noise.step();
        let filtered_noise = self.engine.intake_noise_lp.filter(intake_noise_raw);
        proof {
            lemma_lpf_out_between(
                e0.intake_noise_lp.alpha,
                e0.intake_noise_lp.last,
                intake_noise_raw as int,
            );
            lemma_fx_mul_bound(
                filtered_noise as int,
                e0.intake_noise_factor,
                FX_ONE as int,
                FX_FACTOR_LIM as int,
                FX_FACTOR_LIM as int,
            );
        }
        let intake_noise = fx_mul(filtered_noise, self.engine.intake_noise_factor);

        let num_cyl = self.engine.cylinders.len() as i64;
        let last_exhaust_collector = div_trunc(self.engine.exhaust_collector, num_cyl);
        self.engine.exhaust_collector = 0;
        self.engine.intake_collector = 0;

        let crank_noise_raw = self.engine.crankshaft_noise.step();
        let fluct_offset = self.engine.crankshaft_fluctuation_lp.filter(crank_noise_raw);
        proof {
            lemma_lpf_out_between(
                e0.crankshaft_fluctuation_lp.alpha,
                e0.crankshaft_fluctuation_lp.last,
                crank_noise_raw as int,
            );
            lemma_fx_mul_bound(
                e0.crankshaft_fluctuation,
                fluct_offset as int,
                FX_FACTOR_LIM as int,
                FX_ONE as int,
                FX_FACTOR_LIM as int,
            );
        }
        let crank_eff = fx_mul(self.engine.crankshaft_fluctuation, fluct_offset)
            + self.engine.crankshaft_pos;
        let ivs = self.engine.intake_valve_shift;
        let evs = self.engine.exhaust_valve_shift;

        let pops = self.engine.pop_cylinders(crank_eff, last_exhaust_collector, ivs, evs);
        let ghost ep = self@.engine;
        let straight_ret = self.engine.muffler.straight_pipe.pop();
        let muf = self.engine.muffler.pop_elements();

        // pop  //
        //////////
        // push //

        let coll_share = div_trunc(pops.0, num_cyl);
        proof {
            assert(self@.engine.cylinders == ep.cylinders);
            assert forall|j: int| 0 <= j < self@.engine.cylinders.len() implies cyl_wf(
                #[trigger] self@.engine.cylinders[j],
            ) by {
                assert(cyl_wf(ep.cylinders[j]));
            }
        }
        self.engine.push_cylinders(intake_noise, coll_share);
        self.engine.muffler.straight_pipe.push(pops.1, muf.0);
        self.engine.exhaust_collector = pops.1 + straight_ret.0;
        self.engine.intake_collector = pops.0;
        let el_share = div_trunc(straight_ret.1, self.engine.muffler.muffler_elements.len() as i64);
        self.engine.muffler.push_elements(el_share);

        let vib_out = self.engine.engine_vibration_filter.filter(pops.2);
        proof {
            lemma_lpf_out_between(
                e0.engine_vibration_filter.alpha,
                e0.engine_vibration_filter.last,
                pops.2 as int,
            );
            let s = eng_gen_s(e0);
            assert(self@.engine.cylinders == s.0.cylinders);
            assert(self@.engine.muffler.muffler_elements == s.0.muffler.muffler_elements);
            assert(self@.engine.muffler.straight_pipe == s.0.muffler.straight_pipe);
            assert(self@.engine.intake_noise_lp == s.0.intake_noise_lp);
            assert(self@.engine.crankshaft_fluctuation_lp == s.0.crankshaft_fluctuation_lp);
            assert(self@.engine.engine_vibration_filter == s.0.engine_vibration_filter);
            assert(self@.engine == s.0);
        }
        (pops.0, vib_out, muf.1)
    }

    /// Advances the crankshaft and produces the next output sample,
    /// exact per `gen_frame_s`; the crankshaft position stays within
    /// `[0, 1)` and the sample within `[-FX_OUT_LIM, FX_OUT_LIM]`.
    pub fn frame(&mut self) -> (r: i64)
        requires
            old(self).wf(),
        ensures
            final(self).wf(),
            final(self)@ == gen_frame_s(old(self)@).0,
            r as int == gen_frame_s(old(self)@).1,
            0 <= final(self)@.engine.crankshaft_pos < FX_ONE,
            -FX_OUT_LIM <= r <= FX_OUT_LIM,
    {
        let sps120: i64 = (self.samples_per_second as i64) * 120;
        let inc: i64 = div_trunc(self.engine.rpm, sps120);
        proof {
            vstd::arithmetic::div_mod::lemma_div_pos_is_pos(
                old(self)@.engine.rpm,
                sps120 as int,
            );
        }
        self.engine.crankshaft_pos = frac_floor(self.engine.crankshaft_pos + inc);
        let signals = self.gen();
        let intake = signals.0;
        let vibration = signals.1;
        let exhaust = signals.2;
        proof {
            lemma_fx_mul_bound(
                exhaust as int,
                old(self)@.engine.exhaust_volume,
                FX_COLL_LIM as int,
                FX_VOL_LIM as int,
                0x4000_0000_0000,
            );
            lemma_fx_mul_bound(
                intake as int,
                old(self)@.engine.intake_volume,
                FX_COLL_LIM as int,
                FX_VOL_LIM as int,
                0x4000_0000_0000,
            );
            lemma_fx_mul_bound(
                vibration as int,
                old(self)@.engine.engine_vibrations_volume,
                FX_VIB_LIM as int,
                FX_VOL_LIM as int,
                0x4000_0000_0000,
            );
        }
        let submixed: i64 = fx_mul(exhaust, self.engine.exhaust_volume)
            + fx_mul(intake, self.engine.intake_volume)
            + fx_mul(vibration, self.engine.engine_vibrations_volume);
        proof {
            lemma_fx_mul_bound(
                submixed as int,
                old(self)@.volume,
                0xC000_0000_0000,
                FX_VOL_LIM as int,
                FX_FILT_LIM as int,
            );
        }
        let mixed: i64 = fx_mul(submixed, self.volume);
        let dc_out = self.dc_lp.filter(mixed);
        proof {
            lemma_lpf_out_between(old(self)@.dc_lp.alpha, old(self)@.dc_lp.last, mixed as int);
        }
        mixed - dc_out
    }

    /// Zeroes every delay line and every cylinder running value, and
    /// clears both collectors; filter states and the crankshaft
    /// position are left as they are and converge on their own.
    pub fn reset(&mut self)
        requires
            old(self).wf(),
        ensures
            final(self).wf(),
            final(self)@ == (GenV { engine: eng_reset_s(old(self)@.engine), ..old(self)@ }),
    {
        let ghost e0 = self@.engine;
        let n = self.engine.cylinders.len();
        proof {
            assert forall|j: int| 0 <= j < n implies cyl_wf(
                #[trigger] self.engine.cylinders@[j]@,
            ) by {
                assert(e0.cylinders[j] == self.engine.cylinders@[j]@);
            }
        }
        let mut i: usize = 0;
        while i < n
            invariant
                i <= n,
                n == e0.cylinders.len(),
                self.engine.cylinders@.len() == n,
                self@.engine == (EngV { cylinders: self@.engine.cylinders, ..e0 }),
                self@ == (GenV { engine: self@.engine, ..old(self)@ }),
                e0 == (EngV { cylinders: e0.cylinders, ..e0 }),
                forall|j: int| 0 <= j < n ==> cyl_wf(#[trigger] e0.cylinders[j]),
                forall|j: int|
                    0 <= j < i ==> #[trigger] self.engine.cylinders@[j]@ == cyl_reset_s(
                        e0.cylinders[j],
                    ),
                forall|j: int| i <= j < n ==> #[trigger] self.engine.cylinders@[j]@ == e0.cylinders[j],
                forall|j: int| 0 <= j < n ==> cyl_wf(#[trigger] self.engine.cylinders@[j]@),
            decreases n - i,
        {
            self.engine.cylinders[i].clear();
            i = i + 1;
        }
        self.engine.muffler.straight_pipe.clear();
        let ghost e1 = self@.engine;
        let n_el = self.engine.muffler.muffler_elements.len();
        proof {
            assert forall|j: int| 0 <= j < n_el implies wg_wf(
                #[trigger] self.engine.muffler.muffler_elements@[j]@,
            ) by {
                assert(e1.muffler.muffler_elements[j] == self.engine.muffler.muffler_elements@[j]@);
                assert(e1.muffler.muffler_elements[j] == e0.muffler.muffler_elements[j]);
            }
        }
        let mut k: usize = 0;
        while k < n_el
            invariant
                k <= n_el,
                n_el == e1.muffler.muffler_elements.len(),
                self.engine.muffler.muffler_elements@.len() == n_el,
                self@.engine == (EngV { muffler: self@.engine.muffler, ..e1 }),
                self@ == (GenV { engine: self@.engine, ..old(self)@ }),
                self@.engine.muffler.straight_pipe == e1.muffler.straight_pipe,
                e1.muffler == (MufV {
                    muffler_elements: e1.muffler.muffler_elements,
                    ..e1.muffler
                }),
                forall|j: int|
                    0 <= j < n_el ==> wg_wf(#[trigger] e1.muffler.muffler_elements[j]),
                forall|j: int|
                    0 <= j < k ==> #[trigger] self.engine.muffler.muffler_elements@[j]@
                        == crate::waveguide::wg_zeroed(e1.muffler.muffler_elements[j]),
                forall|j: int|
                    k <= j < n_el ==> #[trigger] self.engine.muffler.muffler_elements@[j]@
                        == e1.muffler.muffler_elements[j],
                forall|j: int|
                    0 <= j < n_el ==> wg_wf(#[trigger] self.engine.muffler.muffler_elements@[j]@),
            decreases n_el - k,
        {
            self.engine.muffler.muffler_elements[k].clear();
            k = k + 1;
        }
        self.engine.exhaust_collector = 0;
        self.engine.intake_collector = 0;
        proof {
            assert(self@.engine.cylinders =~= eng_reset_s(old(self)@.engine).cylinders);
            assert(self@.engine.muffler.muffler_elements =~= eng_reset_s(
                old(self)@.engine,
            ).muffler.muffler_elements);
            assert(self@.engine =~= eng_reset_s(old(self)@.engine));
        }
    }
}

/// Silence under zero mix: with all three sub-mix volumes zero and a
/// settled DC filter, `frame` returns exactly zero, whatever the engine
/// state, and leaves the DC filter settled and the volumes zero — so
/// every later frame returns zero as well.
pub proof fn lemma_frame_silent_under_zero_mix(g: GenV)
    requires
        gen_wf(g),
        g.engine.intake_volume == 0,
        g.engine.exhaust_volume == 0,
        g.engine.engine_vibrations_volume == 0,
        g.dc_lp.last == 0,
    ensures
        gen_frame_s(g).1 == 0,
        gen_frame_s(g).0.dc_lp.last == 0,
        gen_frame_s(g).0.engine.intake_volume == 0,
        gen_frame_s(g).0.engine.exhaust_volume == 0,
        gen_frame_s(g).0.engine.engine_vibrations_volume == 0,
{
    let inc = div_trunc_s(g.engine.rpm, g.samples_per_second * 120);
    let crank2 = (g.engine.crankshaft_pos + inc) % (FX_ONE as int);
    let stepped = eng_gen_s(EngV { crankshaft_pos: crank2, ..g.engine });
    lemma_fx_mul_zero(stepped.1);
    lemma_fx_mul_zero(stepped.2);
    lemma_fx_mul_zero(stepped.3);
    lemma_fx_mul_zero(g.volume);
    assert(mix_s(g, stepped.1, stepped.2, stepped.3) == 0);
    lemma_fx_mul_zero(g.dc_lp.alpha);
    assert(lpf_out_s(g.dc_lp.alpha, 0, 0) == 0);
}

/// A stopped engine has a still crankshaft: with `rpm == 0`, `frame`
/// leaves the crankshaft position unchanged.
pub proof fn lemma_frame_rpm_zero_keeps_crank(g: GenV)
    requires
        gen_wf(g),
        g.engine.rpm == 0,
    ensures
        gen_frame_s(g).0.engine.crankshaft_pos == g.engine.crankshaft_pos,
{
    vstd::arithmetic::div_mod::lemma_div_of0(g.samples_per_second * 120);
    vstd::arithmetic::div_mod::lemma_small_mod(
        g.engine.crankshaft_pos as nat,
        FX_ONE as nat,
    );
}

/// The engine state after `Generator::reset`: every chamber zeroed,
/// every cylinder running value zeroed, both collectors zeroed; tuning
/// parameters, filters, noise states and the crankshaft position kept.
pub open spec fn eng_reset_s(e: EngV) -> EngV {
    EngV {
        cylinders: Seq::new(e.cylinders.len(), |i: int| cyl_reset_s(e.cylinders[i])),
        muffler: MufV {
            straight_pipe: crate::waveguide::wg_zeroed(e.muffler.straight_pipe),
            muffler_elements: Seq::new(
                e.muffler.muffler_elements.len(),
                |i: int| crate::waveguide::wg_zeroed(e.muffler.muffler_elements[i]),
            ),
        },
        exhaust_collector: 0,
        intake_collector: 0,
        ..e
    }
}

/// What `reset` leaves behind, spelled out: in every cylinder every
/// chamber holds only zeros and both running values are zero, and both
/// collectors are zero.
pub proof fn lemma_reset_quiet(e: EngV)
    ensures
        forall|i: int|
            0 <= i < e.cylinders.len() ==> crate::cylinder::cyl_quiet(
                #[trigger] eng_reset_s(e).cylinders[i],
            ),
        eng_reset_s(e).exhaust_collector == 0,
        eng_reset_s(e).intake_collector == 0,
{
    assert forall|i: int| 0 <= i < e.cylinders.len() implies crate::cylinder::cyl_quiet(
        #[trigger] eng_reset_s(e).cylinders[i],
    ) by {
        assert(eng_reset_s(e).cylinders[i] == cyl_reset_s(e.cylinders[i]));
    }
}

} // verus!
