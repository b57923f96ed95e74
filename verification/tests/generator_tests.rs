use enginesound::engine::Engine;
use enginesound::filter::LowPassFilter;
use enginesound::generator::Generator;
use enginesound::noise::Noise;

const ONE: i64 = 268435456;
const ONE_F: f64 = 268435456.0;

fn fx(v: f64) -> i64 {
    (v * ONE_F).round() as i64
}

fn v8_generator(sps: u32, dc_freq: i64) -> Generator {
    Generator::new(sps, Engine::new(sps), LowPassFilter::new(dc_freq, sps))
}

/// Silence under zero mix: a default V8 engine with all three sub-mix
/// volumes zeroed produces the exact zero sample, every time.
#[test]
fn silence_under_zero_mix() {
    let mut generator = v8_generator(42000, fx(0.5));
    generator.volume = ONE;
    generator.engine.intake_volume = 0;
    generator.engine.exhaust_volume = 0;
    generator.engine.engine_vibrations_volume = 0;
    for _ in 0..30000 {
        assert_eq!(generator.frame(), 0);
    }
}

/// Determinism with a fixed noise seed: two identically built
/// generators produce the same sequence sample for sample.
#[test]
fn determinism_with_fixed_noise_seed() {
    let mut first = v8_generator(42000, fx(0.5));
    first.engine.intake_noise = Noise::from_seed(0);
    first.engine.crankshaft_noise = Noise::from_seed(0);
    let mut second = v8_generator(42000, fx(0.5));
    second.engine.intake_noise = Noise::from_seed(0);
    second.engine.crankshaft_noise = Noise::from_seed(0);
    let mut louder = v8_generator(42000, fx(0.5));
    louder.engine.intake_noise = Noise::from_seed(0);
    louder.engine.crankshaft_noise = Noise::from_seed(0);
    louder.volume = ONE;
    let mut saw_nonzero = false;
    for _ in 0..1000 {
        let a = first.frame();
        assert_eq!(a, second.frame());
        if louder.frame() != 0 {
            saw_nonzero = true;
        }
    }
    assert!(saw_nonzero, "the engine was silent throughout");
}

/// DC-block convergence: with the noise sources disabled, the engine
/// at 700 rpm and the mix at full volume, the settled output carries no
/// bias.  At 700 rpm one crank cycle spans about 7200 samples and a
/// 42000-sample window covers a fractional number of cycles, so the
/// multi-unit in-cycle swing would dominate a plain window mean; the
/// mean over each whole cycle isolates the offset the DC block removes,
/// and that mean stays far below a thousandth.
#[test]
fn dc_block_convergence() {
    let mut generator = v8_generator(42000, fx(4.0));
    generator.volume = ONE;
    generator.engine.intake_noise_factor = 0;
    generator.engine.crankshaft_fluctuation = 0;
    generator.engine.rpm = fx(700.0);
    generator.engine.intake_volume = fx(0.33);
    generator.engine.exhaust_volume = fx(0.33);
    generator.engine.engine_vibrations_volume = fx(0.34);
    for _ in 0..158000 {
        generator.frame();
    }
    // six whole crank cycles, about the length of one second of audio
    for _cycle in 0..6 {
        let mut sum = 0.0f64;
        for _ in 0..7200 {
            sum += generator.frame() as f64 / ONE_F;
        }
        let mean = sum / 7200.0;
        assert!(mean.abs() < 1e-3, "mean of a settled cycle: {mean}");
    }
}

/// With every volume zeroed at construction time and a still, noise-free
/// engine, the generator is the constant zero stream.
#[test]
fn zero_volumes_and_still_engine_stay_silent() {
    let mut generator = v8_generator(42000, fx(0.5));
    generator.engine.rpm = 0;
    generator.engine.intake_noise_factor = 0;
    generator.engine.crankshaft_fluctuation = 0;
    generator.engine.intake_volume = 0;
    generator.engine.exhaust_volume = 0;
    generator.engine.engine_vibrations_volume = 0;
    for _ in 0..5000 {
        assert_eq!(generator.frame(), 0);
    }
}

/// With `rpm == 0` the crankshaft position never moves.
#[test]
fn crankshaft_still_at_zero_rpm() {
    let mut generator = v8_generator(42000, fx(0.5));
    generator.engine.rpm = 0;
    generator.engine.crankshaft_pos = fx(0.37);
    for _ in 0..2000 {
        generator.frame();
        assert_eq!(generator.engine.crankshaft_pos, fx(0.37));
    }
}

/// The crankshaft position stays within `[0, 1)` whatever the speed.
#[test]
fn crankshaft_stays_in_cycle() {
    let mut generator = v8_generator(42000, fx(0.5));
    generator.engine.rpm = fx(9000.0);
    for _ in 0..10000 {
        generator.frame();
        let pos = generator.engine.crankshaft_pos;
        assert!(0 <= pos && pos < ONE);
    }
}

/// After `reset`, every chamber of every cylinder and of the muffler
/// holds only zeros, the cylinder running values are zero, and both
/// collectors are zero.
#[test]
fn reset_silences_every_delay_line() {
    let mut generator = v8_generator(42000, fx(0.5));
    generator.volume = ONE;
    for _ in 0..5000 {
        generator.frame();
    }
    generator.reset();
    for cyl in generator.engine.cylinders.iter() {
        for wg in [&cyl.exhaust_waveguide, &cyl.intake_waveguide, &cyl.extractor_waveguide] {
            for s in wg.chamber0.samples.data.iter() {
                assert_eq!(*s, 0);
            }
            for s in wg.chamber1.samples.data.iter() {
                assert_eq!(*s, 0);
            }
        }
        assert_eq!(cyl.cyl_sound, 0);
        assert_eq!(cyl.extractor_exhaust, 0);
    }
    for s in generator.engine.muffler.straight_pipe.chamber0.samples.data.iter() {
        assert_eq!(*s, 0);
    }
    for s in generator.engine.muffler.straight_pipe.chamber1.samples.data.iter() {
        assert_eq!(*s, 0);
    }
    for el in generator.engine.muffler.muffler_elements.iter() {
        for s in el.chamber0.samples.data.iter() {
            assert_eq!(*s, 0);
        }
        for s in el.chamber1.samples.data.iter() {
            assert_eq!(*s, 0);
        }
    }
    assert_eq!(generator.engine.exhaust_collector, 0);
    assert_eq!(generator.engine.intake_collector, 0);
}

/// The preset factory sizes every delay line from the sample rate:
/// `max(1, floor(delay_seconds * samples_per_second))` samples per
/// chamber, all zero-filled, with the cylinders at distinct crank
/// offsets.
#[test]
fn preset_sizes_delay_lines_from_sample_rate() {
    let engine = Engine::new(42000);
    assert_eq!(engine.cylinders.len(), 8);
    assert_eq!(engine.muffler.muffler_elements.len(), 4);
    let mut offsets = vec![];
    for cyl in engine.cylinders.iter() {
        assert_eq!(cyl.exhaust_waveguide.chamber0.samples.data.len(), 40);
        assert_eq!(cyl.exhaust_waveguide.chamber1.samples.data.len(), 40);
        assert_eq!(cyl.intake_waveguide.chamber0.samples.data.len(), 6);
        assert_eq!(cyl.extractor_waveguide.chamber0.samples.data.len(), 24);
        for s in cyl.exhaust_waveguide.chamber0.samples.data.iter() {
            assert_eq!(*s, 0);
        }
        assert!(0 <= cyl.crank_offset && cyl.crank_offset < ONE);
        assert!(!offsets.contains(&cyl.crank_offset));
        offsets.push(cyl.crank_offset);
    }
    assert_eq!(engine.muffler.straight_pipe.chamber0.samples.data.len(), 270);
    let element_lengths: Vec<usize> = engine
        .muffler
        .muffler_elements
        .iter()
        .map(|el| el.chamber0.samples.data.len())
        .collect();
    assert_eq!(element_lengths, vec![6, 7, 8, 10]);
    for el in engine.muffler.muffler_elements.iter() {
        for s in el.chamber0.samples.data.iter() {
            assert_eq!(*s, 0);
        }
        for s in el.chamber1.samples.data.iter() {
            assert_eq!(*s, 0);
        }
    }
    for s in engine.muffler.straight_pipe.chamber0.samples.data.iter() {
        assert_eq!(*s, 0);
    }
    // at a very low rate every delay clamps to the one-sample minimum
    let tiny = Engine::new(1);
    for cyl in tiny.cylinders.iter() {
        assert_eq!(cyl.exhaust_waveguide.chamber0.samples.data.len(), 1);
        assert_eq!(cyl.intake_waveguide.chamber0.samples.data.len(), 1);
        assert_eq!(cyl.extractor_waveguide.chamber0.samples.data.len(), 1);
    }
    assert_eq!(tiny.muffler.straight_pipe.chamber0.samples.data.len(), 1);
}

/// The output is always a finite, bounded sample.
#[test]
fn output_stays_bounded() {
    let mut generator = v8_generator(48000, fx(4.0));
    generator.volume = ONE;
    let limit: i64 = 0x20_0000_0000_0000;
    for _ in 0..20000 {
        let s = generator.frame();
        assert!(-limit <= s && s <= limit);
    }
}
