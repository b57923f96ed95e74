use enginesound::filter::LowPassFilter;
use enginesound::noise::Noise;

const ONE: i64 = 268435456;
const ONE_F: f64 = 268435456.0;

/// On a constant input the filter output converges monotonically
/// toward the input and ends up close to it.
#[test]
fn filter_converges_on_constant_input() {
    let mut lpf = LowPassFilter::new(2000 * ONE, 48000);
    let target: i64 = ONE / 2;
    let mut dist = (target - lpf.last).abs();
    for _ in 0..10000 {
        lpf.filter(target);
        let nd = (target - lpf.last).abs();
        assert!(nd <= dist, "distance grew: {nd} > {dist}");
        dist = nd;
    }
    assert!((val(lpf.last) - 0.5).abs() < 1e-3, "did not converge: {}", val(lpf.last));
}

fn val(raw: i64) -> f64 {
    raw as f64 / ONE_F
}

#[test]
fn filter_coefficient_matches_formula() {
    // alpha == w / (w + 1) with w = 2 * pi * f / sps
    let lpf = LowPassFilter::new(2000 * ONE, 48000);
    let w = 2.0 * std::f64::consts::PI * 2000.0 / 48000.0;
    let expected = w / (w + 1.0);
    assert!((val(lpf.alpha) - expected).abs() < 1e-3);
    assert_eq!(lpf.last, 0);
}

#[test]
fn filter_output_stays_between_state_and_input() {
    let mut lpf = LowPassFilter::new(300 * ONE, 42000);
    let mut last: i64 = 0;
    for k in 0..2000i64 {
        let x = ((k * 7919) % 200 - 100) * ONE / 100;
        let y = lpf.filter(x);
        let lo = last.min(x);
        let hi = last.max(x);
        assert!(lo <= y && y <= hi);
        last = y;
    }
}

/// The noise stream is a pure function of the seed.
#[test]
fn noise_is_deterministic_per_seed() {
    let mut a = Noise::from_seed(0x1234_5678_9ABC_DEF0);
    let mut b = Noise::from_seed(0x1234_5678_9ABC_DEF0);
    let mut c = Noise::from_seed(1);
    let mut differs = false;
    for _ in 0..1000 {
        let x = a.step();
        assert_eq!(x, b.step());
        if x != c.step() {
            differs = true;
        }
    }
    assert!(differs, "different seeds produced identical streams");
}

#[test]
fn noise_samples_stay_in_unit_range() {
    let mut n = Noise::from_seed(42);
    for _ in 0..10000 {
        let s = n.step();
        assert!(-ONE <= s && s < ONE);
    }
}

#[test]
fn noise_zero_seed_is_not_stuck() {
    let mut n = Noise::from_seed(0);
    let first = n.step();
    let mut moved = false;
    for _ in 0..100 {
        if n.step() != first {
            moved = true;
        }
    }
    assert!(moved, "zero seed produced a constant stream");
}
