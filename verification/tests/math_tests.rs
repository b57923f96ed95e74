use enginesound::cylinder::exhaust_valve;
use enginesound::cylinder::fuel_ignition;
use enginesound::cylinder::intake_valve;
use enginesound::cylinder::piston_motion;
use enginesound::math::fast_cos;
use enginesound::math::fast_sin;

const ONE: i64 = 268435456;
const ONE_F: f64 = 268435456.0;

fn fx(v: f64) -> i64 {
    (v * ONE_F).round() as i64
}

fn val(raw: i64) -> f64 {
    raw as f64 / ONE_F
}

/// Fast trigonometry stays within 0.06 of the exact functions over
/// a thousand equally spaced points in `[-10 * pi, 10 * pi]`.
#[test]
fn fast_trig_accuracy() {
    let lo = -10.0 * std::f64::consts::PI;
    let hi = 10.0 * std::f64::consts::PI;
    for k in 0..1000 {
        let x = lo + (hi - lo) * (k as f64) / 999.0;
        let c = val(fast_cos(fx(x)));
        let s = val(fast_sin(fx(x)));
        assert!((c - x.cos()).abs() < 0.06, "cos off at {x}: {c}");
        assert!((s - x.sin()).abs() < 0.06, "sin off at {x}: {s}");
    }
}

#[test]
fn fast_cos_at_zero_is_one() {
    assert_eq!(fast_cos(0), ONE);
}

#[test]
fn madd_is_scaled_product_plus_addend() {
    // 1.5 * 2.0 + 0.25 == 3.25, exactly representable
    assert_eq!(
        enginesound::math::madd(fx(1.5), fx(2.0), fx(0.25)),
        fx(3.25),
    );
    // truncation toward zero on an inexact product
    assert_eq!(enginesound::math::madd(1, 1, 0), 0);
    assert_eq!(enginesound::math::madd(-fx(0.5), fx(0.5), 0), -fx(0.25));
}

/// Valve functions at phase zero are closed; a quarter into their
/// window they are fully open within the fast-sine tolerance.
#[test]
fn valves_at_phase_zero_and_peak() {
    assert_eq!(intake_valve(0), 0);
    assert_eq!(exhaust_valve(0), 0);
    let iv = val(intake_valve(fx(0.125)));
    assert!((iv - 1.0).abs() <= 0.06, "intake valve at 0.125: {iv}");
    let ev = val(exhaust_valve(fx(0.875)));
    assert!((ev - 1.0).abs() <= 0.06, "exhaust valve at 0.875: {ev}");
}

#[test]
fn valves_closed_outside_their_windows() {
    assert_eq!(intake_valve(fx(0.3)), 0);
    assert_eq!(intake_valve(fx(0.25)), 0);
    assert_eq!(exhaust_valve(fx(0.5)), 0);
    assert_eq!(exhaust_valve(fx(0.75)), 0);
    assert_eq!(exhaust_valve(fx(-0.9)), 0);
}

#[test]
fn piston_motion_covers_two_periods_per_cycle() {
    // cos(4 * pi * c): two full periods per crank cycle.
    assert!((val(piston_motion(0)) - 1.0).abs() <= 0.06);
    assert!((val(piston_motion(fx(0.25))) + 1.0).abs() <= 0.06);
    assert!((val(piston_motion(fx(0.5))) - 1.0).abs() <= 0.06);
    assert!(val(piston_motion(fx(0.125))).abs() <= 0.06);
}

#[test]
fn fuel_ignition_fires_only_after_half_cycle() {
    let tau = fx(0.2);
    assert_eq!(fuel_ignition(fx(0.4), tau), 0);
    assert_eq!(fuel_ignition(fx(0.5), tau), 0);
    // mid-burn: sin(2 * pi * 0.25) == 1 within tolerance
    let mid = val(fuel_ignition(fx(0.55), tau));
    assert!((mid - 1.0).abs() <= 0.06, "ignition mid-burn: {mid}");
    assert_eq!(fuel_ignition(fx(0.65), tau), 0);
}
