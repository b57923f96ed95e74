use enginesound::waveguide::WaveGuide;

const ONE: i64 = 268435456;
const MAX_AMP: i64 = 20 * ONE;
const DAMP_LIM: i64 = 21 * ONE;

/// Damping bounds every output: after one large excitation, thousands
/// of `pop; push(0, 0)` rounds never produce a sample beyond 21.0 in
/// magnitude.
#[test]
fn waveguide_outputs_stay_bounded() {
    let mut wg = WaveGuide::new(10, 0, 0, 42000);
    wg.push(100 * ONE, -100 * ONE);
    for _ in 0..10000 {
        let (a, b) = wg.pop();
        assert!(a.abs() <= DAMP_LIM);
        assert!(b.abs() <= DAMP_LIM);
        wg.push(0, 0);
    }
}

/// With fully absorbing ends the injected wave dies out completely.
#[test]
fn waveguide_with_open_ends_decays_to_silence() {
    let mut wg = WaveGuide::new(4, 0, 0, 42000);
    wg.push(3 * ONE, -2 * ONE);
    let mut all_zero = true;
    for k in 0..64 {
        let (a, b) = wg.pop();
        if k >= 8 && (a != 0 || b != 0) {
            all_zero = false;
        }
        wg.push(0, 0);
    }
    assert!(all_zero, "wave survived absorbing ends");
}

#[test]
fn dampen_is_identity_below_threshold() {
    assert_eq!(WaveGuide::dampen(0), 0);
    assert_eq!(WaveGuide::dampen(5 * ONE), 5 * ONE);
    assert_eq!(WaveGuide::dampen(-MAX_AMP), -MAX_AMP);
    assert_eq!(WaveGuide::dampen(MAX_AMP), MAX_AMP);
}

#[test]
fn dampen_squashes_above_threshold() {
    // dampen(25) == 21 - 1 / (25 - 20 + 1) == 21 - 1/6, rounded toward
    // zero in the division.
    let expected = 21 * ONE - (ONE / 6);
    assert_eq!(WaveGuide::dampen(25 * ONE), expected);
    assert_eq!(WaveGuide::dampen(-25 * ONE), -expected);
    // far past the knee the output approaches, but never reaches, 21.
    let big = WaveGuide::dampen(i64::MAX);
    assert!(MAX_AMP < big && big <= DAMP_LIM);
}

/// A wave travelling a guide with reflecting far end comes back
/// inverted by the reflection coefficient sign.
#[test]
fn waveguide_reflection_carries_sign() {
    let mut wg = WaveGuide::new(3, 0, -ONE, 42000);
    // beta end fully reflective (negative), alpha end open.
    wg.push(ONE, 0);
    let mut saw_negative = false;
    for _ in 0..32 {
        let (a, _b) = wg.pop();
        if a < 0 {
            saw_negative = true;
        }
        wg.push(0, 0);
    }
    assert!(saw_negative, "no inverted reflection observed");
}
