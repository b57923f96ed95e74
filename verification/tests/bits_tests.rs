use enginesound::bits::log2ui;
use enginesound::bits::reverse_bits;
use enginesound::engine::distance_to_samples;
use enginesound::engine::samples_to_distance;
use enginesound::engine::samples_to_seconds;
use enginesound::engine::seconds_to_samples;

const ONE: i64 = 268435456;

#[test]
fn log2_of_powers_and_neighbours() {
    assert_eq!(log2ui(1), 0);
    assert_eq!(log2ui(2), 1);
    assert_eq!(log2ui(3), 1);
    assert_eq!(log2ui(4), 2);
    assert_eq!(log2ui(1023), 9);
    assert_eq!(log2ui(1024), 10);
    assert_eq!(log2ui(u32::MAX), 31);
}

#[test]
fn reverse_bits_flips_the_window() {
    assert_eq!(reverse_bits(0b1011, 4), 0b1101);
    assert_eq!(reverse_bits(0b0001, 4), 0b1000);
    assert_eq!(reverse_bits(0, 32), 0);
    assert_eq!(reverse_bits(1, 32), 0x8000_0000);
    assert_eq!(reverse_bits(0xF0F0_F0F0, 32), 0x0F0F_0F0F);
}

#[test]
fn reverse_bits_is_an_involution_on_the_window() {
    for v in [0u32, 1, 2, 0b1011, 0xAB, 0xFF, 0x155] {
        assert_eq!(reverse_bits(reverse_bits(v, 9), 9), v & 0x1FF);
    }
}

#[test]
fn time_and_distance_conversions() {
    // one second at 42000 Hz is 42000 samples
    assert_eq!(seconds_to_samples(ONE, 42000), 42000);
    // very short delays are clamped to one sample
    assert_eq!(seconds_to_samples(1, 42000), 1);
    // 343 m is one second of sound travel
    assert_eq!(distance_to_samples(343 * ONE, 42000), 42000);
    // round trip through samples_to_seconds
    let secs = samples_to_seconds(21000, 42000);
    assert_eq!(secs, ONE / 2);
    // half a second of sound travel is 171.5 m
    let meters = samples_to_distance(21000, 42000) as f64 / ONE as f64;
    assert!((meters - 171.5).abs() < 1e-3);
}
