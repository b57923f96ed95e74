use enginesound::buffer::DelayLine;
use enginesound::buffer::LoopBuffer;

const ONE: i64 = 268435456;

/// A fresh loop buffer streams values back a fixed number of rounds
/// later: with rounds of `push; advance; pop`, the pop of round `i`
/// returns what was pushed `L - 2` rounds earlier, and zero while the
/// buffer is still filling.
#[test]
fn loop_buffer_streams_with_fixed_lag() {
    let len: usize = 5;
    let mut lb = LoopBuffer::new(len, 42000);
    let values: Vec<i64> = (0..40).map(|i| (i as i64 + 1) * ONE).collect();
    for (i, v) in values.iter().enumerate() {
        lb.push(*v);
        lb.advance();
        let got = lb.pop();
        let expected = if i + 2 >= len { values[i + 2 - len] } else { 0 };
        assert_eq!(got, expected);
    }
}

#[test]
fn loop_buffer_length_one_returns_last_push() {
    let mut lb = LoopBuffer::new(1, 42000);
    for i in 0..10 {
        lb.push(i * ONE);
        lb.advance();
        assert_eq!(lb.pop(), i * ONE);
    }
}

#[test]
fn loop_buffer_starts_zeroed() {
    let mut lb = LoopBuffer::new(7, 48000);
    for _ in 0..7 {
        assert_eq!(lb.pop(), 0);
        lb.push(0);
        lb.advance();
    }
}

/// Round trip through a delay line: a value pushed into a fresh line of
/// length `L` reappears on the pop after `L - 1` advances.
#[test]
fn delay_line_round_trip() {
    for len in [2usize, 3, 10, 64] {
        let mut dl = DelayLine::new(len, 42000);
        dl.push(17 * ONE);
        dl.samples.advance();
        for _ in 0..len - 2 {
            dl.push(0);
            dl.samples.advance();
        }
        assert_eq!(dl.pop(), 17 * ONE);
    }
}

#[test]
fn delay_line_round_trip_length_one() {
    let mut dl = DelayLine::new(1, 42000);
    dl.push(23 * ONE);
    dl.samples.advance();
    assert_eq!(dl.pop(), 23 * ONE);
}

#[test]
fn loop_buffer_clear_zeroes_all_slots() {
    let mut lb = LoopBuffer::new(4, 42000);
    for i in 0..9 {
        lb.push((i + 1) * ONE);
        lb.advance();
    }
    lb.clear();
    for _ in 0..4 {
        assert_eq!(lb.pop(), 0);
        lb.push(0);
        lb.advance();
    }
}
