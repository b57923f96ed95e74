//! Fixed-length circular sample storage.
//!
//! A `LoopBuffer` reads one slot ahead of where it writes: `pop` returns
//! `data[(pos + 1) % len]`, `push(v)` writes `data[pos % len]`, `advance`
//! moves the write index forward.  A `DelayLine` owns one `LoopBuffer`
//! and delegates to it; a waveguide advances both of its lines only after
//! both have been pushed.

use vstd::prelude::*;

verus! {

use crate::fixed::FX_ONE;
use vstd::arithmetic::div_mod::lemma_small_mod;

/// Mathematical state of a loop buffer: the stored samples, the write
/// index, and the informational delay in fixed-point seconds.
pub ghost struct BufV {
    pub data: Seq<i64>,
    pub pos: int,
    pub delay: int,
}

/// Fixed-length circular sample buffer with read-one-ahead semantics.
pub struct LoopBuffer {
    /// Length of the buffer in seconds, fixed-point; informational.
    pub delay: i64,
    /// The stored samples.
    pub data: Vec<i64>,
    /// The write index, kept reduced modulo the length.
    pub pos: usize,
}

impl View for LoopBuffer {
    type V = BufV;

    open spec fn view(&self) -> BufV {
        BufV { data: self.data@, pos: self.pos as int, delay: self.delay as int }
    }
}

/// Structural invariant of a buffer state: at least one slot, write
/// index in range.
pub open spec fn buf_wf(b: BufV) -> bool {
    b.data.len() >= 1 && 0 <= b.pos < b.data.len()
}

/// The state after `push(v)`: the slot under the write index holds `v`.
pub open spec fn buf_pushed(b: BufV, v: i64) -> BufV {
    BufV { data: b.data.update(b.pos, v), ..b }
}

/// The state after `advance`: the write index one step further on.
pub open spec fn buf_advanced(b: BufV) -> BufV {
    BufV { pos: (b.pos + 1) % b.data.len() as int, ..b }
}

/// What `pop` returns: the slot one ahead of the write index.
pub open spec fn buf_read(b: BufV) -> i64 {
    b.data[(b.pos + 1) % b.data.len() as int]
}

impl LoopBuffer {
    /// Structural invariant: at least one slot, write index in range.
    pub open spec fn wf(&self) -> bool {
        buf_wf(self@)
    }

    /// Creates a loop buffer of `len` zeroed samples; its delay is
    /// `len / samples_per_second` seconds in fixed-point.
    pub fn new(len: usize, samples_per_second: u32) -> (r: LoopBuffer)
        requires
            1 <= len <= 0x8000_0000,
            1 <= samples_per_second,
        ensures
            r.wf(),
            r@.data == Seq::new(len as nat, |i: int| 0i64),
            r@.pos == 0,
            r@.delay == (len * FX_ONE) / (samples_per_second as int),
    {
        let delay: i64 = (((len as u64) * (FX_ONE as u64)) / (samples_per_second as u64)) as i64;
        let r = LoopBuffer { delay, data: vec![0i64; len], pos: 0 };
        proof {
            assert(r@.data =~= Seq::new(len as nat, |i: int| 0i64));
        }
        r
    }

    /// Sets the value at the current position.  Must be paired with
    /// `pop`.
    pub fn push(&mut self, value: i64)
        requires
            old(self).wf(),
        ensures
            final(self).wf(),
            final(self)@ == buf_pushed(old(self)@, value),
    {
        let len = self.data.len();
        let idx = self.pos % len;
        proof {
            lemma_small_mod(self.pos as nat, len as nat);
        }
        self.data[idx] = value;
    }

    /// Gets the value pushed one buffer length of steps earlier.  Must
    /// be paired with `push`.
    pub fn pop(&mut self) -> (r: i64)
        requires
            old(self).wf(),
        ensures
            *final(self) == *old(self),
            r == buf_read(old(self)@),
    {
        let len = self.data.len();
        self.data[(self.pos + 1) % len]
    }

    /// Advances the position of this loop buffer.
    pub fn advance(&mut self)
        requires
            old(self).wf(),
        ensures
            final(self).wf(),
            final(self)@ == buf_advanced(old(self)@),
    {
        let len = self.data.len();
        self.pos = (self.pos + 1) % len;
    }
}

/// A first-in first-out line of fixed length over one `LoopBuffer`.
pub struct DelayLine {
    pub samples: LoopBuffer,
}

impl View for DelayLine {
    type V = BufV;

    open spec fn view(&self) -> BufV {
        self.samples@
    }
}

impl DelayLine {
    /// Structural invariant of the underlying buffer.
    pub open spec fn wf(&self) -> bool {
        self.samples.wf()
    }

    /// Creates a delay line of `delay` zeroed samples.
    pub fn new(delay: usize, samples_per_second: u32) -> (r: DelayLine)
        requires
            1 <= delay <= 0x8000_0000,
            1 <= samples_per_second,
        ensures
            r.wf(),
            r@.data == Seq::new(delay as nat, |i: int| 0i64),
            r@.pos == 0,
            r@.delay == (delay * FX_ONE) / (samples_per_second as int),
    {
        DelayLine { samples: LoopBuffer::new(delay, samples_per_second) }
    }

    /// Reads the sample that has traversed the line.
    pub fn pop(&mut self) -> (r: i64)
        requires
            old(self).wf(),
        ensures
            *final(self) == *old(self),
            r == buf_read(old(self)@),
    {
        self.samples.pop()
    }

    /// Writes the sample entering the line.
    pub fn push(&mut self, sample: i64)
        requires
            old(self).wf(),
        ensures
            final(self).wf(),
            final(self)@ == buf_pushed(old(self)@, sample),
    {
        self.samples.push(sample);
    }
}

/// The state with every slot zeroed and the write index kept.
pub open spec fn buf_zeroed(b: BufV) -> BufV {
    BufV { data: Seq::new(b.data.len(), |i: int| 0i64), ..b }
}

impl LoopBuffer {
    /// Zeroes every slot, keeping the write index.
    pub fn clear(&mut self)
        requires
            old(self).wf(),
        ensures
            final(self).wf(),
            final(self)@ == buf_zeroed(old(self)@),
    {
        let len = self.data.len();
        let mut j: usize = 0;
        while j < len
            invariant
                j <= len,
                self.data.len() == len,
                self.pos == old(self).pos,
                self.delay == old(self).delay,
                old(self).wf(),
                forall|k: int| 0 <= k < j ==> self.data@[k] == 0i64,
                forall|k: int| j <= k < len ==> self.data@[k] == old(self).data@[k],
            decreases len - j,
        {
            self.data[j] = 0;
            j = j + 1;
        }
        proof {
            assert(self@.data =~= Seq::new(old(self)@.data.len(), |i: int| 0i64));
        }
    }
}

/// The state after `m` rounds of `push(0); advance`.
pub open spec fn zero_cycles(b: BufV, m: nat) -> BufV
    decreases m,
{
    if m == 0 {
        b
    } else {
        zero_cycles(buf_advanced(buf_pushed(b, 0i64)), (m - 1) as nat)
    }
}

/// Pushing zeros over slots that already hold zero moves the write index
/// and leaves the contents unchanged.
proof fn lemma_zero_cycles_keep(d: Seq<i64>, delay: int, p: int, m: nat)
    requires
        2 <= d.len(),
        1 <= p,
        p + m <= d.len() - 1,
        forall|j: int| p <= j < d.len() ==> d[j] == 0i64,
    ensures
        zero_cycles(BufV { data: d, pos: p, delay }, m) == (BufV {
            data: d,
            pos: p + m,
            delay,
        }),
    decreases m,
{
    if m > 0 {
        let b = BufV { data: d, pos: p, delay };
        let b1 = buf_advanced(buf_pushed(b, 0i64));
        assert(d.update(p, 0i64) =~= d);
        lemma_small_mod((p + 1) as nat, d.len());
        assert(b1 == BufV { data: d, pos: p + 1, delay });
        lemma_zero_cycles_keep(d, delay, p + 1, (m - 1) as nat);
    }
}

/// The state after the first `t` rounds of `push(vs[j]); advance`, for
/// `j = 0, 1, ...` in order.
pub open spec fn push_cycles(b: BufV, vs: Seq<i64>, t: int) -> BufV
    decreases t,
{
    if t <= 0 {
        b
    } else {
        buf_advanced(buf_pushed(push_cycles(b, vs, t - 1), vs[t - 1]))
    }
}

/// The round in which slot `s` was last written before round `t`: the
/// largest `j < t` with `j == s` modulo the length (valid for `t > s`).
pub open spec fn last_write(len: int, t: int, s: int) -> int {
    s + len * ((t - 1 - s) / len)
}

/// Dividing `a` and `a - 1` by `len` agrees while `a` is not a multiple
/// of `len`.
proof fn lemma_div_step(a: int, len: int)
    requires
        1 <= a,
        1 <= len,
        a % len != 0,
    ensures
        a / len == (a - 1) / len,
{
    vstd::arithmetic::div_mod::lemma_fundamental_div_mod(a, len);
    vstd::arithmetic::div_mod::lemma_mod_division_less_than_divisor(a, len);
    vstd::arithmetic::mul::lemma_mul_is_commutative(len, a / len);
    vstd::arithmetic::div_mod::lemma_fundamental_div_mod_converse_mod(
        a - 1,
        len,
        a / len,
        a % len - 1,
    );
    vstd::arithmetic::div_mod::lemma_fundamental_div_mod_converse_div(
        a - 1,
        len,
        a / len,
        a % len - 1,
    );
}

/// After `t` rounds on a fresh buffer, the write index has gone round
/// `t` times and each slot holds the value of its latest write.
proof fn lemma_push_cycles_state(b: BufV, vs: Seq<i64>, t: int)
    requires
        1 <= b.data.len(),
        b.pos == 0,
        forall|j: int| 0 <= j < b.data.len() ==> b.data[j] == 0i64,
        0 <= t <= vs.len(),
    ensures
        push_cycles(b, vs, t).delay == b.delay,
        push_cycles(b, vs, t).pos == t % b.data.len() as int,
        push_cycles(b, vs, t).data.len() == b.data.len(),
        forall|s: int|
            0 <= s < b.data.len() ==> #[trigger] push_cycles(b, vs, t).data[s] == if s < t {
                vs[last_write(b.data.len() as int, t, s)]
            } else {
                0i64
            },
    decreases t,
{
    let len = b.data.len() as int;
    if t > 0 {
        lemma_push_cycles_state(b, vs, t - 1);
        let prev = push_cycles(b, vs, t - 1);
        let cur = push_cycles(b, vs, t);
        vstd::arithmetic::div_mod::lemma_mod_division_less_than_divisor(t - 1, len);
        vstd::arithmetic::div_mod::lemma_mod_division_less_than_divisor(t, len);
        let w = (t - 1) % len;
        // the write index moves on by one, modulo the length
        assert(cur.pos == t % len) by {
            if len == 1 {
                vstd::arithmetic::div_mod::lemma_mod_division_less_than_divisor(w + 1, len);
            } else {
                vstd::arithmetic::div_mod::lemma_add_mod_noop(t - 1, 1, len);
                vstd::arithmetic::div_mod::lemma_small_mod(1nat, len as nat);
            }
        };
        // the slot written this round is its own latest write
        assert(w == t - 1 - len * ((t - 1) / len)) by {
            vstd::arithmetic::div_mod::lemma_fundamental_div_mod(t - 1, len);
        };
        assert(last_write(len, t, w) == t - 1) by {
            assert(t - 1 - w == len * ((t - 1) / len));
            vstd::arithmetic::div_mod::lemma_div_multiples_vanish((t - 1) / len, len);
        };
        // every other slot keeps its previous latest write
        assert forall|s: int| 0 <= s < len && s != w implies #[trigger] cur.data[s]
            == (if s < t {
                vs[last_write(len, t, s)]
            } else {
                0i64
            }) by {
            assert(cur.data[s] == prev.data[s]);
            if s < t - 1 {
                // s was already written; the latest write is unchanged
                assert((t - 1 - s) % len != 0) by {
                    if (t - 1 - s) % len == 0 {
                        vstd::arithmetic::div_mod::lemma_fundamental_div_mod(t - 1 - s, len);
                        vstd::arithmetic::div_mod::lemma_mod_multiples_vanish(
                            (t - 1 - s) / len,
                            s,
                            len,
                        );
                        vstd::arithmetic::div_mod::lemma_small_mod(s as nat, len as nat);
                    }
                };
                lemma_div_step(t - 1 - s, len);
            } else if s == t - 1 {
                // a fresh slot gets its first write exactly this round,
                // under the index w == s; contradiction with s != w
                vstd::arithmetic::div_mod::lemma_small_mod((t - 1) as nat, len as nat);
            }
        };
    }
}

/// The streaming law of the loop buffer: run rounds of
/// `push(vs[i]); advance; pop()` on a fresh buffer of length `L`.  The
/// pop of round `i` reads one slot ahead of the write index, so it
/// returns the value pushed `L - 2` rounds earlier: zero while the
/// buffer is still filling, then `vs[i + 2 - L]` (for `L == 1` the slot
/// just written, `vs[i]`).
pub proof fn lemma_loop_buffer_stream(b: BufV, vs: Seq<i64>, i: int)
    requires
        1 <= b.data.len(),
        b.pos == 0,
        forall|j: int| 0 <= j < b.data.len() ==> b.data[j] == 0i64,
        0 <= i < vs.len(),
    ensures
        b.data.len() == 1 ==> buf_read(push_cycles(b, vs, i + 1)) == vs[i],
        b.data.len() >= 2 ==> buf_read(push_cycles(b, vs, i + 1)) == if i >= b.data.len() - 2 {
            vs[i + 2 - b.data.len()]
        } else {
            0i64
        },
{
    let len = b.data.len() as int;
    lemma_push_cycles_state(b, vs, i + 1);
    let cur = push_cycles(b, vs, i + 1);
    vstd::arithmetic::div_mod::lemma_mod_division_less_than_divisor(i + 1, len);
    let s = (cur.pos + 1) % len;
    vstd::arithmetic::div_mod::lemma_mod_division_less_than_divisor(cur.pos + 1, len);
    assert(s == (i + 2) % len) by {
        if len == 1 {
        } else {
            vstd::arithmetic::div_mod::lemma_add_mod_noop(i + 1, 1, len);
            vstd::arithmetic::div_mod::lemma_small_mod(1nat, len as nat);
        }
    };
    vstd::arithmetic::div_mod::lemma_mod_division_less_than_divisor(i + 2, len);
    vstd::arithmetic::div_mod::lemma_fundamental_div_mod(i + 2, len);
    let q = (i + 2) / len;
    if len == 1 {
        assert(last_write(len, i + 1, 0) == i) by {
            vstd::arithmetic::div_mod::lemma_div_multiples_vanish(i, 1);
        };
    } else if i >= len - 2 {
        // the read slot's latest write was exactly one buffer length ago
        assert(i - s == len * (q - 1) + (len - 2)) by (nonlinear_arith)
            requires
                i + 2 == len * q + s,
        ;
        assert((i - s) / len == q - 1 && (i - s) % len == len - 2) by {
            vstd::arithmetic::div_mod::lemma_fundamental_div_mod_converse_div(
                i - s,
                len,
                q - 1,
                len - 2,
            );
            vstd::arithmetic::div_mod::lemma_fundamental_div_mod_converse_mod(
                i - s,
                len,
                q - 1,
                len - 2,
            );
        };
        assert(last_write(len, i + 1, s) == i + 2 - len) by {
            assert(s + len * (q - 1) == i + 2 - len) by (nonlinear_arith)
                requires
                    i + 2 == len * q + s,
            ;
        };
        assert(s < i + 1) by {
            if s == i + 1 {
                assert(len * q == 1);
                assert(len * q != 1) by (nonlinear_arith)
                    requires
                        len >= 2,
                ;
            }
        };
    } else {
        // the buffer is still filling: the read slot is untouched
        assert(s == i + 2) by {
            vstd::arithmetic::div_mod::lemma_small_mod((i + 2) as nat, len as nat);
        };
    }
}

/// Round trip through a fresh delay line: a value `v` pushed into a line
/// of length `L` whose slots are all zero, followed by `advance` and then
/// `L - 2` further `push(0); advance` rounds (none for `L == 1`), is what
/// the next `pop` returns.  The read-one-ahead index makes the value
/// reappear after `L - 1` advances for `L >= 2` and after one advance for
/// `L == 1`.
pub proof fn lemma_delay_line_round_trip(b: BufV, v: i64)
    requires
        1 <= b.data.len(),
        b.pos == 0,
        forall|j: int| 0 <= j < b.data.len() ==> b.data[j] == 0i64,
    ensures
        b.data.len() == 1 ==> buf_read(buf_advanced(buf_pushed(b, v))) == v,
        b.data.len() >= 2 ==> buf_read(
            zero_cycles(buf_advanced(buf_pushed(b, v)), (b.data.len() - 2) as nat),
        ) == v,
{
    let len = b.data.len() as int;
    let b1 = buf_advanced(buf_pushed(b, v));
    if len == 1 {
        assert(b1.pos == 0);
        assert((b1.pos + 1) % b1.data.len() as int == 0);
    } else {
        lemma_small_mod(1nat, b.data.len());
        assert(b1 == BufV { data: b.data.update(0, v), pos: 1, delay: b.delay });
        lemma_zero_cycles_keep(b.data.update(0, v), b.delay, 1, (b.data.len() - 2) as nat);
        let bm = zero_cycles(b1, (b.data.len() - 2) as nat);
        assert(bm.pos == len - 1);
        assert((bm.pos + 1) % len == 0) by {
            vstd::arithmetic::div_mod::lemma_mod_self_0(len);
        };
    }
}

} // verus!
