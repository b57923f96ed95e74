//! Deterministic pseudo-random sample source.
//!
//! A 128-bit xorshift generator: four 32-bit words of state, stepped by
//! three shift-xor rounds per draw.  `step` maps each 32-bit draw
//! linearly onto `[-1, 1)` in fixed-point.  The stream is a pure
//! function of the seed, so two sources built from the same seed produce
//! the same samples; a host that wants an unpredictable stream reseeds
//! from its own entropy at construction.

use vstd::prelude::*;

verus! {

use crate::fixed::FX_ONE;
use vstd::bits::lemma_u32_shr_is_div;

/// Mathematical state of the generator: the four state words.
pub ghost struct NoiseV {
    pub x: u32,
    pub y: u32,
    pub z: u32,
    pub w: u32,
}

/// One xorshift round: the classic 11/19/8 tap triple.
pub open spec fn noise_next(s: NoiseV) -> NoiseV {
    let t = s.x ^ (s.x << 11u32);
    NoiseV { x: s.y, y: s.z, z: s.w, w: (s.w ^ (s.w >> 19u32)) ^ (t ^ (t >> 8u32)) }
}

/// The fixed-point sample drawn from a 32-bit word: `[0, 2^32)` mapped
/// linearly onto `[-FX_ONE, FX_ONE)`.
pub open spec fn noise_sample(w: u32) -> int {
    (w as int) / 8 - FX_ONE as int
}

/// The state words derived from a 64-bit seed: the seed halves, and the
/// seed halves masked with two fixed odd constants so that no seed can
/// produce the all-zero state the shift-xor rounds would be stuck in.
pub open spec fn noise_seeded(seed: u64) -> NoiseV {
    NoiseV {
        x: (seed & 0xFFFF_FFFFu64) as u32,
        y: (seed >> 32u64) as u32,
        z: ((seed & 0xFFFF_FFFFu64) as u32) ^ 0x9E37_79B9u32,
        w: ((seed >> 32u64) as u32) ^ 0x6A09_E667u32,
    }
}

/// The seed `Noise::default` uses; hosts that want an unpredictable
/// stream reseed with their own entropy through `Noise::from_seed`.
pub const NOISE_DEFAULT_SEED: u64 = 0x853C_49E6_748F_EA9B;

/// Deterministic pseudo-random fixed-point source in `[-1, 1)`.
pub struct Noise {
    x: u32,
    y: u32,
    z: u32,
    w: u32,
}

impl View for Noise {
    type V = NoiseV;

    closed spec fn view(&self) -> NoiseV {
        NoiseV { x: self.x, y: self.y, z: self.z, w: self.w }
    }
}

impl Noise {
    /// Builds the source whose stream is determined by `seed`.
    pub fn from_seed(seed: u64) -> (r: Noise)
        ensures
            r@ == noise_seeded(seed),
    {
        let lo: u32 = (seed & 0xFFFF_FFFF) as u32;
        let hi: u32 = (seed >> 32) as u32;
        Noise { x: lo, y: hi, z: lo ^ 0x9E37_79B9, w: hi ^ 0x6A09_E667 }
    }

    /// Draws the next sample: one xorshift round, mapped onto
    /// `[-FX_ONE, FX_ONE)`.
    pub fn step(&mut self) -> (r: i64)
        ensures
            final(self)@ == noise_next(old(self)@),
            r as int == noise_sample(final(self)@.w),
            -FX_ONE <= r < FX_ONE,
    {
        let t: u32 = self.x ^ (self.x << 11);
        let wn: u32 = (self.w ^ (self.w >> 19)) ^ (t ^ (t >> 8));
        self.x = self.y;
        self.y = self.z;
        self.z = self.w;
        self.w = wn;
        proof {
            lemma_u32_shr_is_div(wn, 3);
            vstd::arithmetic::power2::lemma2_to64();
            vstd::arithmetic::div_mod::lemma_div_is_ordered(
                wn as int,
                0xFFFF_FFFF,
                8,
            );
            vstd::arithmetic::div_mod::lemma_div_pos_is_pos(wn as int, 8);
        }
        ((wn >> 3) as i64) - FX_ONE
    }
}

impl Default for Noise {
    /// A source seeded with `NOISE_DEFAULT_SEED`.
    fn default() -> (r: Noise)
        ensures
            r@ == noise_seeded(NOISE_DEFAULT_SEED),
    {
        Noise::from_seed(NOISE_DEFAULT_SEED)
    }
}

} // verus!
