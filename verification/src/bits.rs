//! Integer bit utilities for radix-2 index manipulation: the bit-reversal
//! step used when reordering butterfly outputs, and the integer base-2
//! logarithm.

use vstd::prelude::*;

verus! {

use vstd::arithmetic::power2::pow2;
use vstd::arithmetic::power2::lemma_pow2_unfold;
use vstd::arithmetic::power2::lemma_pow2_pos;
use vstd::bits::lemma_u32_shr_is_div;
use vstd::std_specs::bits::u32_leading_zeros;

/// The result of folding the low `count` bits of `value`, least
/// significant first, into an accumulator that shifts left one bit per
/// step: the low `count` bits of `value` in reversed order.
pub open spec fn reverse_bits_s(value: u32, count: nat) -> u32
    decreases count,
{
    if count == 0 {
        0u32
    } else {
        (reverse_bits_s(value, (count - 1) as nat) << 1u32) | ((value >> ((count - 1) as u32))
            & 1u32)
    }
}

/// Reverses the order of the low `count` bits of `value`.
pub fn reverse_bits(value: u32, count: usize) -> (r: u32)
    requires
        count <= 32,
    ensures
        r == reverse_bits_s(value, count as nat),
{
    let mut acc: u32 = 0;
    let mut i: usize = 0;
    while i < count
        invariant
            i <= count,
            count <= 32,
            acc == reverse_bits_s(value, i as nat),
        decreases count - i,
    {
        acc = (acc << 1u32) | ((value >> (i as u32)) & 1u32);
        i = i + 1;
    }
    acc
}

/// Returns `floor(log2(n))` for `n >= 1`.
pub fn log2ui(n: u32) -> (r: u32)
    requires
        n >= 1,
    ensures
        pow2(r as nat) <= n < pow2(r as nat + 1),
        r < 32,
{
    let lz: u32 = n.leading_zeros();
    proof {
        vstd::std_specs::bits::axiom_u32_leading_zeros(n);
        lemma_log2_from_leading_zeros(n, lz);
        vstd::arithmetic::power2::lemma2_to64();
        vstd::bits::lemma_u32_shl_is_mul(lz, 1);
        lemma_u32_shr_is_div((62 - (lz << 1u32)) as u32, 1);
    }
    (62 - (lz << 1u32)) >> 1u32
}

/// From the axioms on `leading_zeros`: for nonzero `n` with `lz` leading
/// zeros, `2^(31 - lz) <= n < 2^(32 - lz)`, and the closed form
/// `(62 - 2 * lz) >> 1` equals `31 - lz`.
proof fn lemma_log2_from_leading_zeros(n: u32, lz: u32)
    requires
        n >= 1,
        lz == u32_leading_zeros(n),
        0 <= lz < 32,
        (n >> ((31 - lz) as u32)) & 1u32 != 0u32,
        n >> ((32 - lz) as u32) == 0u32,
    ensures
        pow2((31 - lz) as nat) <= n < pow2((32 - lz) as nat),
{
    let k: u32 = (31 - lz) as u32;
    lemma_u32_shr_is_div(n, k);
    lemma_pow2_pos(k as nat);
    lemma_pow2_pos((k + 1) as nat);
    lemma_pow2_unfold((k + 1) as nat);
    // n >> (k + 1) == 0 gives n < 2^(k+1); for lz == 0 the type itself does.
    assert(n < pow2((k + 1) as nat)) by {
        if lz == 0 {
            vstd::arithmetic::power2::lemma2_to64();
        } else {
            lemma_u32_shr_is_div(n, (k + 1) as u32);
            if n >= pow2((k + 1) as nat) {
                vstd::arithmetic::div_mod::lemma_div_non_zero(
                    n as int,
                    pow2((k + 1) as nat) as int,
                );
            }
        }
    };
    // bit k of n is set, so n / 2^k is odd, hence at least 1.
    assert((n >> k) & 1u32 != 0u32);
    assert(n as nat / pow2(k as nat) >= 1) by {
        if n as nat / pow2(k as nat) == 0 {
            assert(n >> k == 0u32);
            assert((n >> k) & 1u32 == 0u32) by (bit_vector)
                requires
                    n >> k == 0u32,
            ;
        }
    };
    vstd::arithmetic::div_mod::lemma_div_pos_is_pos(n as int, pow2(k as nat) as int);
    assert(pow2(k as nat) * 1 <= pow2(k as nat) * (n as nat / pow2(k as nat))) by (nonlinear_arith)
        requires
            pow2(k as nat) >= 1,
            n as nat / pow2(k as nat) >= 1,
    ;
    assert(pow2(k as nat) * (n as nat / pow2(k as nat)) <= n) by {
        vstd::arithmetic::div_mod::lemma_fundamental_div_mod(n as int, pow2(k as nat) as int);
        vstd::arithmetic::div_mod::lemma_mod_division_less_than_divisor(
            n as int,
            pow2(k as nat) as int,
        );
    };
}

} // verus!
