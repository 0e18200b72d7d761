//! Shifts and rotations as arithmetic on the unsigned pattern.
use crate::arith::{
    lemma_cast_to_signed, lemma_cast_to_unsigned, lemma_wrap_congruent, modulus, rotated_left,
    rotated_right, shifted_left, shifted_right, shifted_right_unsigned, unsigned, wrap,
};
use vstd::arithmetic::div_mod::{
    lemma_fundamental_div_mod, lemma_fundamental_div_mod_converse, lemma_mod_bound,
    lemma_mod_multiples_basic, lemma_mul_mod_noop_general, lemma_small_mod,
};
use vstd::arithmetic::power2::{
    lemma2_to64, lemma2_to64_rest, lemma_pow2_pos, lemma_pow2_unfold, pow2,
};
use vstd::bits::lemma_u64_shr_is_div;
use vstd::prelude::*;

verus! {

/// Shifts by no bit, and the OR of a pattern with itself, change nothing.
proof fn lemma_no_shift(x: i64)
    ensures
        x << 0u32 == x,
        x >> 0u32 == x,
        (x as u64) << 0u32 == (x as u64),
        (x as u64) >> 0u32 == (x as u64),
        x | x == x,
{
    assert(x << 0u32 == x && x >> 0u32 == x && (x as u64) << 0u32 == (x as u64) && (x as u64)
        >> 0u32 == (x as u64) && x | x == x) by (bit_vector);
}

/// A left shift acts on the pattern: it is the same on the signed value and
/// on its unsigned reading.
proof fn lemma_shift_left_on_pattern(x: i64, k: u32)
    requires
        k < 64,
    ensures
        x << k == ((x as u64) << k) as i64,
{
    assert(x << k == ((x as u64) << k) as i64) by (bit_vector)
        requires
            k < 64,
    ;
}

/// Shifting an unsigned pattern right divides it by a power of two.
proof fn lemma_shift_right_divides(u: u64, k: u32)
    requires
        k < 64,
    ensures
        (u >> k) == (u as int) / (pow2(k as nat) as int),
{
    lemma_u64_shr_is_div(u, k as u64);
    assert(u >> k == u >> (k as u64)) by (bit_vector);
}

/// Shifting an unsigned pattern left multiplies it by a power of two modulo
/// 2^64.
proof fn lemma_shift_left_multiplies(u: u64, k: u32)
    requires
        k < 64,
    ensures
        (u << k) == (u * pow2(k as nat)) % modulus(),
    decreases k,
{
    if k == 0 {
        lemma_cast_to_signed(u);
        lemma_cast_to_unsigned(u as i64);
        lemma_no_shift(u as i64);
        lemma2_to64();
        lemma_small_mod(u as nat, modulus() as nat);
    } else {
        let j = (k - 1) as u32;
        let half = u << j;
        lemma_shift_left_multiplies(u, j);
        assert(u << k == (u << j) << 1u32) by (bit_vector)
            requires
                0 < k < 64,
                j == k - 1,
        ;
        assert(half << 1u32 == (half * 2) % 0x1_0000_0000_0000_0000) by (bit_vector);
        lemma_pow2_unfold(k as nat);
        lemma_mul_mod_noop_general(u * pow2(j as nat), 2, modulus());
        assert((u * pow2(j as nat)) * 2 == u * pow2(k as nat)) by (nonlinear_arith)
            requires
                pow2(k as nat) == 2 * pow2(j as nat),
        ;
    }
}

/// The bitwise OR of two signed values whose unsigned patterns share no bit
/// is the wrapped sum of the patterns.
proof fn lemma_disjoint_or_adds(a: u64, b: u64)
    requires
        a & b == 0,
    ensures
        ((a as i64) | (b as i64)) == wrap(a + b),
        a + b < modulus(),
{
    assert(a & b == 0 ==> (a | b) == a + b) by (bit_vector);
    assert(((a as i64) | (b as i64)) == ((a | b) as i64)) by (bit_vector);
    lemma_cast_to_signed(a | b);
}

/// What a left shift by `k` keeps and what a right shift by `64 - k` keeps
/// share no bit.
proof fn lemma_rotation_parts_disjoint(u: u64, k: u32)
    requires
        0 < k < 64,
    ensures
        (u << k) & (u >> ((64 - k) as u32)) == 0,
{
    let back = (64 - k) as u32;
    assert((u << k) & (u >> back) == 0) by (bit_vector)
        requires
            0 < k < 64,
            back == 64 - k,
    ;
}

/// Flipping every bit twice gives the pattern back.
pub proof fn law_not_involution(x: i64)
    ensures
        !(!x) == x,
{
    assert(!(!x) == x) by (bit_vector);
}

/// Flipping every bit is negating and subtracting one.
pub proof fn law_not_is_arithmetic(x: i64)
    ensures
        !x == -x - 1,
{
    assert(!x == -x - 1) by (bit_vector);
}

/// Counts are taken modulo 64: shifting or rotating by 64 changes nothing,
/// and a count stands for its remainder modulo 64.
pub proof fn law_counts_modulo_64(x: i64, count: u32)
    ensures
        shifted_left(x, 64) == x,
        shifted_right(x, 64) == x,
        shifted_right_unsigned(x, 64) == x,
        rotated_left(x, 64) == x,
        rotated_right(x, 64) == x,
        shifted_left(x, count) == shifted_left(x, count % 64),
        shifted_right(x, count) == shifted_right(x, count % 64),
        shifted_right_unsigned(x, count) == shifted_right_unsigned(x, count % 64),
        rotated_left(x, count) == rotated_left(x, count % 64),
        rotated_right(x, count) == rotated_right(x, count % 64),
{
    lemma_no_shift(x);
    lemma_cast_to_unsigned(x);
}

/// A left shift multiplies by a power of two and wraps: the count is taken
/// modulo 64.
pub proof fn law_shift_left_is_multiplication(x: i64, count: u32)
    ensures
        shifted_left(x, count) == wrap(x * pow2((count % 64) as nat)),
{
    let k = (count % 64) as u32;
    let u = x as u64;
    let p = pow2(k as nat) as int;
    let shifted = u << k;
    lemma_cast_to_unsigned(x);
    lemma_shift_left_on_pattern(x, k);
    lemma_shift_left_multiplies(u, k);
    lemma_cast_to_signed(shifted);
    lemma_mul_mod_noop_general(u as int, p, modulus());
    lemma_mul_mod_noop_general(x as int, p, modulus());
    lemma_wrap_congruent(shifted as int, u * p);
    lemma_wrap_congruent(u * p, x * p);
}

/// A signed right shift divides by a power of two and rounds down: the count
/// is taken modulo 64.
pub proof fn law_shift_right_is_division(x: i64, count: u32)
    ensures
        shifted_right(x, count) == (x as int) / (pow2((count % 64) as nat) as int),
{
    let k = (count % 64) as u32;
    let p = pow2(k as nat) as int;
    lemma_pow2_pos(k as nat);
    if x >= 0 {
        let u = x as u64;
        lemma_cast_to_unsigned(x);
        assert(x >= 0 ==> (x >> k) == ((x as u64) >> k) as i64 && ((x as u64) >> k)
            < 0x8000_0000_0000_0000) by (bit_vector)
            requires
                k < 64,
        ;
        lemma_shift_right_divides(u, k);
        lemma_cast_to_signed(u >> k);
    } else {
        let y = (-x - 1) as u64;
        assert(x < 0 ==> (x >> k) == -(((-x - 1) as u64 >> k) as int) - 1) by (bit_vector)
            requires
                k < 64,
        ;
        lemma_shift_right_divides(y, k);
        let q = (y as int) / p;
        let r = (y as int) % p;
        lemma_fundamental_div_mod(y as int, p);
        lemma_mod_bound(y as int, p);
        assert(x == p * (-q - 1) + (p - 1 - r)) by (nonlinear_arith)
            requires
                y == p * q + r,
                y == -x - 1,
        ;
        lemma_fundamental_div_mod_converse(x as int, p, -q - 1, p - 1 - r);
    }
}

/// An unsigned right shift divides the unsigned pattern by a power of two:
/// the count is taken modulo 64.
pub proof fn law_shift_right_unsigned_is_division(x: i64, count: u32)
    ensures
        shifted_right_unsigned(x, count) == wrap(unsigned(x) / (pow2((count % 64) as nat) as int)),
{
    lemma_shift_right_divides(unsigned(x) as u64, (count % 64) as u32);
}

/// A left rotation by `k` bits moves the low `64 - k` bits of the unsigned
/// pattern up by `k` places and brings the high `k` bits down to the bottom:
/// the first is a multiplication modulo 2^64, the second a division.
pub proof fn law_rotate_left_is_arithmetic(x: i64, count: u32)
    ensures
        rotated_left(x, count) == wrap(
            (unsigned(x) * pow2((count % 64) as nat)) % modulus() + unsigned(x) / (pow2(
                (64 - count % 64) as nat,
            ) as int),
        ),
{
    let k = (count % 64) as u32;
    let u = x as u64;
    lemma_cast_to_unsigned(x);
    lemma2_to64();
    lemma2_to64_rest();
    if k == 0 {
        lemma_no_shift(x);
        lemma_small_mod(u as nat, modulus() as nat);
        assert(u * 1 == u);
    } else {
        let back = (64 - k) as u32;
        lemma_shift_left_on_pattern(x, k);
        lemma_rotation_parts_disjoint(u, k);
        lemma_cast_to_signed(u >> back);
        lemma_disjoint_or_adds(u << k, u >> back);
        lemma_shift_left_multiplies(u, k);
        lemma_shift_right_divides(u, back);
    }
}

/// A right rotation by `k` bits moves the high `64 - k` bits of the unsigned
/// pattern down by `k` places and brings the low `k` bits up to the top: the
/// first is a division, the second a multiplication modulo 2^64.
pub proof fn law_rotate_right_is_arithmetic(x: i64, count: u32)
    ensures
        rotated_right(x, count) == wrap(
            unsigned(x) / (pow2((count % 64) as nat) as int) + (unsigned(x) * pow2(
                (64 - count % 64) as nat,
            )) % modulus(),
        ),
{
    let k = (count % 64) as u32;
    let u = x as u64;
    lemma_cast_to_unsigned(x);
    lemma2_to64();
    lemma2_to64_rest();
    if k == 0 {
        lemma_no_shift(x);
        lemma_mod_multiples_basic(u as int, modulus());
        assert(u / 1 == u);
    } else {
        let back = (64 - k) as u32;
        lemma_shift_left_on_pattern(x, back);
        lemma_rotation_parts_disjoint(u, back);
        lemma_cast_to_signed(u >> k);
        assert((u >> k) & (u << back) == (u << back) & (u >> k)) by (bit_vector);
        lemma_disjoint_or_adds(u >> k, u << back);
        lemma_shift_left_multiplies(u, back);
        lemma_shift_right_divides(u, k);
    }
}

/// Rotating right undoes rotating left by the same count, and the other way
/// round.
pub proof fn law_rotations_are_inverse(x: i64, count: u32)
    ensures
        rotated_right(rotated_left(x, count), count) == x,
        rotated_left(rotated_right(x, count), count) == x,
{
    let k = (count % 64) as u32;
    let back = ((64 - k) % 64) as u32;
    let u = x as u64;
    lemma_cast_to_unsigned(x);
    assert(k < 64 && back == (64 - k) % 64 ==> {
        let l = ((x << k) | (((x as u64) >> back) as i64));
        ((((l as u64) >> k) as i64) | (l << back)) == x
    }) by (bit_vector);
    assert(k < 64 && back == (64 - k) % 64 ==> {
        let r = ((((x as u64) >> k) as i64) | (x << back));
        ((r << k) | (((r as u64) >> back) as i64)) == x
    }) by (bit_vector);
    let l = rotated_left(x, count);
    let r = rotated_right(x, count);
    lemma_cast_to_unsigned(l);
    lemma_cast_to_unsigned(r);
    lemma_cast_to_signed(u >> back);
    lemma_cast_to_signed(u >> k);
    lemma_cast_to_signed((l as u64) >> k);
    lemma_cast_to_signed((r as u64) >> back);
}

} // verus!
