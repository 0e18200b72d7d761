//! The arithmetic model: how mathematical integers map onto 64-bit patterns,
//! and the operations on patterns.
//!
//! The models come first, then the bounds on the operands that have one,
//! then the functions that compute what the models say.
use crate::error::Int64Error;
use vstd::arithmetic::div_mod::{lemma_mod_bound, lemma_mul_mod_noop_general, lemma_small_mod};
use vstd::arithmetic::mul::lemma_mul_is_associative;
use vstd::arithmetic::power::{
    lemma_pow0, lemma_pow1, lemma_pow_adds, lemma_pow_distributes, lemma_pow_mod_noop, pow,
};
use vstd::prelude::*;

verus! {

/// 2^64, the number of distinct 64-bit patterns.
pub open spec fn modulus() -> int {
    0x1_0000_0000_0000_0000
}

/// The signed 64-bit integer congruent to `x` modulo 2^64.
pub open spec fn wrap(x: int) -> i64 {
    let m = x % modulus();
    if m >= 0x8000_0000_0000_0000 {
        (m - modulus()) as i64
    } else {
        m as i64
    }
}

/// The bit pattern of `x` read as an unsigned number.
pub open spec fn unsigned(x: i64) -> int {
    if x < 0 {
        x + modulus()
    } else {
        x as int
    }
}

/// `a + b`, reduced to 64 bits.
pub open spec fn sum(a: i64, b: i64) -> i64 {
    wrap(a + b)
}

/// `a - b`, reduced to 64 bits.
pub open spec fn difference(a: i64, b: i64) -> i64 {
    wrap(a - b)
}

/// `a * b`, reduced to 64 bits.
pub open spec fn product(a: i64, b: i64) -> i64 {
    wrap(a * b)
}

/// `-a`, reduced to 64 bits: the smallest value is its own negation.
pub open spec fn negation(a: i64) -> i64 {
    wrap(-a)
}

/// The absolute value of `x`.
pub open spec fn magnitude_of(x: int) -> int {
    if x < 0 {
        -x
    } else {
        x
    }
}

/// `a / b` rounded toward zero, reduced to 64 bits. Only the smallest value
/// divided by -1 needs the reduction, and it stays the smallest value.
pub open spec fn quotient(a: i64, b: i64) -> i64
    recommends
        b != 0,
{
    let q = magnitude_of(a as int) / magnitude_of(b as int);
    if (a < 0) == (b < 0) {
        wrap(q)
    } else {
        wrap(-q)
    }
}

/// What is left of `a` after division by `b` rounded toward zero: it has the
/// sign of `a` and is smaller in magnitude than `b`.
pub open spec fn remainder(a: i64, b: i64) -> i64
    recommends
        b != 0,
{
    let r = magnitude_of(a as int) % magnitude_of(b as int);
    if a < 0 {
        (-r) as i64
    } else {
        r as i64
    }
}

/// `base` raised to `exponent`, reduced to 64 bits.
pub open spec fn power(base: i64, exponent: nat) -> i64 {
    wrap(pow(base as int, exponent))
}

/// `a` shifted left by `count` modulo 64 bits; bits that leave the pattern
/// are lost.
pub open spec fn shifted_left(a: i64, count: u32) -> i64 {
    a << (count % 64)
}

/// `a` shifted right by `count` modulo 64 bits; the sign bit fills the
/// pattern from the left.
pub open spec fn shifted_right(a: i64, count: u32) -> i64 {
    a >> (count % 64)
}

/// `a` shifted right by `count` modulo 64 bits as an unsigned pattern; zeros
/// fill the pattern from the left.
pub open spec fn shifted_right_unsigned(a: i64, count: u32) -> i64 {
    wrap(((unsigned(a) as u64) >> (count % 64)) as int)
}

/// `a` rotated left by `count` modulo 64 bits: what a left shift loses comes
/// back in from the right.
pub open spec fn rotated_left(a: i64, count: u32) -> i64 {
    shifted_left(a, count % 64) | shifted_right_unsigned(a, (64 - count % 64) as u32)
}

/// `a` rotated right by `count` modulo 64 bits: what an unsigned right shift
/// loses comes back in from the left.
pub open spec fn rotated_right(a: i64, count: u32) -> i64 {
    shifted_right_unsigned(a, count % 64) | shifted_left(a, (64 - count % 64) as u32)
}

/// The exponent that `b` stands for: it must lie in `0..=u32::MAX`.
pub open spec fn exponent_of(b: i64) -> Result<u32, Int64Error> {
    if b < 0 {
        Err(Int64Error::NegativeExponent)
    } else if b > u32::MAX {
        Err(Int64Error::ExponentTooLarge)
    } else {
        Ok(b as u32)
    }
}

/// The shift count that `b` stands for: it must lie in `0..=u32::MAX`.
pub open spec fn shift_count_of(b: i64) -> Result<u32, Int64Error> {
    if b < 0 {
        Err(Int64Error::NegativeShift)
    } else if b > u32::MAX {
        Err(Int64Error::ShiftTooLarge)
    } else {
        Ok(b as u32)
    }
}

/// The rotation count that `b` stands for: it must lie in `0..=u32::MAX`.
pub open spec fn rotation_count_of(b: i64) -> Result<u32, Int64Error> {
    if b < 0 {
        Err(Int64Error::NegativeRotation)
    } else if b > u32::MAX {
        Err(Int64Error::RotationTooLarge)
    } else {
        Ok(b as u32)
    }
}

/// The divisor that `b` stands for: it must not be zero.
pub open spec fn divisor_of(b: i64) -> Result<i64, Int64Error> {
    if b == 0 {
        Err(Int64Error::DivisionByZero)
    } else {
        Ok(b)
    }
}

/// A cast from signed to unsigned keeps the pattern, and the cast back
/// restores the value.
pub proof fn lemma_cast_to_unsigned(x: i64)
    ensures
        (x as u64) == unsigned(x),
        ((x as u64) as i64) == x,
{
    assert(x >= 0 ==> (x as u64) == x) by (bit_vector);
    assert(x < 0 ==> (x as u64) == x + 0x1_0000_0000_0000_0000) by (bit_vector);
    assert(((x as u64) as i64) == x) by (bit_vector);
}

/// A cast from unsigned to signed keeps the pattern: the value wraps.
pub proof fn lemma_cast_to_signed(u: u64)
    ensures
        (u as i64) == wrap(u as int),
        unsigned(u as i64) == u,
{
    assert(u < 0x8000_0000_0000_0000 ==> (u as i64) == u) by (bit_vector);
    assert(u >= 0x8000_0000_0000_0000 ==> (u as i64) == u - 0x1_0000_0000_0000_0000)
        by (bit_vector);
}

/// Two integers with the same residue modulo 2^64 wrap to the same value.
pub proof fn lemma_wrap_congruent(x: int, y: int)
    requires
        x % modulus() == y % modulus(),
    ensures
        wrap(x) == wrap(y),
{
}

/// A value that fits in 64 bits wraps to itself.
pub proof fn lemma_wrap_fits(x: int)
    requires
        i64::MIN <= x <= i64::MAX,
    ensures
        wrap(x) == x,
{
}

/// One step of exponentiation by squaring, modulo 2^64.
proof fn lemma_power_step(acc: int, base: int, exp: nat, acc2: int, base2: int)
    requires
        exp > 0,
        base2 % modulus() == (base * base) % modulus(),
        acc2 % modulus() == if exp % 2 == 1 {
            (acc * base) % modulus()
        } else {
            acc % modulus()
        },
    ensures
        (acc2 * pow(base2, exp / 2)) % modulus() == (acc * pow(base, exp)) % modulus(),
{
    let m = modulus();
    let half = exp / 2;
    let squares = pow(base * base, half);
    assert(pow(base2, half) % m == squares % m) by {
        lemma_pow_mod_noop(base2, half, m);
        lemma_pow_mod_noop(base * base, half, m);
    }
    assert(squares == pow(base, 2 * half)) by {
        lemma_pow_distributes(base, base, half);
        lemma_pow_adds(base, half, half);
    }
    lemma_mul_mod_noop_general(acc2, pow(base2, half), m);
    if exp % 2 == 1 {
        assert(pow(base, exp) == base * squares) by {
            lemma_pow_adds(base, 1, 2 * half);
            lemma_pow1(base);
        }
        lemma_mul_mod_noop_general(acc * base, squares, m);
        assert((acc * base) * squares == acc * (base * squares)) by {
            lemma_mul_is_associative(acc, base, squares);
        }
    } else {
        lemma_mul_mod_noop_general(acc, squares, m);
    }
}

/// Reads the bit pattern of a signed value as unsigned.
pub fn to_unsigned(x: i64) -> (r: u64)
    ensures
        r == unsigned(x),
{
    proof {
        lemma_cast_to_unsigned(x);
    }
    x as u64
}

/// Reads an unsigned bit pattern as a signed value.
pub fn to_signed(u: u64) -> (r: i64)
    ensures
        r == wrap(u as int),
        unsigned(r) == u,
{
    proof {
        lemma_cast_to_signed(u);
    }
    u as i64
}

/// Adds, wrapping at the boundary of 64 bits.
pub fn wrapping_add(a: i64, b: i64) -> (r: i64)
    ensures
        r == sum(a, b),
{
    a.wrapping_add(b)
}

/// Subtracts, wrapping at the boundary of 64 bits.
pub fn wrapping_sub(a: i64, b: i64) -> (r: i64)
    ensures
        r == difference(a, b),
{
    a.wrapping_sub(b)
}

/// Multiplies, wrapping at the boundary of 64 bits.
pub fn wrapping_mul(a: i64, b: i64) -> (r: i64)
    ensures
        r == product(a, b),
{
    a.wrapping_mul(b)
}

/// Negates, wrapping at the boundary of 64 bits.
pub fn wrapping_neg(a: i64) -> (r: i64)
    ensures
        r == negation(a),
{
    0i64.wrapping_sub(a)
}

/// Divides, rounding toward zero and wrapping at the boundary of 64 bits.
pub fn wrapping_div(a: i64, b: i64) -> (r: i64)
    requires
        b != 0,
    ensures
        r == quotient(a, b),
{
    match a.checked_div(b) {
        Some(q) => q,
        None => i64::MIN,
    }
}

/// The remainder of the division rounded toward zero.
pub fn wrapping_rem(a: i64, b: i64) -> (r: i64)
    requires
        b != 0,
    ensures
        r == remainder(a, b),
{
    proof {
        let x = magnitude_of(a as int);
        let d = magnitude_of(b as int);
        lemma_mod_bound(x, d);
        if a == 0 {
            lemma_small_mod(0, d as nat);
        }
        if d == 1 {
            assert(x % 1 == 0);
        }
    }
    match a.checked_rem(b) {
        Some(m) => m,
        None => 0,
    }
}

/// Raises `base` to `exponent`, wrapping at the boundary of 64 bits.
pub fn wrapping_pow(base: i64, exponent: u32) -> (r: i64)
    ensures
        r == power(base, exponent as nat),
{
    let mut acc: i64 = 1;
    let mut b: i64 = base;
    let mut e: u32 = exponent;
    proof {
        assert(1 * pow(base as int, exponent as nat) == pow(base as int, exponent as nat));
    }
    while e > 0
        invariant
            (acc * pow(b as int, e as nat)) % modulus() == pow(base as int, exponent as nat)
                % modulus(),
        decreases e,
    {
        let ghost acc0 = acc as int;
        let ghost b0 = b as int;
        let ghost e0 = e as nat;
        if e % 2 == 1 {
            acc = acc.wrapping_mul(b);
        }
        b = b.wrapping_mul(b);
        e = e / 2;
        proof {
            lemma_power_step(acc0, b0, e0, acc as int, b as int);
        }
    }
    proof {
        lemma_pow0(b as int);
        lemma_wrap_fits(acc as int);
        lemma_wrap_congruent(acc as int, pow(base as int, exponent as nat));
    }
    acc
}

/// Shifts left by `count` modulo 64.
pub fn wrapping_shl(a: i64, count: u32) -> (r: i64)
    ensures
        r == shifted_left(a, count),
{
    a.wrapping_shl(count)
}

/// Shifts right by `count` modulo 64, keeping the sign.
pub fn wrapping_shr(a: i64, count: u32) -> (r: i64)
    ensures
        r == shifted_right(a, count),
{
    a.wrapping_shr(count)
}

/// Shifts the unsigned pattern right by `count` modulo 64.
pub fn wrapping_shr_unsigned(a: i64, count: u32) -> (r: i64)
    ensures
        r == shifted_right_unsigned(a, count),
{
    to_signed(to_unsigned(a).wrapping_shr(count))
}

/// Rotates the pattern left by `count` modulo 64.
pub fn rotate_left(a: i64, count: u32) -> (r: i64)
    ensures
        r == rotated_left(a, count),
{
    let k: u32 = count % 64;
    wrapping_shl(a, k) | wrapping_shr_unsigned(a, 64 - k)
}

/// Rotates the pattern right by `count` modulo 64.
pub fn rotate_right(a: i64, count: u32) -> (r: i64)
    ensures
        r == rotated_right(a, count),
{
    let k: u32 = count % 64;
    wrapping_shr_unsigned(a, k) | wrapping_shl(a, 64 - k)
}

/// Checks that `b` can serve as an exponent.
pub fn exponent(b: i64) -> (r: Result<u32, Int64Error>)
    ensures
        r == exponent_of(b),
{
    if b < 0 {
        Err(Int64Error::NegativeExponent)
    } else if b > 0xffff_ffff {
        Err(Int64Error::ExponentTooLarge)
    } else {
        Ok(b as u32)
    }
}

/// Checks that `b` can serve as a shift count.
pub fn shift_count(b: i64) -> (r: Result<u32, Int64Error>)
    ensures
        r == shift_count_of(b),
{
    if b < 0 {
        Err(Int64Error::NegativeShift)
    } else if b > 0xffff_ffff {
        Err(Int64Error::ShiftTooLarge)
    } else {
        Ok(b as u32)
    }
}

/// Checks that `b` can serve as a rotation count.
pub fn rotation_count(b: i64) -> (r: Result<u32, Int64Error>)
    ensures
        r == rotation_count_of(b),
{
    if b < 0 {
        Err(Int64Error::NegativeRotation)
    } else if b > 0xffff_ffff {
        Err(Int64Error::RotationTooLarge)
    } else {
        Ok(b as u32)
    }
}

/// Checks that `b` can serve as a divisor.
pub fn divisor(b: i64) -> (r: Result<i64, Int64Error>)
    ensures
        r == divisor_of(b),
{
    if b == 0 {
        Err(Int64Error::DivisionByZero)
    } else {
        Ok(b)
    }
}

} // verus!
