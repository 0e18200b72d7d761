//! Negation, comparison and division.
use crate::arith::{
    difference, magnitude_of, modulus, negation, power, product, quotient, remainder, sum,
};
use crate::comparison::{compared, Comparison};
use vstd::arithmetic::div_mod::{
    lemma_fundamental_div_mod, lemma_mod_bound, lemma_mul_mod_noop_general,
};
use vstd::arithmetic::power::{lemma_pow0, lemma_pow1, lemma_pow_adds, pow};
use vstd::prelude::*;

verus! {

/// Negating twice gives the integer back, the smallest value included, which
/// is its own negation.
pub proof fn law_negative_involution(x: i64)
    ensures
        negation(negation(x)) == x,
        negation(i64::MIN) == i64::MIN,
{
}

/// Subtracting undoes adding and adding undoes subtracting, across the
/// boundary of 64 bits too; negating is subtracting from zero.
pub proof fn law_add_subtract_inverse(a: i64, b: i64)
    ensures
        difference(sum(a, b), b) == a,
        sum(difference(a, b), b) == a,
        negation(a) == difference(0, a),
{
}

/// A power is a repeated product: the power zero is one, and one more in the
/// exponent is one more multiplication by the base, each wrapping at the
/// boundary of 64 bits.
pub proof fn law_power_is_repeated_product(base: i64, exponent: nat)
    ensures
        power(base, 0) == 1,
        power(base, exponent + 1) == product(base, power(base, exponent)),
{
    let p = pow(base as int, exponent);
    lemma_pow0(base as int);
    lemma_pow1(base as int);
    lemma_pow_adds(base as int, 1, exponent);
    lemma_mul_mod_noop_general(base as int, p, modulus());
    lemma_mul_mod_noop_general(base as int, power(base, exponent) as int, modulus());
}

/// A comparison has exactly one outcome, the one that `<`, `==` and `>` name,
/// and seen from the other side it is the reverse.
pub proof fn law_comparison(a: i64, b: i64)
    ensures
        compared(a, b) == Comparison::Less <==> a < b,
        compared(a, b) == Comparison::Equal <==> a == b,
        compared(a, b) == Comparison::Greater <==> a > b,
        compared(b, a) == compared(a, b).reversed(),
{
}

/// Quotient and remainder make up the dividend: `a == b * q + r`, where the
/// remainder is smaller in magnitude than the divisor and has the sign of the
/// dividend. The one quotient that does not fit, that of the smallest value
/// by -1, wraps to the smallest value, with remainder zero.
pub proof fn law_division(a: i64, b: i64)
    requires
        b != 0,
    ensures
        magnitude_of(remainder(a, b) as int) < magnitude_of(b as int),
        remainder(a, b) == 0 || (remainder(a, b) < 0) == (a < 0),
        !(a == i64::MIN && b == -1) ==> a == b * quotient(a, b) + remainder(a, b),
        quotient(i64::MIN, -1i64) == i64::MIN,
        remainder(i64::MIN, -1i64) == 0,
{
    let x = magnitude_of(a as int);
    let d = magnitude_of(b as int);
    let q = x / d;
    let r = x % d;
    lemma_fundamental_div_mod(x, d);
    lemma_mod_bound(x, d);
    assert(0 <= q <= x && (d >= 2 ==> 2 * q <= x)) by (nonlinear_arith)
        requires
            x == d * q + r,
            0 <= r < d,
            0 <= x,
    ;
    if a == i64::MIN && b == -1 {
        assert(x / 1 == x && x % 1 == 0);
    } else {
        let quot = quotient(a, b) as int;
        let rem = remainder(a, b) as int;
        assert(quot == if (a < 0) == (b < 0) {
            q
        } else {
            -q
        });
        assert(rem == if a < 0 {
            -r
        } else {
            r
        });
        assert(b * quot + rem == a) by (nonlinear_arith)
            requires
                x == d * q + r,
                x == if a < 0 {
                    -a
                } else {
                    a as int
                },
                d == if b < 0 {
                    -b
                } else {
                    b as int
                },
                quot == if (a < 0) == (b < 0) {
                    q
                } else {
                    -q
                },
                rem == if a < 0 {
                    -r
                } else {
                    r
                },
        ;
    }
    let m = magnitude_of(i64::MIN as int);
    assert(m / 1 == m && m % 1 == 0);
}

} // verus!
