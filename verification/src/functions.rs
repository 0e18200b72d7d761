//! The operations as free functions of two operands.
//!
//! The first operand is coerced before the second, so a failure of the first
//! is the one reported. A bound on the second operand is checked after both
//! are coerced.
use crate::arith::{
    difference, divisor, divisor_of, exponent, exponent_of, negation, power, product, quotient,
    remainder, rotated_left, rotated_right, rotation_count, rotation_count_of, shift_count,
    shift_count_of, shifted_left, shifted_right, shifted_right_unsigned, sum, wrapping_add,
    wrapping_div, wrapping_mul, wrapping_neg, wrapping_pow, wrapping_rem, wrapping_shl,
    wrapping_shr, wrapping_shr_unsigned, wrapping_sub,
};
use crate::comparison::{compare, compared, Comparison};
use crate::error::Int64Error;
use crate::integer::Int64;
use crate::operand::{coerced, coerced_pair, to_i64, to_pair, Operand};
use crate::random::{between, random_between};
use vstd::prelude::*;

verus! {

/// `a + b`, wrapping at the boundary of 64 bits.
pub fn add(a: Operand, b: Operand) -> (r: Result<Int64, Int64Error>)
    ensures
        match coerced_pair(a, b) {
            Ok((x, y)) => r matches Ok(v) && v@ == sum(x, y),
            Err(e) => r matches Err(f) && f == e,
        },
{
    match to_pair(a, b) {
        Ok((x, y)) => Ok(Int64::from_value(wrapping_add(x, y))),
        Err(e) => Err(e),
    }
}

/// `a - b`, wrapping at the boundary of 64 bits.
pub fn subtract(a: Operand, b: Operand) -> (r: Result<Int64, Int64Error>)
    ensures
        match coerced_pair(a, b) {
            Ok((x, y)) => r matches Ok(v) && v@ == difference(x, y),
            Err(e) => r matches Err(f) && f == e,
        },
{
    match to_pair(a, b) {
        Ok((x, y)) => Ok(Int64::from_value(wrapping_sub(x, y))),
        Err(e) => Err(e),
    }
}

/// `a * b`, wrapping at the boundary of 64 bits.
pub fn multiply(a: Operand, b: Operand) -> (r: Result<Int64, Int64Error>)
    ensures
        match coerced_pair(a, b) {
            Ok((x, y)) => r matches Ok(v) && v@ == product(x, y),
            Err(e) => r matches Err(f) && f == e,
        },
{
    match to_pair(a, b) {
        Ok((x, y)) => Ok(Int64::from_value(wrapping_mul(x, y))),
        Err(e) => Err(e),
    }
}

/// `a / b`, rounded toward zero. The smallest value divided by -1 is the
/// smallest value. A divisor of zero is refused.
pub fn divide(a: Operand, b: Operand) -> (r: Result<Int64, Int64Error>)
    ensures
        match coerced_pair(a, b) {
            Ok((x, y)) => match divisor_of(y) {
                Ok(d) => r matches Ok(v) && v@ == quotient(x, d),
                Err(e) => r matches Err(f) && f == e,
            },
            Err(e) => r matches Err(f) && f == e,
        },
{
    let (x, y) = match to_pair(a, b) {
        Ok(pair) => pair,
        Err(e) => return Err(e),
    };
    match divisor(y) {
        Ok(d) => Ok(Int64::from_value(wrapping_div(x, d))),
        Err(e) => Err(e),
    }
}

/// What is left of `a` after division by `b` rounded toward zero. A divisor
/// of zero is refused.
pub fn modulo(a: Operand, b: Operand) -> (r: Result<Int64, Int64Error>)
    ensures
        match coerced_pair(a, b) {
            Ok((x, y)) => match divisor_of(y) {
                Ok(d) => r matches Ok(v) && v@ == remainder(x, d),
                Err(e) => r matches Err(f) && f == e,
            },
            Err(e) => r matches Err(f) && f == e,
        },
{
    let (x, y) = match to_pair(a, b) {
        Ok(pair) => pair,
        Err(e) => return Err(e),
    };
    match divisor(y) {
        Ok(d) => Ok(Int64::from_value(wrapping_rem(x, d))),
        Err(e) => Err(e),
    }
}

/// `a` raised to the power `b`, wrapping at the boundary of 64 bits. The
/// exponent must lie in `0..=u32::MAX`.
pub fn pow(a: Operand, b: Operand) -> (r: Result<Int64, Int64Error>)
    ensures
        match coerced_pair(a, b) {
            Ok((x, y)) => match exponent_of(y) {
                Ok(n) => r matches Ok(v) && v@ == power(x, n as nat),
                Err(e) => r matches Err(f) && f == e,
            },
            Err(e) => r matches Err(f) && f == e,
        },
{
    let (x, y) = match to_pair(a, b) {
        Ok(pair) => pair,
        Err(e) => return Err(e),
    };
    match exponent(y) {
        Ok(n) => Ok(Int64::from_value(wrapping_pow(x, n))),
        Err(e) => Err(e),
    }
}

/// `a` shifted left by `b` modulo 64 bits. The count must lie in
/// `0..=u32::MAX`.
pub fn shift_left(a: Operand, b: Operand) -> (r: Result<Int64, Int64Error>)
    ensures
        match coerced_pair(a, b) {
            Ok((x, y)) => match shift_count_of(y) {
                Ok(n) => r matches Ok(v) && v@ == shifted_left(x, n),
                Err(e) => r matches Err(f) && f == e,
            },
            Err(e) => r matches Err(f) && f == e,
        },
{
    let (x, y) = match to_pair(a, b) {
        Ok(pair) => pair,
        Err(e) => return Err(e),
    };
    match shift_count(y) {
        Ok(n) => Ok(Int64::from_value(wrapping_shl(x, n))),
        Err(e) => Err(e),
    }
}

/// `a` shifted right by `b` modulo 64 bits, keeping the sign. The count must
/// lie in `0..=u32::MAX`.
pub fn shift_right(a: Operand, b: Operand) -> (r: Result<Int64, Int64Error>)
    ensures
        match coerced_pair(a, b) {
            Ok((x, y)) => match shift_count_of(y) {
                Ok(n) => r matches Ok(v) && v@ == shifted_right(x, n),
                Err(e) => r matches Err(f) && f == e,
            },
            Err(e) => r matches Err(f) && f == e,
        },
{
    let (x, y) = match to_pair(a, b) {
        Ok(pair) => pair,
        Err(e) => return Err(e),
    };
    match shift_count(y) {
        Ok(n) => Ok(Int64::from_value(wrapping_shr(x, n))),
        Err(e) => Err(e),
    }
}

/// The unsigned pattern of `a` shifted right by `b` modulo 64 bits. The count
/// must lie in `0..=u32::MAX`.
pub fn shift_right_unsigned(a: Operand, b: Operand) -> (r: Result<Int64, Int64Error>)
    ensures
        match coerced_pair(a, b) {
            Ok((x, y)) => match shift_count_of(y) {
                Ok(n) => r matches Ok(v) && v@ == shifted_right_unsigned(x, n),
                Err(e) => r matches Err(f) && f == e,
            },
            Err(e) => r matches Err(f) && f == e,
        },
{
    let (x, y) = match to_pair(a, b) {
        Ok(pair) => pair,
        Err(e) => return Err(e),
    };
    match shift_count(y) {
        Ok(n) => Ok(Int64::from_value(wrapping_shr_unsigned(x, n))),
        Err(e) => Err(e),
    }
}

/// The pattern of `a` rotated left by `b` modulo 64 bits. The count must lie
/// in `0..=u32::MAX`.
pub fn rotate_left(a: Operand, b: Operand) -> (r: Result<Int64, Int64Error>)
    ensures
        match coerced_pair(a, b) {
            Ok((x, y)) => match rotation_count_of(y) {
                Ok(n) => r matches Ok(v) && v@ == rotated_left(x, n),
                Err(e) => r matches Err(f) && f == e,
            },
            Err(e) => r matches Err(f) && f == e,
        },
{
    let (x, y) = match to_pair(a, b) {
        Ok(pair) => pair,
        Err(e) => return Err(e),
    };
    match rotation_count(y) {
        Ok(n) => Ok(Int64::from_value(crate::arith::rotate_left(x, n))),
        Err(e) => Err(e),
    }
}

/// The pattern of `a` rotated right by `b` modulo 64 bits. The count must lie
/// in `0..=u32::MAX`.
pub fn rotate_right(a: Operand, b: Operand) -> (r: Result<Int64, Int64Error>)
    ensures
        match coerced_pair(a, b) {
            Ok((x, y)) => match rotation_count_of(y) {
                Ok(n) => r matches Ok(v) && v@ == rotated_right(x, n),
                Err(e) => r matches Err(f) && f == e,
            },
            Err(e) => r matches Err(f) && f == e,
        },
{
    let (x, y) = match to_pair(a, b) {
        Ok(pair) => pair,
        Err(e) => return Err(e),
    };
    match rotation_count(y) {
        Ok(n) => Ok(Int64::from_value(crate::arith::rotate_right(x, n))),
        Err(e) => Err(e),
    }
}

/// The bits that are set in both patterns.
pub fn and(a: Operand, b: Operand) -> (r: Result<Int64, Int64Error>)
    ensures
        match coerced_pair(a, b) {
            Ok((x, y)) => r matches Ok(v) && v@ == (x & y),
            Err(e) => r matches Err(f) && f == e,
        },
{
    match to_pair(a, b) {
        Ok((x, y)) => Ok(Int64::from_value(x & y)),
        Err(e) => Err(e),
    }
}

/// The bits that are set in either pattern.
pub fn or(a: Operand, b: Operand) -> (r: Result<Int64, Int64Error>)
    ensures
        match coerced_pair(a, b) {
            Ok((x, y)) => r matches Ok(v) && v@ == (x | y),
            Err(e) => r matches Err(f) && f == e,
        },
{
    match to_pair(a, b) {
        Ok((x, y)) => Ok(Int64::from_value(x | y)),
        Err(e) => Err(e),
    }
}

/// The bits in which the two patterns differ.
pub fn xor(a: Operand, b: Operand) -> (r: Result<Int64, Int64Error>)
    ensures
        match coerced_pair(a, b) {
            Ok((x, y)) => r matches Ok(v) && v@ == (x ^ y),
            Err(e) => r matches Err(f) && f == e,
        },
{
    match to_pair(a, b) {
        Ok((x, y)) => Ok(Int64::from_value(x ^ y)),
        Err(e) => Err(e),
    }
}

/// The bits that are not set in both patterns.
pub fn nand(a: Operand, b: Operand) -> (r: Result<Int64, Int64Error>)
    ensures
        match coerced_pair(a, b) {
            Ok((x, y)) => r matches Ok(v) && v@ == !(x & y),
            Err(e) => r matches Err(f) && f == e,
        },
{
    match to_pair(a, b) {
        Ok((x, y)) => Ok(Int64::from_value(!(x & y))),
        Err(e) => Err(e),
    }
}

/// The bits that are set in neither pattern.
pub fn nor(a: Operand, b: Operand) -> (r: Result<Int64, Int64Error>)
    ensures
        match coerced_pair(a, b) {
            Ok((x, y)) => r matches Ok(v) && v@ == !(x | y),
            Err(e) => r matches Err(f) && f == e,
        },
{
    match to_pair(a, b) {
        Ok((x, y)) => Ok(Int64::from_value(!(x | y))),
        Err(e) => Err(e),
    }
}

/// The bits in which the two patterns agree.
pub fn xnor(a: Operand, b: Operand) -> (r: Result<Int64, Int64Error>)
    ensures
        match coerced_pair(a, b) {
            Ok((x, y)) => r matches Ok(v) && v@ == !(x ^ y),
            Err(e) => r matches Err(f) && f == e,
        },
{
    match to_pair(a, b) {
        Ok((x, y)) => Ok(Int64::from_value(!(x ^ y))),
        Err(e) => Err(e),
    }
}

/// The pattern of `a` with every bit flipped.
pub fn not(a: Operand) -> (r: Result<Int64, Int64Error>)
    ensures
        match coerced(a) {
            Ok(x) => r matches Ok(v) && v@ == !x,
            Err(e) => r matches Err(f) && f == e,
        },
{
    match to_i64(a) {
        Ok(x) => Ok(Int64::from_value(!x)),
        Err(e) => Err(e),
    }
}

/// `-a`. The smallest value is its own negation.
pub fn negative(a: Operand) -> (r: Result<Int64, Int64Error>)
    ensures
        match coerced(a) {
            Ok(x) => r matches Ok(v) && v@ == negation(x),
            Err(e) => r matches Err(f) && f == e,
        },
{
    match to_i64(a) {
        Ok(x) => Ok(Int64::from_value(wrapping_neg(x))),
        Err(e) => Err(e),
    }
}

/// Whether `a` equals `b`.
pub fn eq(a: Operand, b: Operand) -> (r: Result<bool, Int64Error>)
    ensures
        r == match coerced_pair(a, b) {
            Ok((x, y)) => Ok(x == y),
            Err(e) => Err(e),
        },
{
    match to_pair(a, b) {
        Ok((x, y)) => Ok(x == y),
        Err(e) => Err(e),
    }
}

/// Whether `a` differs from `b`.
pub fn ne(a: Operand, b: Operand) -> (r: Result<bool, Int64Error>)
    ensures
        r == match coerced_pair(a, b) {
            Ok((x, y)) => Ok(x != y),
            Err(e) => Err(e),
        },
{
    match to_pair(a, b) {
        Ok((x, y)) => Ok(x != y),
        Err(e) => Err(e),
    }
}

/// Whether `a` is greater than `b`.
pub fn gt(a: Operand, b: Operand) -> (r: Result<bool, Int64Error>)
    ensures
        r == match coerced_pair(a, b) {
            Ok((x, y)) => Ok(x > y),
            Err(e) => Err(e),
        },
{
    match to_pair(a, b) {
        Ok((x, y)) => Ok(x > y),
        Err(e) => Err(e),
    }
}

/// Whether `a` is at least `b`.
pub fn gte(a: Operand, b: Operand) -> (r: Result<bool, Int64Error>)
    ensures
        r == match coerced_pair(a, b) {
            Ok((x, y)) => Ok(x >= y),
            Err(e) => Err(e),
        },
{
    match to_pair(a, b) {
        Ok((x, y)) => Ok(x >= y),
        Err(e) => Err(e),
    }
}

/// Whether `a` is smaller than `b`.
pub fn lt(a: Operand, b: Operand) -> (r: Result<bool, Int64Error>)
    ensures
        r == match coerced_pair(a, b) {
            Ok((x, y)) => Ok(x < y),
            Err(e) => Err(e),
        },
{
    match to_pair(a, b) {
        Ok((x, y)) => Ok(x < y),
        Err(e) => Err(e),
    }
}

/// Whether `a` is at most `b`.
pub fn lte(a: Operand, b: Operand) -> (r: Result<bool, Int64Error>)
    ensures
        r == match coerced_pair(a, b) {
            Ok((x, y)) => Ok(x <= y),
            Err(e) => Err(e),
        },
{
    match to_pair(a, b) {
        Ok((x, y)) => Ok(x <= y),
        Err(e) => Err(e),
    }
}

/// How `a` stands to `b`.
pub fn comp(a: Operand, b: Operand) -> (r: Result<Comparison, Int64Error>)
    ensures
        r == match coerced_pair(a, b) {
            Ok((x, y)) => Ok(compared(x, y)),
            Err(e) => Err(e),
        },
{
    match to_pair(a, b) {
        Ok((x, y)) => Ok(compare(x, y)),
        Err(e) => Err(e),
    }
}

/// A random integer between `a` and `b`, both included, whichever of the two
/// is the lower bound.
pub fn random(a: Operand, b: Operand) -> (r: Result<Int64, Int64Error>)
    ensures
        match coerced_pair(a, b) {
            Ok((x, y)) => r matches Ok(v) && between(x, y, v@),
            Err(e) => r matches Err(f) && f == e,
        },
{
    match to_pair(a, b) {
        Ok((x, y)) => Ok(Int64::from_value(random_between(x, y))),
        Err(e) => Err(e),
    }
}

} // verus!
