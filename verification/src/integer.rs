//! The 64-bit integer itself.
//!
//! Every operation that takes an operand first coerces it and, where the
//! operation bounds it, checks the bound. Only after that is the pattern
//! replaced: an operation that fails leaves the integer as it was. The
//! operations that change the integer hand it back, so that calls can be
//! chained.
use crate::arith::{
    difference, divisor, divisor_of, exponent, exponent_of, negation, power, product, quotient,
    remainder, rotate_left, rotate_right, rotated_left, rotated_right, rotation_count,
    rotation_count_of, shift_count, shift_count_of, shifted_left, shifted_right,
    shifted_right_unsigned, sum, wrapping_add, wrapping_div, wrapping_mul, wrapping_neg,
    wrapping_pow, wrapping_rem, wrapping_shl, wrapping_shr, wrapping_shr_unsigned, wrapping_sub,
};
use crate::codec::{encoded, to_le_bytes};
use crate::comparison::{compare, compared, Comparison};
use crate::error::Int64Error;
use crate::operand::{coerced, to_i64, Operand};
use crate::random::{between, random_between};
use crate::render::{
    binary_text, decimal_text, hex_text, octal_text, to_binary, to_decimal, to_hex, to_octal,
};
use vstd::prelude::*;

verus! {

/// The largest integer that a native number holds exactly: 2^53 - 1.
pub const MAX_SAFE_INTEGER: i64 = 9007199254740991;

/// The smallest integer that a native number holds exactly: -(2^53 - 1).
pub const MIN_SAFE_INTEGER: i64 = -9007199254740991;

/// `v` as a native number: itself within the safe range, else the failure
/// that names the bound it passes.
pub open spec fn safe_number(v: i64) -> Result<i64, Int64Error> {
    if v > MAX_SAFE_INTEGER {
        Err(Int64Error::AboveSafeRange(v))
    } else if v < MIN_SAFE_INTEGER {
        Err(Int64Error::BelowSafeRange(v))
    } else {
        Ok(v)
    }
}

/// Whether an optional flag is given and set.
pub open spec fn flag(option: Option<bool>) -> bool {
    option == Some(true)
}

/// A signed 64-bit integer in two's complement. It has no state but its bit
/// pattern, which its view gives as a signed number. Two integers are equal
/// where their patterns are.
#[derive(Debug, PartialEq, Eq, Structural)]
pub struct Int64 {
    v: i64,
}

impl View for Int64 {
    type V = i64;

    closed spec fn view(&self) -> i64 {
        self.v
    }
}

impl Int64 {
    /// An integer with the given pattern.
    pub(crate) fn from_value(v: i64) -> (r: Int64)
        ensures
            r@ == v,
    {
        Int64 { v }
    }

    /// The pattern as a signed number.
    pub(crate) fn value(&self) -> (r: i64)
        ensures
            r == self@,
    {
        self.v
    }

    /// Makes an integer from `value`, or zero where there is none.
    pub fn new(value: Option<Operand>) -> (r: Result<Int64, Int64Error>)
        ensures
            match value {
                Some(operand) => match coerced(operand) {
                    Ok(v) => r matches Ok(x) && x@ == v,
                    Err(e) => r matches Err(x) && x == e,
                },
                None => r matches Ok(x) && x@ == 0,
            },
    {
        match value {
            Some(operand) => match to_i64(operand) {
                Ok(v) => Ok(Int64 { v }),
                Err(e) => Err(e),
            },
            None => Ok(Int64 { v: 0 }),
        }
    }

    /// The integer in decimal.
    pub fn to_decimal(&self) -> (r: String)
        ensures
            r@ == decimal_text(self@),
    {
        to_decimal(self.v)
    }

    /// The pattern in binary. With `format` set it comes as `0b` and 64
    /// digits.
    pub fn to_binary(&self, format: Option<bool>) -> (r: String)
        ensures
            r@ == binary_text(self@, flag(format)),
    {
        to_binary(self.v, is_set(format))
    }

    /// The pattern in octal. With `format` set it comes as `0o` and 22 digits.
    pub fn to_octal(&self, format: Option<bool>) -> (r: String)
        ensures
            r@ == octal_text(self@, flag(format)),
    {
        to_octal(self.v, is_set(format))
    }

    /// The pattern in hexadecimal, in capital letters with `uppercase` set.
    /// With `format` set it comes as `0x`, or `0X` in capital letters, and 16
    /// digits.
    pub fn to_hex(&self, format: Option<bool>, uppercase: Option<bool>) -> (r: String)
        ensures
            r@ == hex_text(self@, flag(format), flag(uppercase)),
    {
        to_hex(self.v, is_set(format), is_set(uppercase))
    }

    /// The pattern as eight bytes, least significant first.
    pub fn to_buffer(&self) -> (r: Vec<u8>)
        ensures
            r@ == encoded(self@),
            r@.len() == 8,
    {
        to_le_bytes(self.v)
    }

    /// The integer as a native number, which holds it exactly only within
    /// `MIN_SAFE_INTEGER..=MAX_SAFE_INTEGER`.
    pub fn to_number(&self) -> (r: Result<i64, Int64Error>)
        ensures
            r == safe_number(self@),
    {
        if self.v > MAX_SAFE_INTEGER {
            Err(Int64Error::AboveSafeRange(self.v))
        } else if self.v < MIN_SAFE_INTEGER {
            Err(Int64Error::BelowSafeRange(self.v))
        } else {
            Ok(self.v)
        }
    }

    /// Replaces the pattern by that of `value`.
    pub fn set(&mut self, value: Operand) -> (r: Result<&mut Int64, Int64Error>)
        ensures
            match coerced(value) {
                Ok(b) => {
                    &&& r matches Ok(s)
                    &&& s@ == b
                    &&& *final(self) == *final(s)
                },
                Err(e) => {
                    &&& r matches Err(x)
                    &&& x == e
                    &&& *final(self) == *old(self)
                },
            },
    {
        let b = match to_i64(value) {
            Ok(b) => b,
            Err(e) => return Err(e),
        };
        self.v = b;
        Ok(self)
    }

    /// Adds `value`, wrapping at the boundary of 64 bits.
    pub fn add(&mut self, value: Operand) -> (r: Result<&mut Int64, Int64Error>)
        ensures
            match coerced(value) {
                Ok(b) => {
                    &&& r matches Ok(s)
                    &&& s@ == sum(old(self)@, b)
                    &&& *final(self) == *final(s)
                },
                Err(e) => {
                    &&& r matches Err(x)
                    &&& x == e
                    &&& *final(self) == *old(self)
                },
            },
    {
        let b = match to_i64(value) {
            Ok(b) => b,
            Err(e) => return Err(e),
        };
        self.v = wrapping_add(self.v, b);
        Ok(self)
    }

    /// Subtracts `value`, wrapping at the boundary of 64 bits.
    pub fn subtract(&mut self, value: Operand) -> (r: Result<&mut Int64, Int64Error>)
        ensures
            match coerced(value) {
                Ok(b) => {
                    &&& r matches Ok(s)
                    &&& s@ == difference(old(self)@, b)
                    &&& *final(self) == *final(s)
                },
                Err(e) => {
                    &&& r matches Err(x)
                    &&& x == e
                    &&& *final(self) == *old(self)
                },
            },
    {
        let b = match to_i64(value) {
            Ok(b) => b,
            Err(e) => return Err(e),
        };
        self.v = wrapping_sub(self.v, b);
        Ok(self)
    }

    /// Multiplies by `value`, wrapping at the boundary of 64 bits.
    pub fn multiply(&mut self, value: Operand) -> (r: Result<&mut Int64, Int64Error>)
        ensures
            match coerced(value) {
                Ok(b) => {
                    &&& r matches Ok(s)
                    &&& s@ == product(old(self)@, b)
                    &&& *final(self) == *final(s)
                },
                Err(e) => {
                    &&& r matches Err(x)
                    &&& x == e
                    &&& *final(self) == *old(self)
                },
            },
    {
        let b = match to_i64(value) {
            Ok(b) => b,
            Err(e) => return Err(e),
        };
        self.v = wrapping_mul(self.v, b);
        Ok(self)
    }

    /// Divides by `value`, rounding toward zero. The smallest value divided by
    /// -1 stays as it is. A divisor of zero is refused.
    pub fn divide(&mut self, value: Operand) -> (r: Result<&mut Int64, Int64Error>)
        ensures
            match coerced(value) {
                Ok(b) => match divisor_of(b) {
                    Ok(d) => {
                        &&& r matches Ok(s)
                        &&& s@ == quotient(old(self)@, d)
                        &&& *final(self) == *final(s)
                    },
                    Err(e) => {
                        &&& r matches Err(x)
                        &&& x == e
                        &&& *final(self) == *old(self)
                    },
                },
                Err(e) => {
                    &&& r matches Err(x)
                    &&& x == e
                    &&& *final(self) == *old(self)
                },
            },
    {
        let b = match to_i64(value) {
            Ok(b) => b,
            Err(e) => return Err(e),
        };
        let d = match divisor(b) {
            Ok(d) => d,
            Err(e) => return Err(e),
        };
        self.v = wrapping_div(self.v, d);
        Ok(self)
    }

    /// Keeps what is left after division by `value` rounded toward zero. A
    /// divisor of zero is refused.
    pub fn modulo(&mut self, value: Operand) -> (r: Result<&mut Int64, Int64Error>)
        ensures
            match coerced(value) {
                Ok(b) => match divisor_of(b) {
                    Ok(d) => {
                        &&& r matches Ok(s)
                        &&& s@ == remainder(old(self)@, d)
                        &&& *final(self) == *final(s)
                    },
                    Err(e) => {
                        &&& r matches Err(x)
                        &&& x == e
                        &&& *final(self) == *old(self)
                    },
                },
                Err(e) => {
                    &&& r matches Err(x)
                    &&& x == e
                    &&& *final(self) == *old(self)
                },
            },
    {
        let b = match to_i64(value) {
            Ok(b) => b,
            Err(e) => return Err(e),
        };
        let d = match divisor(b) {
            Ok(d) => d,
            Err(e) => return Err(e),
        };
        self.v = wrapping_rem(self.v, d);
        Ok(self)
    }

    /// Raises to the power `value`, wrapping at the boundary of 64 bits. The
    /// exponent must lie in `0..=u32::MAX`.
    pub fn pow(&mut self, value: Operand) -> (r: Result<&mut Int64, Int64Error>)
        ensures
            match coerced(value) {
                Ok(b) => match exponent_of(b) {
                    Ok(n) => {
                        &&& r matches Ok(s)
                        &&& s@ == power(old(self)@, n as nat)
                        &&& *final(self) == *final(s)
                    },
                    Err(e) => {
                        &&& r matches Err(x)
                        &&& x == e
                        &&& *final(self) == *old(self)
                    },
                },
                Err(e) => {
                    &&& r matches Err(x)
                    &&& x == e
                    &&& *final(self) == *old(self)
                },
            },
    {
        let b = match to_i64(value) {
            Ok(b) => b,
            Err(e) => return Err(e),
        };
        let n = match exponent(b) {
            Ok(n) => n,
            Err(e) => return Err(e),
        };
        self.v = wrapping_pow(self.v, n);
        Ok(self)
    }

    /// Shifts left by `value` modulo 64 bits. The count must lie in
    /// `0..=u32::MAX`.
    pub fn shift_left(&mut self, value: Operand) -> (r: Result<&mut Int64, Int64Error>)
        ensures
            match coerced(value) {
                Ok(b) => match shift_count_of(b) {
                    Ok(n) => {
                        &&& r matches Ok(s)
                        &&& s@ == shifted_left(old(self)@, n)
                        &&& *final(self) == *final(s)
                    },
                    Err(e) => {
                        &&& r matches Err(x)
                        &&& x == e
                        &&& *final(self) == *old(self)
                    },
                },
                Err(e) => {
                    &&& r matches Err(x)
                    &&& x == e
                    &&& *final(self) == *old(self)
                },
            },
    {
        let b = match to_i64(value) {
            Ok(b) => b,
            Err(e) => return Err(e),
        };
        let n = match shift_count(b) {
            Ok(n) => n,
            Err(e) => return Err(e),
        };
        self.v = wrapping_shl(self.v, n);
        Ok(self)
    }

    /// Shifts right by `value` modulo 64 bits, keeping the sign. The count
    /// must lie in `0..=u32::MAX`.
    pub fn shift_right(&mut self, value: Operand) -> (r: Result<&mut Int64, Int64Error>)
        ensures
            match coerced(value) {
                Ok(b) => match shift_count_of(b) {
                    Ok(n) => {
                        &&& r matches Ok(s)
                        &&& s@ == shifted_right(old(self)@, n)
                        &&& *final(self) == *final(s)
                    },
                    Err(e) => {
                        &&& r matches Err(x)
                        &&& x == e
                        &&& *final(self) == *old(self)
                    },
                },
                Err(e) => {
                    &&& r matches Err(x)
                    &&& x == e
                    &&& *final(self) == *old(self)
                },
            },
    {
        let b = match to_i64(value) {
            Ok(b) => b,
            Err(e) => return Err(e),
        };
        let n = match shift_count(b) {
            Ok(n) => n,
            Err(e) => return Err(e),
        };
        self.v = wrapping_shr(self.v, n);
        Ok(self)
    }

    /// Shifts the unsigned pattern right by `value` modulo 64 bits. The count
    /// must lie in `0..=u32::MAX`.
    pub fn shift_right_unsigned(&mut self, value: Operand) -> (r: Result<&mut Int64, Int64Error>)
        ensures
            match coerced(value) {
                Ok(b) => match shift_count_of(b) {
                    Ok(n) => {
                        &&& r matches Ok(s)
                        &&& s@ == shifted_right_unsigned(old(self)@, n)
                        &&& *final(self) == *final(s)
                    },
                    Err(e) => {
                        &&& r matches Err(x)
                        &&& x == e
                        &&& *final(self) == *old(self)
                    },
                },
                Err(e) => {
                    &&& r matches Err(x)
                    &&& x == e
                    &&& *final(self) == *old(self)
                },
            },
    {
        let b = match to_i64(value) {
            Ok(b) => b,
            Err(e) => return Err(e),
        };
        let n = match shift_count(b) {
            Ok(n) => n,
            Err(e) => return Err(e),
        };
        self.v = wrapping_shr_unsigned(self.v, n);
        Ok(self)
    }

    /// Rotates the pattern left by `value` modulo 64 bits. The count must lie
    /// in `0..=u32::MAX`.
    pub fn rotate_left(&mut self, value: Operand) -> (r: Result<&mut Int64, Int64Error>)
        ensures
            match coerced(value) {
                Ok(b) => match rotation_count_of(b) {
                    Ok(n) => {
                        &&& r matches Ok(s)
                        &&& s@ == rotated_left(old(self)@, n)
                        &&& *final(self) == *final(s)
                    },
                    Err(e) => {
                        &&& r matches Err(x)
                        &&& x == e
                        &&& *final(self) == *old(self)
                    },
                },
                Err(e) => {
                    &&& r matches Err(x)
                    &&& x == e
                    &&& *final(self) == *old(self)
                },
            },
    {
        let b = match to_i64(value) {
            Ok(b) => b,
            Err(e) => return Err(e),
        };
        let n = match rotation_count(b) {
            Ok(n) => n,
            Err(e) => return Err(e),
        };
        self.v = rotate_left(self.v, n);
        Ok(self)
    }

    /// Rotates the pattern right by `value` modulo 64 bits. The count must lie
    /// in `0..=u32::MAX`.
    pub fn rotate_right(&mut self, value: Operand) -> (r: Result<&mut Int64, Int64Error>)
        ensures
            match coerced(value) {
                Ok(b) => match rotation_count_of(b) {
                    Ok(n) => {
                        &&& r matches Ok(s)
                        &&& s@ == rotated_right(old(self)@, n)
                        &&& *final(self) == *final(s)
                    },
                    Err(e) => {
                        &&& r matches Err(x)
                        &&& x == e
                        &&& *final(self) == *old(self)
                    },
                },
                Err(e) => {
                    &&& r matches Err(x)
                    &&& x == e
                    &&& *final(self) == *old(self)
                },
            },
    {
        let b = match to_i64(value) {
            Ok(b) => b,
            Err(e) => return Err(e),
        };
        let n = match rotation_count(b) {
            Ok(n) => n,
            Err(e) => return Err(e),
        };
        self.v = rotate_right(self.v, n);
        Ok(self)
    }

    /// Keeps the bits that are set in both patterns.
    pub fn and(&mut self, value: Operand) -> (r: Result<&mut Int64, Int64Error>)
        ensures
            match coerced(value) {
                Ok(b) => {
                    &&& r matches Ok(s)
                    &&& s@ == (old(self)@ & b)
                    &&& *final(self) == *final(s)
                },
                Err(e) => {
                    &&& r matches Err(x)
                    &&& x == e
                    &&& *final(self) == *old(self)
                },
            },
    {
        let b = match to_i64(value) {
            Ok(b) => b,
            Err(e) => return Err(e),
        };
        self.v = self.v & b;
        Ok(self)
    }

    /// Sets the bits that are set in either pattern.
    pub fn or(&mut self, value: Operand) -> (r: Result<&mut Int64, Int64Error>)
        ensures
            match coerced(value) {
                Ok(b) => {
                    &&& r matches Ok(s)
                    &&& s@ == (old(self)@ | b)
                    &&& *final(self) == *final(s)
                },
                Err(e) => {
                    &&& r matches Err(x)
                    &&& x == e
                    &&& *final(self) == *old(self)
                },
            },
    {
        let b = match to_i64(value) {
            Ok(b) => b,
            Err(e) => return Err(e),
        };
        self.v = self.v | b;
        Ok(self)
    }

    /// Sets the bits in which the two patterns differ.
    pub fn xor(&mut self, value: Operand) -> (r: Result<&mut Int64, Int64Error>)
        ensures
            match coerced(value) {
                Ok(b) => {
                    &&& r matches Ok(s)
                    &&& s@ == (old(self)@ ^ b)
                    &&& *final(self) == *final(s)
                },
                Err(e) => {
                    &&& r matches Err(x)
                    &&& x == e
                    &&& *final(self) == *old(self)
                },
            },
    {
        let b = match to_i64(value) {
            Ok(b) => b,
            Err(e) => return Err(e),
        };
        self.v = self.v ^ b;
        Ok(self)
    }

    /// Sets the bits that are not set in both patterns.
    pub fn nand(&mut self, value: Operand) -> (r: Result<&mut Int64, Int64Error>)
        ensures
            match coerced(value) {
                Ok(b) => {
                    &&& r matches Ok(s)
                    &&& s@ == !(old(self)@ & b)
                    &&& *final(self) == *final(s)
                },
                Err(e) => {
                    &&& r matches Err(x)
                    &&& x == e
                    &&& *final(self) == *old(self)
                },
            },
    {
        let b = match to_i64(value) {
            Ok(b) => b,
            Err(e) => return Err(e),
        };
        self.v = !(self.v & b);
        Ok(self)
    }

    /// Sets the bits that are set in neither pattern.
    pub fn nor(&mut self, value: Operand) -> (r: Result<&mut Int64, Int64Error>)
        ensures
            match coerced(value) {
                Ok(b) => {
                    &&& r matches Ok(s)
                    &&& s@ == !(old(self)@ | b)
                    &&& *final(self) == *final(s)
                },
                Err(e) => {
                    &&& r matches Err(x)
                    &&& x == e
                    &&& *final(self) == *old(self)
                },
            },
    {
        let b = match to_i64(value) {
            Ok(b) => b,
            Err(e) => return Err(e),
        };
        self.v = !(self.v | b);
        Ok(self)
    }

    /// Sets the bits in which the two patterns agree.
    pub fn xnor(&mut self, value: Operand) -> (r: Result<&mut Int64, Int64Error>)
        ensures
            match coerced(value) {
                Ok(b) => {
                    &&& r matches Ok(s)
                    &&& s@ == !(old(self)@ ^ b)
                    &&& *final(self) == *final(s)
                },
                Err(e) => {
                    &&& r matches Err(x)
                    &&& x == e
                    &&& *final(self) == *old(self)
                },
            },
    {
        let b = match to_i64(value) {
            Ok(b) => b,
            Err(e) => return Err(e),
        };
        self.v = !(self.v ^ b);
        Ok(self)
    }

    /// Flips every bit of the pattern.
    pub fn not(&mut self) -> (r: &mut Int64)
        ensures
            r@ == !old(self)@,
            *final(self) == *final(r),
    {
        self.v = !self.v;
        self
    }

    /// Negates the integer. The smallest value is its own negation.
    pub fn negative(&mut self) -> (r: &mut Int64)
        ensures
            r@ == negation(old(self)@),
            *final(self) == *final(r),
    {
        self.v = wrapping_neg(self.v);
        self
    }

    /// Whether this integer equals `value`.
    pub fn eq(&self, value: Operand) -> (r: Result<bool, Int64Error>)
        ensures
            r == match coerced(value) {
                Ok(b) => Ok(self@ == b),
                Err(e) => Err(e),
            },
    {
        match to_i64(value) {
            Ok(b) => Ok(self.v == b),
            Err(e) => Err(e),
        }
    }

    /// Whether this integer differs from `value`.
    pub fn ne(&self, value: Operand) -> (r: Result<bool, Int64Error>)
        ensures
            r == match coerced(value) {
                Ok(b) => Ok(self@ != b),
                Err(e) => Err(e),
            },
    {
        match to_i64(value) {
            Ok(b) => Ok(self.v != b),
            Err(e) => Err(e),
        }
    }

    /// Whether this integer is greater than `value`.
    pub fn gt(&self, value: Operand) -> (r: Result<bool, Int64Error>)
        ensures
            r == match coerced(value) {
                Ok(b) => Ok(self@ > b),
                Err(e) => Err(e),
            },
    {
        match to_i64(value) {
            Ok(b) => Ok(self.v > b),
            Err(e) => Err(e),
        }
    }

    /// Whether this integer is at least `value`.
    pub fn gte(&self, value: Operand) -> (r: Result<bool, Int64Error>)
        ensures
            r == match coerced(value) {
                Ok(b) => Ok(self@ >= b),
                Err(e) => Err(e),
            },
    {
        match to_i64(value) {
            Ok(b) => Ok(self.v >= b),
            Err(e) => Err(e),
        }
    }

    /// Whether this integer is smaller than `value`.
    pub fn lt(&self, value: Operand) -> (r: Result<bool, Int64Error>)
        ensures
            r == match coerced(value) {
                Ok(b) => Ok(self@ < b),
                Err(e) => Err(e),
            },
    {
        match to_i64(value) {
            Ok(b) => Ok(self.v < b),
            Err(e) => Err(e),
        }
    }

    /// Whether this integer is at most `value`.
    pub fn lte(&self, value: Operand) -> (r: Result<bool, Int64Error>)
        ensures
            r == match coerced(value) {
                Ok(b) => Ok(self@ <= b),
                Err(e) => Err(e),
            },
    {
        match to_i64(value) {
            Ok(b) => Ok(self.v <= b),
            Err(e) => Err(e),
        }
    }

    /// How this integer stands to `value`.
    pub fn comp(&self, value: Operand) -> (r: Result<Comparison, Int64Error>)
        ensures
            r == match coerced(value) {
                Ok(b) => Ok(compared(self@, b)),
                Err(e) => Err(e),
            },
    {
        match to_i64(value) {
            Ok(b) => Ok(compare(self.v, b)),
            Err(e) => Err(e),
        }
    }

    /// Replaces the pattern by a random integer between this one and `value`,
    /// both included, whichever of the two is the lower bound.
    pub fn random(&mut self, value: Operand) -> (r: Result<&mut Int64, Int64Error>)
        ensures
            match coerced(value) {
                Ok(b) => {
                    &&& r matches Ok(s)
                    &&& between(old(self)@, b, s@)
                    &&& *final(self) == *final(s)
                },
                Err(e) => {
                    &&& r matches Err(x)
                    &&& x == e
                    &&& *final(self) == *old(self)
                },
            },
    {
        let b = match to_i64(value) {
            Ok(b) => b,
            Err(e) => return Err(e),
        };
        self.v = random_between(self.v, b);
        Ok(self)
    }

    /// An independent integer with the same pattern.
    pub fn clone(&self) -> (r: Int64)
        ensures
            r@ == self@,
    {
        Int64 { v: self.v }
    }
}

/// Reads an optional flag: unset where it is missing.
pub fn is_set(option: Option<bool>) -> (r: bool)
    ensures
        r == flag(option),
{
    match option {
        Some(b) => b,
        None => false,
    }
}

} // verus!
