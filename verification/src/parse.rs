//! Text to integer.
//!
//! A string longer than two bytes that starts with `0b`, `0o` or `0x` (the
//! letter in either case) is an unsigned literal of radix 2, 8 or 16 whose
//! 64-bit pattern is read as signed. Every other string is a signed decimal
//! literal.
use crate::arith::{to_signed, wrap};
use crate::error::ParseFailure;
use vstd::prelude::*;
use vstd::string::StringSliceAdditionalSpecFns;

verus! {

/// ASCII codes of the characters that the grammar names.
pub const ZERO: u8 = 48;

pub const NINE: u8 = 57;

pub const LOWER_A: u8 = 97;

pub const LOWER_Z: u8 = 122;

pub const UPPER_A: u8 = 65;

pub const UPPER_Z: u8 = 90;

pub const PLUS: u8 = 43;

pub const MINUS: u8 = 45;

pub const LOWER_B: u8 = 98;

pub const UPPER_B: u8 = 66;

pub const LOWER_O: u8 = 111;

pub const UPPER_O: u8 = 79;

pub const LOWER_X: u8 = 120;

pub const UPPER_X: u8 = 88;

/// The value of `c` as a digit, or 36 where `c` is no digit of any radix up
/// to 36. Letters count from ten in either case.
pub open spec fn digit_of(c: u8) -> int {
    if ZERO <= c <= NINE {
        c - ZERO
    } else if LOWER_A <= c <= LOWER_Z {
        c - LOWER_A + 10
    } else if UPPER_A <= c <= UPPER_Z {
        c - UPPER_A + 10
    } else {
        36
    }
}

/// Whether `c` is a digit of the radix.
pub open spec fn is_digit(c: u8, radix: int) -> bool {
    digit_of(c) < radix
}

/// The length of the longest prefix of `s` made of digits of the radix.
pub open spec fn digit_run(s: Seq<u8>, radix: int) -> nat
    decreases s.len(),
{
    if s.len() > 0 && is_digit(s[0], radix) {
        1 + digit_run(s.drop_first(), radix)
    } else {
        0
    }
}

/// The number that the digits of `s` denote, most significant digit first.
pub open spec fn magnitude(s: Seq<u8>, radix: int) -> int
    decreases s.len(),
{
    if s.len() == 0 {
        0
    } else {
        magnitude(s.drop_last(), radix) * radix + digit_of(s.last())
    }
}

/// Reads `s` as a run of digits whose value may not exceed `limit`.
///
/// The digits are taken from the left. A value above the limit is reported as
/// `overflow` even when a character that is no digit follows later; such a
/// character is otherwise `InvalidDigit`.
pub open spec fn parse_magnitude(
    s: Seq<u8>,
    radix: int,
    limit: int,
    overflow: ParseFailure,
) -> Result<int, ParseFailure> {
    let run = s.take(digit_run(s, radix) as int);
    if magnitude(run, radix) > limit {
        Err(overflow)
    } else if run.len() < s.len() {
        Err(ParseFailure::InvalidDigit)
    } else {
        Ok(magnitude(run, radix))
    }
}

/// Whether `s` is a single sign character.
pub open spec fn lone_sign(s: Seq<u8>) -> bool {
    s.len() == 1 && (s[0] == PLUS || s[0] == MINUS)
}

/// An unsigned 64-bit literal: an optional `+`, then digits of the radix.
pub open spec fn parse_unsigned(s: Seq<u8>, radix: int) -> Result<int, ParseFailure> {
    if s.len() == 0 {
        Err(ParseFailure::Empty)
    } else if lone_sign(s) {
        Err(ParseFailure::InvalidDigit)
    } else if s[0] == PLUS {
        parse_magnitude(s.drop_first(), radix, u64::MAX as int, ParseFailure::PosOverflow)
    } else {
        parse_magnitude(s, radix, u64::MAX as int, ParseFailure::PosOverflow)
    }
}

/// A signed 64-bit decimal literal: an optional `+` or `-`, then decimal
/// digits.
pub open spec fn parse_decimal(s: Seq<u8>) -> Result<int, ParseFailure> {
    if s.len() == 0 {
        Err(ParseFailure::Empty)
    } else if lone_sign(s) {
        Err(ParseFailure::InvalidDigit)
    } else if s[0] == MINUS {
        match parse_magnitude(s.drop_first(), 10, -(i64::MIN as int), ParseFailure::NegOverflow) {
            Ok(m) => Ok(-m),
            Err(e) => Err(e),
        }
    } else if s[0] == PLUS {
        parse_magnitude(s.drop_first(), 10, i64::MAX as int, ParseFailure::PosOverflow)
    } else {
        parse_magnitude(s, 10, i64::MAX as int, ParseFailure::PosOverflow)
    }
}

/// The radix that a prefix letter selects, if it selects one.
pub open spec fn prefix_radix(c: u8) -> Option<int> {
    if c == LOWER_B || c == UPPER_B {
        Some(2)
    } else if c == LOWER_O || c == UPPER_O {
        Some(8)
    } else if c == LOWER_X || c == UPPER_X {
        Some(16)
    } else {
        None
    }
}

/// Whether `s` starts with a radix prefix that is followed by something.
pub open spec fn has_prefix(s: Seq<u8>) -> bool {
    s.len() > 2 && s[0] == ZERO && prefix_radix(s[1]) is Some
}

/// The integer that the text `s` denotes.
pub open spec fn parse_text(s: Seq<u8>) -> Result<i64, ParseFailure> {
    if has_prefix(s) {
        match parse_unsigned(s.skip(2), prefix_radix(s[1])->0) {
            Ok(m) => Ok(wrap(m)),
            Err(e) => Err(e),
        }
    } else {
        match parse_decimal(s) {
            Ok(v) => Ok(v as i64),
            Err(e) => Err(e),
        }
    }
}

/// A run never exceeds the sequence it is taken from.
pub proof fn lemma_digit_run_bound(s: Seq<u8>, radix: int)
    ensures
        digit_run(s, radix) <= s.len(),
    decreases s.len(),
{
    if s.len() > 0 && is_digit(s[0], radix) {
        lemma_digit_run_bound(s.drop_first(), radix);
    }
}

/// A prefix of digits is part of the run.
pub proof fn lemma_digit_run_at_least(s: Seq<u8>, radix: int, k: int)
    requires
        0 <= k <= s.len(),
        forall|i: int| 0 <= i < k ==> is_digit(#[trigger] s[i], radix),
    ensures
        digit_run(s, radix) >= k,
    decreases k,
{
    if k > 0 {
        let rest = s.drop_first();
        assert forall|i: int| 0 <= i < k - 1 implies is_digit(#[trigger] rest[i], radix) by {
            assert(rest[i] == s[i + 1]);
        }
        lemma_digit_run_at_least(rest, radix, k - 1);
    }
}

/// The run ends at the first character that is no digit, or at the end.
pub proof fn lemma_digit_run_exact(s: Seq<u8>, radix: int, k: int)
    requires
        0 <= k <= s.len(),
        forall|i: int| 0 <= i < k ==> is_digit(#[trigger] s[i], radix),
        k == s.len() || !is_digit(s[k], radix),
    ensures
        digit_run(s, radix) == k,
    decreases k,
{
    if k > 0 {
        let rest = s.drop_first();
        assert forall|i: int| 0 <= i < k - 1 implies is_digit(#[trigger] rest[i], radix) by {
            assert(rest[i] == s[i + 1]);
        }
        if k < s.len() {
            assert(rest[k - 1] == s[k]);
        }
        lemma_digit_run_exact(rest, radix, k - 1);
    }
}

/// Appending a digit multiplies by the radix and adds the digit.
pub proof fn lemma_magnitude_push(s: Seq<u8>, c: u8, radix: int)
    ensures
        magnitude(s.push(c), radix) == magnitude(s, radix) * radix + digit_of(c),
{
    assert(s.push(c).drop_last() =~= s);
}

/// No digit sequence denotes a negative number.
pub proof fn lemma_magnitude_nonnegative(s: Seq<u8>, radix: int)
    requires
        radix >= 1,
    ensures
        magnitude(s, radix) >= 0,
    decreases s.len(),
{
    if s.len() > 0 {
        lemma_magnitude_nonnegative(s.drop_last(), radix);
        assert(magnitude(s.drop_last(), radix) * radix >= 0) by (nonlinear_arith)
            requires
                magnitude(s.drop_last(), radix) >= 0,
                radix >= 1,
        ;
    }
}

/// A longer prefix denotes at least as much as a shorter one.
pub proof fn lemma_magnitude_monotone(s: Seq<u8>, radix: int, j: int, k: int)
    requires
        radix >= 1,
        0 <= j <= k <= s.len(),
    ensures
        magnitude(s.take(j), radix) <= magnitude(s.take(k), radix),
    decreases k - j,
{
    if j < k {
        lemma_magnitude_monotone(s, radix, j, k - 1);
        let shorter = s.take(k - 1);
        assert(s.take(k) =~= shorter.push(s[k - 1]));
        lemma_magnitude_push(shorter, s[k - 1], radix);
        lemma_magnitude_nonnegative(shorter, radix);
        assert(magnitude(shorter, radix) * radix >= magnitude(shorter, radix))
            by (nonlinear_arith)
            requires
                magnitude(shorter, radix) >= 0,
                radix >= 1,
        ;
    }
}

/// The digit that the byte `c` stands for, if it is one of the radix.
fn digit(c: u8, radix: u64) -> (r: Option<u64>)
    requires
        2 <= radix <= 36,
    ensures
        r == if is_digit(c, radix as int) {
            Some(digit_of(c) as u64)
        } else {
            None
        },
{
    let value: u64 = if ZERO <= c && c <= NINE {
        (c - ZERO) as u64
    } else if LOWER_A <= c && c <= LOWER_Z {
        (c - LOWER_A) as u64 + 10
    } else if UPPER_A <= c && c <= UPPER_Z {
        (c - UPPER_A) as u64 + 10
    } else {
        36
    };
    if value < radix {
        Some(value)
    } else {
        None
    }
}

/// Reads the bytes from `start` on as digits, up to `limit`.
fn read_magnitude(
    bytes: &[u8],
    start: usize,
    radix: u64,
    limit: u64,
    overflow: ParseFailure,
) -> (r: Result<u64, ParseFailure>)
    requires
        start <= bytes@.len(),
        2 <= radix <= 36,
    ensures
        match parse_magnitude(bytes@.skip(start as int), radix as int, limit as int, overflow) {
            Ok(m) => r == Ok::<u64, ParseFailure>(m as u64) && 0 <= m <= limit,
            Err(e) => r == Err::<u64, ParseFailure>(e),
        },
{
    let ghost digits = bytes@.skip(start as int);
    let mut acc: u64 = 0;
    let mut i: usize = start;
    while i < bytes.len()
        invariant
            start <= i <= bytes@.len(),
            2 <= radix <= 36,
            digits == bytes@.skip(start as int),
            forall|j: int| 0 <= j < i - start ==> is_digit(#[trigger] digits[j], radix as int),
            acc == magnitude(digits.take(i - start), radix as int),
            acc <= limit,
        decreases bytes@.len() - i,
    {
        let ghost seen = digits.take(i - start);
        let ghost next = digits.take(i - start + 1);
        proof {
            assert(digits[i - start] == bytes@[i as int]);
            assert(next =~= seen.push(bytes@[i as int]));
            lemma_magnitude_push(seen, bytes@[i as int], radix as int);
            lemma_digit_run_bound(digits, radix as int);
        }
        let d = match digit(bytes[i], radix) {
            Some(d) => d,
            None => {
                proof {
                    lemma_digit_run_exact(digits, radix as int, i - start);
                }
                return Err(ParseFailure::InvalidDigit);
            },
        };
        let grown = match acc.checked_mul(radix) {
            Some(scaled) => match scaled.checked_add(d) {
                Some(sum) => if sum <= limit {
                    Some(sum)
                } else {
                    None
                },
                None => None,
            },
            None => None,
        };
        match grown {
            Some(sum) => {
                acc = sum;
            },
            None => {
                proof {
                    let run = digit_run(digits, radix as int) as int;
                    lemma_digit_run_at_least(digits, radix as int, i - start + 1);
                    lemma_magnitude_monotone(digits, radix as int, i - start + 1, run);
                }
                return Err(overflow);
            },
        }
        i += 1;
    }
    proof {
        lemma_digit_run_exact(digits, radix as int, i - start);
        assert(digits.take(i - start) =~= digits);
    }
    Ok(acc)
}

/// Reads an unsigned literal of the given radix.
fn read_unsigned(bytes: &[u8], start: usize, radix: u64) -> (r: Result<u64, ParseFailure>)
    requires
        start <= bytes@.len(),
        2 <= radix <= 36,
    ensures
        match parse_unsigned(bytes@.skip(start as int), radix as int) {
            Ok(m) => r == Ok::<u64, ParseFailure>(m as u64) && 0 <= m <= u64::MAX,
            Err(e) => r == Err::<u64, ParseFailure>(e),
        },
{
    let ghost text = bytes@.skip(start as int);
    let len = bytes.len() - start;
    if len == 0 {
        return Err(ParseFailure::Empty);
    }
    let first = bytes[start];
    assert(text[0] == first);
    if len == 1 && (first == PLUS || first == MINUS) {
        return Err(ParseFailure::InvalidDigit);
    }
    if first == PLUS {
        assert(text.drop_first() =~= bytes@.skip(start + 1));
        read_magnitude(bytes, start + 1, radix, u64::MAX, ParseFailure::PosOverflow)
    } else {
        read_magnitude(bytes, start, radix, u64::MAX, ParseFailure::PosOverflow)
    }
}

/// Reads a signed decimal literal.
fn read_decimal(bytes: &[u8]) -> (r: Result<i64, ParseFailure>)
    ensures
        match parse_decimal(bytes@) {
            Ok(v) => r == Ok::<i64, ParseFailure>(v as i64) && i64::MIN <= v <= i64::MAX,
            Err(e) => r == Err::<i64, ParseFailure>(e),
        },
{
    assert(bytes@.skip(0) =~= bytes@);
    if bytes.len() == 0 {
        return Err(ParseFailure::Empty);
    }
    let first = bytes[0];
    if bytes.len() == 1 && (first == PLUS || first == MINUS) {
        return Err(ParseFailure::InvalidDigit);
    }
    assert(bytes@.drop_first() =~= bytes@.skip(1));
    if first == MINUS {
        match read_magnitude(bytes, 1, 10, 0x8000_0000_0000_0000, ParseFailure::NegOverflow) {
            Ok(m) => if m == 0x8000_0000_0000_0000 {
                Ok(i64::MIN)
            } else {
                Ok(-(m as i64))
            },
            Err(e) => Err(e),
        }
    } else {
        let start: usize = if first == PLUS {
            1
        } else {
            0
        };
        match read_magnitude(bytes, start, 10, 0x7fff_ffff_ffff_ffff, ParseFailure::PosOverflow) {
            Ok(m) => Ok(m as i64),
            Err(e) => Err(e),
        }
    }
}

/// The radix that the prefix letter `c` selects.
fn radix_of(c: u8) -> (r: Option<u64>)
    ensures
        match prefix_radix(c) {
            Some(radix) => r == Some(radix as u64) && 2 <= radix <= 16,
            None => r is None,
        },
{
    if c == LOWER_B || c == UPPER_B {
        Some(2)
    } else if c == LOWER_O || c == UPPER_O {
        Some(8)
    } else if c == LOWER_X || c == UPPER_X {
        Some(16)
    } else {
        None
    }
}

/// Parses the bytes of a numeric string.
pub fn bytes_to_i64(bytes: &[u8]) -> (r: Result<i64, ParseFailure>)
    ensures
        r == parse_text(bytes@),
{
    if bytes.len() > 2 && bytes[0] == ZERO {
        match radix_of(bytes[1]) {
            Some(radix) => {
                return match read_unsigned(bytes, 2, radix) {
                    Ok(m) => Ok(to_signed(m)),
                    Err(e) => Err(e),
                };
            },
            None => {},
        }
    }
    read_decimal(bytes)
}

/// Parses a numeric string: `0b`, `0o` and `0x` literals as 64-bit patterns,
/// everything else as signed decimal.
pub fn string_to_i64(s: &str) -> (r: Result<i64, ParseFailure>)
    ensures
        r == parse_text(s.spec_bytes()),
{
    bytes_to_i64(s.as_bytes())
}

} // verus!
