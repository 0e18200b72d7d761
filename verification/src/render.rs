//! Integer to text: positional notation in radix 2, 8, 10 and 16.
use crate::arith::{to_unsigned, unsigned};
use vstd::arithmetic::div_mod::{lemma_div_decreases, lemma_small_mod};
use vstd::prelude::*;

verus! {

/// `String::push` of the standard library, taken on trust: it appends the
/// character to the end of the string and leaves what was there untouched.
pub assume_specification[ String::push ](s: &mut String, c: char)
    ensures
        final(s)@ == old(s)@.push(c),
;

/// The character that stands for the digit `d`, with letters from ten on.
pub open spec fn digit_char(d: int, upper: bool) -> char {
    if d < 10 {
        ('0' as int + d) as char
    } else if upper {
        ('A' as int + d - 10) as char
    } else {
        ('a' as int + d - 10) as char
    }
}

/// The digits of `n` in the given radix, most significant first, without
/// leading zeros; zero is the single digit `0`.
pub open spec fn digits(n: nat, radix: nat, upper: bool) -> Seq<char>
    decreases n,
    when radix >= 2
    via digits_decreases
{
    if n < radix {
        seq![digit_char(n as int, upper)]
    } else {
        digits(n / radix, radix, upper).push(digit_char((n % radix) as int, upper))
    }
}

/// Dividing by a radix of two or more makes a number at least as large as
/// the radix smaller.
#[via_fn]
proof fn digits_decreases(n: nat, radix: nat, upper: bool) {
    if n >= radix {
        lemma_div_decreases(n as int, radix as int);
    }
}

/// `count` zeros.
pub open spec fn zeros(count: nat) -> Seq<char> {
    Seq::new(count, |i: int| '0')
}

/// `text` with zeros in front, as many as it lacks to `width` characters.
pub open spec fn padded(text: Seq<char>, width: nat) -> Seq<char> {
    if text.len() < width {
        zeros((width - text.len()) as nat) + text
    } else {
        text
    }
}

/// The decimal notation of `v`: a minus sign where `v` is negative, then the
/// digits of its magnitude.
pub open spec fn decimal_text(v: i64) -> Seq<char> {
    if v < 0 {
        seq!['-'] + digits((-v) as nat, 10, false)
    } else {
        digits(v as nat, 10, false)
    }
}

/// The binary notation of the pattern of `v`; in the fixed form `0b` and 64
/// digits.
pub open spec fn binary_text(v: i64, fixed: bool) -> Seq<char> {
    let plain = digits(unsigned(v) as nat, 2, false);
    if fixed {
        seq!['0', 'b'] + padded(plain, 64)
    } else {
        plain
    }
}

/// The octal notation of the pattern of `v`; in the fixed form `0o` and 22
/// digits.
pub open spec fn octal_text(v: i64, fixed: bool) -> Seq<char> {
    let plain = digits(unsigned(v) as nat, 8, false);
    if fixed {
        seq!['0', 'o'] + padded(plain, 22)
    } else {
        plain
    }
}

/// The hexadecimal notation of the pattern of `v`, with capital letters where
/// `upper` is set; in the fixed form `0x`, or `0X` with capital letters, and
/// 16 digits.
pub open spec fn hex_text(v: i64, fixed: bool, upper: bool) -> Seq<char> {
    let plain = digits(unsigned(v) as nat, 16, upper);
    if fixed {
        seq!['0', if upper { 'X' } else { 'x' }] + padded(plain, 16)
    } else {
        plain
    }
}

/// The character for one digit.
fn digit_to_char(d: u64, upper: bool) -> (c: char)
    requires
        d < 36,
    ensures
        c == digit_char(d as int, upper),
{
    let code: u8 = if d < 10 {
        48 + d as u8
    } else if upper {
        65 + (d - 10) as u8
    } else {
        97 + (d - 10) as u8
    };
    code as char
}

/// Appends the digits of `n` to `out`.
fn push_digits(out: &mut String, n: u64, radix: u64, upper: bool)
    requires
        2 <= radix <= 36,
    ensures
        final(out)@ == old(out)@ + digits(n as nat, radix as nat, upper),
    decreases n,
{
    let ghost low = digit_char((n % radix) as int, upper);
    if n >= radix {
        proof {
            lemma_div_decreases(n as int, radix as int);
        }
        push_digits(out, n / radix, radix, upper);
    }
    out.push(digit_to_char(n % radix, upper));
    proof {
        if n >= radix {
            let high = digits((n / radix) as nat, radix as nat, upper);
            assert(digits(n as nat, radix as nat, upper) == high.push(low));
            assert((old(out)@ + high).push(low) =~= old(out)@ + high.push(low));
        } else {
            lemma_small_mod(n as nat, radix as nat);
            assert(old(out)@.push(low) =~= old(out)@ + seq![low]);
        }
    }
}

/// The number of digits of `n`.
fn count_digits(n: u64, radix: u64) -> (r: u64)
    requires
        2 <= radix <= 36,
    ensures
        forall|upper: bool| r == #[trigger] digits(n as nat, radix as nat, upper).len(),
{
    let mut rest: u64 = n;
    let mut count: u64 = 1;
    while rest >= radix
        invariant
            2 <= radix <= 36,
            count + rest <= n + 1,
            forall|upper: bool|
                #[trigger] digits(n as nat, radix as nat, upper).len() == count - 1 + digits(
                    rest as nat,
                    radix as nat,
                    upper,
                ).len(),
        decreases rest,
    {
        proof {
            lemma_div_decreases(rest as int, radix as int);
            assert forall|upper: bool|
                #[trigger] digits(rest as nat, radix as nat, upper).len() == 1 + digits(
                    (rest / radix) as nat,
                    radix as nat,
                    upper,
                ).len() by {
                assert(digits(rest as nat, radix as nat, upper) == digits(
                    (rest / radix) as nat,
                    radix as nat,
                    upper,
                ).push(digit_char((rest % radix) as int, upper)));
            }
        }
        rest = rest / radix;
        count += 1;
    }
    count
}

/// Appends zeros to `out`.
fn push_zeros(out: &mut String, count: u64)
    ensures
        final(out)@ == old(out)@ + zeros(count as nat),
{
    let mut i: u64 = 0;
    assert(out@ + zeros(0) =~= out@);
    while i < count
        invariant
            i <= count,
            out@ == old(out)@ + zeros(i as nat),
        decreases count - i,
    {
        out.push('0');
        i += 1;
        assert((old(out)@ + zeros((i - 1) as nat)).push('0') =~= old(out)@ + zeros(i as nat));
    }
}

/// Appends the digits of `n` to `out`, with zeros in front up to `width`.
fn push_padded(out: &mut String, n: u64, radix: u64, upper: bool, width: u64)
    requires
        2 <= radix <= 36,
    ensures
        final(out)@ == old(out)@ + padded(digits(n as nat, radix as nat, upper), width as nat),
{
    let len = count_digits(n, radix);
    if len < width {
        push_zeros(out, width - len);
    }
    push_digits(out, n, radix, upper);
    proof {
        let d = digits(n as nat, radix as nat, upper);
        if len < width {
            let z = zeros((width - len) as nat);
            assert((old(out)@ + z) + d =~= old(out)@ + (z + d));
        }
    }
}

/// Writes `v` in decimal.
pub fn to_decimal(v: i64) -> (r: String)
    ensures
        r@ == decimal_text(v),
{
    let mut out = String::new();
    if v < 0 {
        out.push('-');
        let magnitude: u64 = if v == i64::MIN {
            0x8000_0000_0000_0000
        } else {
            (-v) as u64
        };
        push_digits(&mut out, magnitude, 10, false);
        assert(Seq::<char>::empty().push('-') =~= seq!['-']);
    } else {
        push_digits(&mut out, v as u64, 10, false);
        assert(Seq::<char>::empty() + decimal_text(v) =~= decimal_text(v));
    }
    out
}

/// Writes the pattern of `v` in binary.
pub fn to_binary(v: i64, fixed: bool) -> (r: String)
    ensures
        r@ == binary_text(v, fixed),
{
    let mut out = String::new();
    let n = to_unsigned(v);
    if fixed {
        out.push('0');
        out.push('b');
        push_padded(&mut out, n, 2, false, 64);
        assert(Seq::<char>::empty().push('0').push('b') =~= seq!['0', 'b']);
    } else {
        push_digits(&mut out, n, 2, false);
        assert(Seq::<char>::empty() + binary_text(v, fixed) =~= binary_text(v, fixed));
    }
    out
}

/// Writes the pattern of `v` in octal.
pub fn to_octal(v: i64, fixed: bool) -> (r: String)
    ensures
        r@ == octal_text(v, fixed),
{
    let mut out = String::new();
    let n = to_unsigned(v);
    if fixed {
        out.push('0');
        out.push('o');
        push_padded(&mut out, n, 8, false, 22);
        assert(Seq::<char>::empty().push('0').push('o') =~= seq!['0', 'o']);
    } else {
        push_digits(&mut out, n, 8, false);
        assert(Seq::<char>::empty() + octal_text(v, fixed) =~= octal_text(v, fixed));
    }
    out
}

/// Writes the pattern of `v` in hexadecimal.
pub fn to_hex(v: i64, fixed: bool, upper: bool) -> (r: String)
    ensures
        r@ == hex_text(v, fixed, upper),
{
    let mut out = String::new();
    let n = to_unsigned(v);
    if fixed {
        out.push('0');
        let marker = if upper {
            'X'
        } else {
            'x'
        };
        out.push(marker);
        push_padded(&mut out, n, 16, upper, 16);
        assert(Seq::<char>::empty().push('0').push(marker) =~= seq!['0', marker]);
    } else {
        push_digits(&mut out, n, 16, upper);
        assert(Seq::<char>::empty() + hex_text(v, fixed, upper) =~= hex_text(v, fixed, upper));
    }
    out
}

} // verus!
