//! What is written can be read: the parser is a left inverse of the
//! notations that its grammar covers.
use crate::arith::unsigned;
use crate::error::ParseFailure;
use crate::parse::{
    digit_of, is_digit, lemma_digit_run_exact, lemma_magnitude_push, magnitude, parse_magnitude,
    parse_text, prefix_radix,
};
use crate::render::{
    binary_text, decimal_text, digit_char, digits, hex_text, octal_text, padded, zeros,
};
use vstd::arithmetic::div_mod::{
    lemma_div_decreases, lemma_fundamental_div_mod, lemma_mod_bound, lemma_multiply_divide_lt,
};
use vstd::arithmetic::power::{lemma_pow1, lemma_pow_adds, lemma_pow_positive, pow};
use vstd::prelude::*;
use vstd::utf8::{encode_utf8, is_ascii_chars, is_ascii_chars_encode_utf8};

verus! {

/// The bytes of a text of ASCII characters.
pub open spec fn ascii_bytes(text: Seq<char>) -> Seq<u8> {
    Seq::new(text.len(), |i: int| text[i] as u8)
}

/// The character of a digit reads back as that digit.
pub proof fn lemma_digit_char_reads_back(d: int, upper: bool)
    requires
        0 <= d < 36,
    ensures
        '\0' <= digit_char(d, upper) <= '\u{7f}',
        digit_of(digit_char(d, upper) as u8) == d,
{
}

/// The digits of a number are digits of the radix, and they denote the
/// number.
pub proof fn lemma_digits_denote(n: nat, radix: nat, upper: bool)
    requires
        2 <= radix <= 36,
    ensures
        is_ascii_chars(digits(n, radix, upper)),
        digits(n, radix, upper).len() >= 1,
        forall|i: int|
            0 <= i < digits(n, radix, upper).len() ==> is_digit(
                #[trigger] ascii_bytes(digits(n, radix, upper))[i],
                radix as int,
            ),
        magnitude(ascii_bytes(digits(n, radix, upper)), radix as int) == n,
    decreases n,
{
    let text = digits(n, radix, upper);
    let bytes = ascii_bytes(text);
    if n < radix {
        lemma_digit_char_reads_back(n as int, upper);
        assert(bytes.drop_last() =~= Seq::<u8>::empty());
        assert(magnitude(bytes.drop_last(), radix as int) == 0);
        assert(bytes.last() == digit_char(n as int, upper) as u8);
    } else {
        let high = digits(n / radix, radix, upper);
        let low = digit_char((n % radix) as int, upper);
        lemma_div_decreases(n as int, radix as int);
        lemma_mod_bound(n as int, radix as int);
        lemma_digits_denote(n / radix, radix, upper);
        lemma_digit_char_reads_back((n % radix) as int, upper);
        assert(text == high.push(low));
        assert(bytes =~= ascii_bytes(high).push(low as u8));
        lemma_magnitude_push(ascii_bytes(high), low as u8, radix as int);
        lemma_fundamental_div_mod(n as int, radix as int);
        assert((n / radix) * radix == radix * (n / radix)) by (nonlinear_arith);
        assert forall|i: int| 0 <= i < text.len() implies is_digit(
            #[trigger] bytes[i],
            radix as int,
        ) by {
            if i < high.len() {
                assert(bytes[i] == ascii_bytes(high)[i]);
            }
        }
    }
}

/// Text made of the digits of a number reads back as that number.
pub proof fn lemma_digits_read_back(
    n: nat,
    radix: nat,
    upper: bool,
    limit: int,
    overflow: ParseFailure,
)
    requires
        2 <= radix <= 36,
        n <= limit,
    ensures
        parse_magnitude(ascii_bytes(digits(n, radix, upper)), radix as int, limit, overflow)
            == Ok::<int, ParseFailure>(n as int),
{
    let bytes = ascii_bytes(digits(n, radix, upper));
    lemma_digits_denote(n, radix, upper);
    lemma_digit_run_exact(bytes, radix as int, bytes.len() as int);
    assert(bytes.take(bytes.len() as int) =~= bytes);
}

/// Parsing the decimal notation of an integer gives the integer back: for
/// every `x`, the text that `to_decimal` writes for `x` is read as `x`.
pub proof fn law_decimal_round_trip(x: i64)
    ensures
        parse_text(encode_utf8(decimal_text(x))) == Ok::<i64, ParseFailure>(x),
{
    let text = decimal_text(x);
    let n: nat = if x < 0 {
        (-x) as nat
    } else {
        x as nat
    };
    let figures = digits(n, 10, false);
    lemma_digits_denote(n, 10, false);
    assert(is_ascii_chars(text));
    is_ascii_chars_encode_utf8(text);
    let bytes = encode_utf8(text);
    assert(bytes =~= ascii_bytes(text));
    if x < 0 {
        assert(bytes.drop_first() =~= ascii_bytes(figures));
        assert(bytes[0] == 45);
        lemma_digits_read_back(n, 10, false, -(i64::MIN as int), ParseFailure::NegOverflow);
    } else {
        assert(bytes =~= ascii_bytes(figures));
        assert(is_digit(bytes[0], 10));
        if bytes.len() > 1 {
            assert(is_digit(bytes[1], 10));
        }
        lemma_digits_read_back(n, 10, false, i64::MAX as int, ParseFailure::PosOverflow);
    }
}

/// Zeros in front of a run of digits do not change what it denotes.
pub proof fn lemma_leading_zeros(count: nat, tail: Seq<u8>, radix: int)
    requires
        radix >= 2,
    ensures
        magnitude(ascii_bytes(zeros(count)) + tail, radix) == magnitude(tail, radix),
    decreases tail.len(), count,
{
    let front = ascii_bytes(zeros(count));
    let whole = front + tail;
    if tail.len() > 0 {
        lemma_leading_zeros(count, tail.drop_last(), radix);
        assert(whole.drop_last() =~= front + tail.drop_last());
    } else if count > 0 {
        lemma_leading_zeros((count - 1) as nat, tail, radix);
        assert(whole.drop_last() =~= ascii_bytes(zeros((count - 1) as nat)) + tail);
        assert(whole.last() == 48u8);
    } else {
        assert(whole =~= Seq::<u8>::empty());
    }
}

/// A number below `radix^width` has at most `width` digits.
pub proof fn lemma_digits_fit(n: nat, radix: nat, upper: bool, width: nat)
    requires
        2 <= radix <= 36,
        width >= 1,
        n < pow(radix as int, width),
    ensures
        digits(n, radix, upper).len() <= width,
    decreases n,
{
    if n >= radix {
        let rest = (width - 1) as nat;
        lemma_pow_adds(radix as int, 1, rest);
        lemma_pow1(radix as int);
        lemma_pow_positive(radix as int, rest);
        if width == 1 {
            vstd::arithmetic::power::lemma_pow0(radix as int);
        }
        lemma_div_decreases(n as int, radix as int);
        lemma_multiply_divide_lt(n as int, radix as int, pow(radix as int, rest));
        lemma_digits_fit(n / radix, radix, upper, rest);
    }
}

/// A fixed form reads back as the pattern it was written for: the marker
/// selects the radix, the zeros in front add nothing, and the digits denote
/// the unsigned pattern.
pub proof fn lemma_fixed_form_reads_back(x: i64, radix: nat, upper: bool, marker: char, width: nat)
    requires
        2 <= radix <= 36,
        '\0' <= marker <= '\u{7f}',
        prefix_radix(marker as u8) == Some(radix as int),
    ensures
        parse_text(
            encode_utf8(
                seq!['0', marker] + padded(digits(unsigned(x) as nat, radix, upper), width),
            ),
        ) == Ok::<i64, ParseFailure>(x),
{
    let n = unsigned(x) as nat;
    let plain = digits(n, radix, upper);
    let body = padded(plain, width);
    let text = seq!['0', marker] + body;
    let fill: nat = if plain.len() < width {
        (width - plain.len()) as nat
    } else {
        0
    };
    lemma_digits_denote(n, radix, upper);
    assert(body =~= zeros(fill) + plain);
    assert(is_ascii_chars(text));
    is_ascii_chars_encode_utf8(text);
    let bytes = encode_utf8(text);
    assert(bytes =~= ascii_bytes(text));
    let figures = bytes.skip(2);
    assert(figures =~= ascii_bytes(zeros(fill)) + ascii_bytes(plain));
    lemma_leading_zeros(fill, ascii_bytes(plain), radix as int);
    assert forall|i: int| 0 <= i < figures.len() implies is_digit(
        #[trigger] figures[i],
        radix as int,
    ) by {
        if i >= fill {
            assert(figures[i] == ascii_bytes(plain)[i - fill]);
        }
    }
    lemma_digit_run_exact(figures, radix as int, figures.len() as int);
    assert(figures.take(figures.len() as int) =~= figures);
    assert(is_digit(figures[0], radix as int));
}

/// Parsing a fixed form gives the integer back: for every `x`, the texts
/// that `to_binary`, `to_octal` and `to_hex` write with the format flag set
/// are read as `x`, in small and in capital letters.
pub proof fn law_fixed_forms_round_trip(x: i64)
    ensures
        parse_text(encode_utf8(binary_text(x, true))) == Ok::<i64, ParseFailure>(x),
        parse_text(encode_utf8(octal_text(x, true))) == Ok::<i64, ParseFailure>(x),
        parse_text(encode_utf8(hex_text(x, true, false))) == Ok::<i64, ParseFailure>(x),
        parse_text(encode_utf8(hex_text(x, true, true))) == Ok::<i64, ParseFailure>(x),
{
    lemma_fixed_form_reads_back(x, 2, false, 'b', 64);
    lemma_fixed_form_reads_back(x, 8, false, 'o', 22);
    lemma_fixed_form_reads_back(x, 16, false, 'x', 16);
    lemma_fixed_form_reads_back(x, 16, true, 'X', 16);
}

/// The fixed forms have a fixed length: the marker and 64, 22 or 16 digits.
pub proof fn law_fixed_forms_length(x: i64, upper: bool)
    ensures
        binary_text(x, true).len() == 66,
        octal_text(x, true).len() == 24,
        hex_text(x, true, upper).len() == 18,
{
    let n = unsigned(x) as nat;
    assert(pow(2, 64) == 0x1_0000_0000_0000_0000) by {
        vstd::arithmetic::power2::lemma2_to64_rest();
        vstd::arithmetic::power2::lemma_pow2(64);
    }
    assert(pow(16, 16) == 0x1_0000_0000_0000_0000) by {
        reveal_with_fuel(pow, 17);
    }
    assert(pow(8, 22) > 0x1_0000_0000_0000_0000) by {
        reveal_with_fuel(pow, 23);
    }
    lemma_digits_fit(n, 2, false, 64);
    lemma_digits_fit(n, 8, false, 22);
    lemma_digits_fit(n, 16, upper, 16);
}

} // verus!
