use int64::{string_to_i64, ParseFailure};

#[test]
fn hexadecimal_literal() {
    assert_eq!(string_to_i64("0x1F"), Ok(31));
    assert_eq!(string_to_i64("0x1f"), Ok(31));
    assert_eq!(string_to_i64("0X1F"), Ok(31));
}

#[test]
fn binary_literal() {
    assert_eq!(string_to_i64("0b101"), Ok(5));
    assert_eq!(string_to_i64("0B101"), Ok(5));
}

#[test]
fn octal_literal() {
    assert_eq!(string_to_i64("0o17"), Ok(15));
    assert_eq!(string_to_i64("0O17"), Ok(15));
}

#[test]
fn negative_decimal() {
    assert_eq!(string_to_i64("-42"), Ok(-42));
}

#[test]
fn plain_decimal() {
    assert_eq!(string_to_i64("0"), Ok(0));
    assert_eq!(string_to_i64("42"), Ok(42));
    assert_eq!(string_to_i64("+42"), Ok(42));
    assert_eq!(string_to_i64("007"), Ok(7));
}

#[test]
fn all_ones_is_minus_one() {
    assert_eq!(string_to_i64("0xFFFFFFFFFFFFFFFF"), Ok(-1));
    assert_eq!(
        string_to_i64("0b1111111111111111111111111111111111111111111111111111111111111111"),
        Ok(-1)
    );
    assert_eq!(string_to_i64("0o1777777777777777777777"), Ok(-1));
}

#[test]
fn high_bit_is_the_smallest_value() {
    assert_eq!(string_to_i64("0x8000000000000000"), Ok(i64::MIN));
    assert_eq!(string_to_i64("0x7FFFFFFFFFFFFFFF"), Ok(i64::MAX));
}

#[test]
fn decimal_bounds() {
    assert_eq!(string_to_i64("9223372036854775807"), Ok(i64::MAX));
    assert_eq!(string_to_i64("-9223372036854775808"), Ok(i64::MIN));
    assert_eq!(string_to_i64("9223372036854775808"), Err(ParseFailure::PosOverflow));
    assert_eq!(string_to_i64("-9223372036854775809"), Err(ParseFailure::NegOverflow));
}

#[test]
fn prefixed_literal_of_more_than_64_bits() {
    assert_eq!(string_to_i64("0x10000000000000000"), Err(ParseFailure::PosOverflow));
    assert_eq!(string_to_i64("0o2000000000000000000000"), Err(ParseFailure::PosOverflow));
}

#[test]
fn leading_zeros_do_not_overflow() {
    assert_eq!(string_to_i64("0x00000000000000000000001F"), Ok(31));
    assert_eq!(string_to_i64("000000000000000000000000000009"), Ok(9));
}

#[test]
fn empty_text() {
    assert_eq!(string_to_i64(""), Err(ParseFailure::Empty));
}

#[test]
fn lone_sign() {
    assert_eq!(string_to_i64("-"), Err(ParseFailure::InvalidDigit));
    assert_eq!(string_to_i64("+"), Err(ParseFailure::InvalidDigit));
}

#[test]
fn short_strings_are_decimal() {
    assert_eq!(string_to_i64("0x"), Err(ParseFailure::InvalidDigit));
    assert_eq!(string_to_i64("0b"), Err(ParseFailure::InvalidDigit));
    assert_eq!(string_to_i64("0o"), Err(ParseFailure::InvalidDigit));
    assert_eq!(string_to_i64("0"), Ok(0));
    assert_eq!(string_to_i64("07"), Ok(7));
}

#[test]
fn other_second_characters_are_decimal() {
    assert_eq!(string_to_i64("0123"), Ok(123));
    assert_eq!(string_to_i64("0a1"), Err(ParseFailure::InvalidDigit));
    assert_eq!(string_to_i64("0é"), Err(ParseFailure::InvalidDigit));
}

#[test]
fn digits_outside_the_radix() {
    assert_eq!(string_to_i64("0b102"), Err(ParseFailure::InvalidDigit));
    assert_eq!(string_to_i64("0o18"), Err(ParseFailure::InvalidDigit));
    assert_eq!(string_to_i64("0x1G"), Err(ParseFailure::InvalidDigit));
    assert_eq!(string_to_i64("12a"), Err(ParseFailure::InvalidDigit));
    assert_eq!(string_to_i64(" 12"), Err(ParseFailure::InvalidDigit));
    assert_eq!(string_to_i64("1 2"), Err(ParseFailure::InvalidDigit));
}

#[test]
fn prefixed_literals_are_unsigned() {
    assert_eq!(string_to_i64("0x-1"), Err(ParseFailure::InvalidDigit));
    assert_eq!(string_to_i64("-0x1"), Err(ParseFailure::InvalidDigit));
    assert_eq!(string_to_i64("0x+1F"), Ok(31));
    assert_eq!(string_to_i64("0x+"), Err(ParseFailure::InvalidDigit));
}

#[test]
fn overflow_is_found_before_a_later_bad_character() {
    assert_eq!(string_to_i64("99999999999999999999x"), Err(ParseFailure::PosOverflow));
    assert_eq!(string_to_i64("-99999999999999999999x"), Err(ParseFailure::NegOverflow));
    assert_eq!(string_to_i64("9x9999999999999999999"), Err(ParseFailure::InvalidDigit));
}

#[test]
fn agrees_with_the_standard_parser_on_decimal() {
    let samples = [
        "", "-", "+", "0", "-0", "+0", "1", "-1", "12345", "-12345", "9223372036854775807",
        "9223372036854775808", "-9223372036854775808", "-9223372036854775809", "1e5", "1.5", "١٢",
        "--1", "+-1", "1-", "00", "99999999999999999999999",
    ];
    for text in samples {
        let expected = text.parse::<i64>().ok();
        assert_eq!(string_to_i64(text).ok(), expected, "{:?}", text);
    }
}

#[test]
fn parse_failure_messages() {
    assert_eq!(ParseFailure::Empty.message(), "cannot parse integer from empty string");
    assert_eq!(ParseFailure::InvalidDigit.message(), "invalid digit found in string");
    assert_eq!(ParseFailure::PosOverflow.message(), "number too large to fit in target type");
    assert_eq!(ParseFailure::NegOverflow.message(), "number too small to fit in target type");
}
