use int64::codec::{from_le_bytes, to_le_bytes};
use int64::{to_i64, ErrorKind, Int64, Int64Error, Operand, ParseFailure};

#[test]
fn coerces_an_instance_without_checks() {
    let x = Int64::new(Some(Operand::Number(i64::MIN))).unwrap();
    assert_eq!(to_i64(Operand::Instance(&x)), Ok(i64::MIN));
}

#[test]
fn coerces_a_number_as_it_is() {
    assert_eq!(to_i64(Operand::Number(-5)), Ok(-5));
    assert_eq!(to_i64(Operand::Number(i64::MAX)), Ok(i64::MAX));
}

#[test]
fn coerces_text_through_the_parser() {
    assert_eq!(to_i64(Operand::Text("0o17".to_string())), Ok(15));
    assert_eq!(
        to_i64(Operand::Text("9223372036854775808".to_string())),
        Err(Int64Error::Parse(ParseFailure::PosOverflow))
    );
    assert_eq!(
        to_i64(Operand::Text("-9223372036854775809".to_string())),
        Err(Int64Error::Parse(ParseFailure::NegOverflow))
    );
}

#[test]
fn coerces_a_buffer_of_eight_bytes() {
    assert_eq!(to_i64(Operand::Buffer(vec![0xfe, 0xff, 0xff, 0xff, 0xff, 0xff, 0xff, 0xff])), Ok(-2));
    assert_eq!(to_i64(Operand::Buffer(vec![0, 1, 0, 0, 0, 0, 0, 0])), Ok(256));
}

#[test]
fn buffer_of_seven_bytes_is_a_type_error() {
    let error = to_i64(Operand::Buffer(vec![0; 7])).unwrap_err();
    assert_eq!(error, Int64Error::BufferLength(7));
    assert_eq!(error.kind(), ErrorKind::Type);
    assert_eq!(error.message(), "the length of the input buffer is not 8");
}

#[test]
fn buffer_of_nine_bytes_is_a_type_error() {
    let error = to_i64(Operand::Buffer(vec![0; 9])).unwrap_err();
    assert_eq!(error, Int64Error::BufferLength(9));
    assert_eq!(error.kind(), ErrorKind::Type);
    assert_eq!(error.message(), "the length of the input buffer is not 8");
}

#[test]
fn empty_buffer_is_a_type_error() {
    assert_eq!(to_i64(Operand::Buffer(Vec::new())), Err(Int64Error::BufferLength(0)));
}

#[test]
fn codec_decodes_little_endian() {
    assert_eq!(from_le_bytes(&[1, 2, 3, 4, 5, 6, 7, 8]), Ok(0x0807_0605_0403_0201));
    assert_eq!(from_le_bytes(&[0, 0, 0, 0, 0, 0, 0, 0x80]), Ok(i64::MIN));
    assert_eq!(from_le_bytes(&[0xff; 8]), Ok(-1));
    assert_eq!(from_le_bytes(&[0xff; 6]), Err(Int64Error::BufferLength(6)));
}

#[test]
fn codec_agrees_with_the_standard_one() {
    for v in [0, 1, -1, 0x0123_4567_89ab_cdef, -0x0123_4567_89ab_cdef, i64::MAX, i64::MIN] {
        assert_eq!(to_le_bytes(v), v.to_le_bytes().to_vec());
        assert_eq!(from_le_bytes(&v.to_le_bytes()), Ok(v));
        assert_eq!(from_le_bytes(&to_le_bytes(v)), Ok(v));
    }
}

#[test]
fn kinds_of_failure() {
    assert_eq!(Int64Error::Parse(ParseFailure::Empty).kind(), ErrorKind::Type);
    assert_eq!(Int64Error::BufferLength(0).kind(), ErrorKind::Type);
    assert_eq!(Int64Error::AboveSafeRange(i64::MAX).kind(), ErrorKind::Range);
    assert_eq!(Int64Error::BelowSafeRange(i64::MIN).kind(), ErrorKind::Range);
    assert_eq!(Int64Error::NegativeExponent.kind(), ErrorKind::Range);
    assert_eq!(Int64Error::ExponentTooLarge.kind(), ErrorKind::Range);
    assert_eq!(Int64Error::NegativeShift.kind(), ErrorKind::Range);
    assert_eq!(Int64Error::ShiftTooLarge.kind(), ErrorKind::Range);
    assert_eq!(Int64Error::NegativeRotation.kind(), ErrorKind::Range);
    assert_eq!(Int64Error::RotationTooLarge.kind(), ErrorKind::Range);
    assert_eq!(Int64Error::DivisionByZero.kind(), ErrorKind::Range);
}

#[test]
fn messages_name_value_and_bound() {
    assert_eq!(
        Int64Error::AboveSafeRange(9007199254740992).message(),
        "9007199254740992 is bigger than 9007199254740991"
    );
    assert_eq!(
        Int64Error::BelowSafeRange(i64::MIN).message(),
        "-9223372036854775808 is smaller than -9007199254740991"
    );
    assert_eq!(
        Int64Error::NegativeExponent.message(),
        "the exponent of an integer number must not be smaller than zero"
    );
    assert_eq!(
        Int64Error::ExponentTooLarge.message(),
        "the exponent of an integer number must not be bigger than 4294967295"
    );
    assert_eq!(
        Int64Error::NegativeShift.message(),
        "the bit count for shift must not be smaller than zero"
    );
    assert_eq!(
        Int64Error::ShiftTooLarge.message(),
        "the bit count for shift must not be bigger than 4294967295"
    );
    assert_eq!(
        Int64Error::NegativeRotation.message(),
        "the bit count for rotation must not be smaller than zero"
    );
    assert_eq!(
        Int64Error::RotationTooLarge.message(),
        "the bit count for rotation must not be bigger than 4294967295"
    );
    assert_eq!(Int64Error::DivisionByZero.message(), "the divisor must not be zero");
    assert_eq!(
        Int64Error::Parse(ParseFailure::InvalidDigit).message(),
        "invalid digit found in string"
    );
}

#[test]
fn parse_messages_are_those_of_the_standard_parser() {
    let cases = [
        ("", ParseFailure::Empty),
        ("x", ParseFailure::InvalidDigit),
        ("9223372036854775808", ParseFailure::PosOverflow),
        ("-9223372036854775809", ParseFailure::NegOverflow),
    ];
    for (text, failure) in cases {
        let expected = text.parse::<i64>().unwrap_err().to_string();
        assert_eq!(failure.message(), expected);
        assert_eq!(int64::string_to_i64(text), Err(failure));
    }
}
