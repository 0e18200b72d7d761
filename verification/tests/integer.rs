use int64::{Comparison, Int64, Int64Error, Operand, ParseFailure};

fn make(v: i64) -> Int64 {
    Int64::new(Some(Operand::Number(v))).unwrap()
}

fn num(v: i64) -> Operand<'static> {
    Operand::Number(v)
}

fn text(s: &str) -> Operand<'static> {
    Operand::Text(s.to_string())
}

#[test]
fn new_defaults_to_zero() {
    assert_eq!(Int64::new(None).unwrap(), make(0));
    assert_eq!(Int64::new(None).unwrap().to_decimal(), "0");
}

#[test]
fn new_from_each_shape() {
    let seven = make(7);
    assert_eq!(Int64::new(Some(Operand::Instance(&seven))).unwrap(), make(7));
    assert_eq!(Int64::new(Some(num(-7))).unwrap().to_decimal(), "-7");
    assert_eq!(Int64::new(Some(text("0x10"))).unwrap(), make(16));
    assert_eq!(Int64::new(Some(Operand::Buffer(vec![2, 1, 0, 0, 0, 0, 0, 0]))).unwrap(), make(258));
}

#[test]
fn new_keeps_values_outside_the_safe_range() {
    assert_eq!(Int64::new(Some(num(i64::MAX))).unwrap().to_decimal(), "9223372036854775807");
    let big = make(i64::MIN);
    assert_eq!(
        Int64::new(Some(Operand::Instance(&big))).unwrap().to_decimal(),
        "-9223372036854775808"
    );
}

#[test]
fn new_reports_bad_input() {
    assert_eq!(
        Int64::new(Some(text("12x"))),
        Err(Int64Error::Parse(ParseFailure::InvalidDigit))
    );
    assert_eq!(Int64::new(Some(text(""))), Err(Int64Error::Parse(ParseFailure::Empty)));
    assert_eq!(
        Int64::new(Some(Operand::Buffer(vec![1, 2, 3]))),
        Err(Int64Error::BufferLength(3))
    );
}

#[test]
fn set_replaces_the_value() {
    let mut x = make(1);
    x.set(text("0b11")).unwrap();
    assert_eq!(x, make(3));
    let other = make(-9);
    x.set(Operand::Instance(&other)).unwrap();
    assert_eq!(x, make(-9));
}

#[test]
fn add_wraps_at_the_upper_bound() {
    let mut x = make(i64::MAX);
    x.add(num(1)).unwrap();
    assert_eq!(x, make(i64::MIN));
}

#[test]
fn subtract_wraps_at_the_lower_bound() {
    let mut x = make(i64::MIN);
    x.subtract(num(1)).unwrap();
    assert_eq!(x, make(i64::MAX));
    let mut y = make(10);
    y.subtract(num(12)).unwrap();
    assert_eq!(y, make(-2));
}

#[test]
fn multiply_wraps() {
    let mut x = make(i64::MIN);
    x.multiply(num(-1)).unwrap();
    assert_eq!(x, make(i64::MIN));
    let mut y = make(1 << 62);
    y.multiply(num(4)).unwrap();
    assert_eq!(y, make(0));
    let mut z = make(-6);
    z.multiply(num(7)).unwrap();
    assert_eq!(z, make(-42));
}

#[test]
fn divide_rounds_toward_zero() {
    let mut x = make(7);
    x.divide(num(-2)).unwrap();
    assert_eq!(x, make(-3));
    let mut y = make(-7);
    y.divide(num(2)).unwrap();
    assert_eq!(y, make(-3));
    let mut z = make(-7);
    z.divide(num(-2)).unwrap();
    assert_eq!(z, make(3));
}

#[test]
fn divide_smallest_by_minus_one_wraps() {
    let mut x = make(i64::MIN);
    x.divide(num(-1)).unwrap();
    assert_eq!(x, make(i64::MIN));
}

#[test]
fn divide_by_zero_is_refused() {
    let mut x = make(5);
    assert_eq!(x.divide(num(0)).unwrap_err(), Int64Error::DivisionByZero);
    assert_eq!(x, make(5));
    assert_eq!(x.modulo(num(0)).unwrap_err(), Int64Error::DivisionByZero);
    assert_eq!(x, make(5));
}

#[test]
fn modulo_has_the_sign_of_the_dividend() {
    let mut x = make(-7);
    x.modulo(num(2)).unwrap();
    assert_eq!(x, make(-1));
    let mut y = make(7);
    y.modulo(num(-2)).unwrap();
    assert_eq!(y, make(1));
    let mut z = make(i64::MIN);
    z.modulo(num(-1)).unwrap();
    assert_eq!(z, make(0));
}

#[test]
fn pow_of_two() {
    let mut x = make(2);
    x.pow(num(10)).unwrap();
    assert_eq!(x, make(1024));
}

#[test]
fn pow_wraps() {
    let mut x = make(2);
    x.pow(num(63)).unwrap();
    assert_eq!(x, make(i64::MIN));
    let mut y = make(2);
    y.pow(num(64)).unwrap();
    assert_eq!(y, make(0));
    let mut z = make(3);
    z.pow(num(41)).unwrap();
    assert_eq!(z, make(3i64.wrapping_pow(41)));
    let mut w = make(-3);
    w.pow(num(4294967295)).unwrap();
    assert_eq!(w, make((-3i64).wrapping_pow(u32::MAX)));
    let mut one = make(7);
    one.pow(num(0)).unwrap();
    assert_eq!(one, make(1));
}

#[test]
fn pow_refuses_exponents_out_of_range() {
    for base in [0, 1, -1, 2, i64::MIN, i64::MAX] {
        let mut x = make(base);
        assert_eq!(x.pow(num(-1)).unwrap_err(), Int64Error::NegativeExponent);
        assert_eq!(x.pow(num(i64::MIN)).unwrap_err(), Int64Error::NegativeExponent);
        assert_eq!(x.pow(num(4294967296)).unwrap_err(), Int64Error::ExponentTooLarge);
        assert_eq!(x, make(base));
    }
}

#[test]
fn shift_left_counts_modulo_64() {
    let mut x = make(0x1234);
    x.shift_left(num(64)).unwrap();
    assert_eq!(x, make(0x1234));
    let mut y = make(1);
    y.shift_left(num(65)).unwrap();
    assert_eq!(y, make(2));
    let mut z = make(1);
    z.shift_left(num(63)).unwrap();
    assert_eq!(z, make(i64::MIN));
    let mut w = make(3);
    w.shift_left(num(4294967295)).unwrap();
    assert_eq!(w, make(i64::MIN));
}

#[test]
fn shift_right_keeps_the_sign() {
    let mut x = make(-8);
    x.shift_right(num(1)).unwrap();
    assert_eq!(x, make(-4));
    let mut y = make(-1);
    y.shift_right(num(63)).unwrap();
    assert_eq!(y, make(-1));
    let mut z = make(1024);
    z.shift_right(num(74)).unwrap();
    assert_eq!(z, make(1));
}

#[test]
fn shift_right_unsigned_fills_with_zeros() {
    let mut x = make(-1);
    x.shift_right_unsigned(num(60)).unwrap();
    assert_eq!(x, make(15));
    let mut y = make(i64::MIN);
    y.shift_right_unsigned(num(63)).unwrap();
    assert_eq!(y, make(1));
    let mut z = make(-1);
    z.shift_right_unsigned(num(64)).unwrap();
    assert_eq!(z, make(-1));
}

#[test]
fn shifts_refuse_counts_out_of_range() {
    let mut x = make(1);
    assert_eq!(x.shift_left(num(-1)).unwrap_err(), Int64Error::NegativeShift);
    assert_eq!(x.shift_left(num(4294967296)).unwrap_err(), Int64Error::ShiftTooLarge);
    assert_eq!(x.shift_right(num(-1)).unwrap_err(), Int64Error::NegativeShift);
    assert_eq!(x.shift_right(num(4294967296)).unwrap_err(), Int64Error::ShiftTooLarge);
    assert_eq!(x.shift_right_unsigned(num(-1)).unwrap_err(), Int64Error::NegativeShift);
    assert_eq!(x.shift_right_unsigned(num(4294967296)).unwrap_err(), Int64Error::ShiftTooLarge);
    assert_eq!(x, make(1));
}

#[test]
fn rotate_left_brings_bits_back() {
    let mut x = make(i64::MIN);
    x.rotate_left(num(1)).unwrap();
    assert_eq!(x, make(1));
    let mut y = make(0x1234_5678_9abc_def0);
    y.rotate_left(num(16)).unwrap();
    assert_eq!(y, make(0x5678_9abc_def0_1234));
    let mut z = make(0x1234);
    z.rotate_left(num(64)).unwrap();
    assert_eq!(z, make(0x1234));
    let mut w = make(-2);
    w.rotate_left(num(4294967295)).unwrap();
    assert_eq!(w, make((-2i64).rotate_left(u32::MAX)));
}

#[test]
fn rotate_right_brings_bits_back() {
    let mut x = make(1);
    x.rotate_right(num(1)).unwrap();
    assert_eq!(x, make(i64::MIN));
    let mut y = make(0x1234_5678_9abc_def0);
    y.rotate_right(num(16)).unwrap();
    assert_eq!(y, make(0xdef0_1234_5678_9abcu64 as i64));
    let mut z = make(0x1234);
    z.rotate_right(num(128)).unwrap();
    assert_eq!(z, make(0x1234));
}

#[test]
fn rotations_refuse_counts_out_of_range() {
    let mut x = make(1);
    assert_eq!(x.rotate_left(num(-1)).unwrap_err(), Int64Error::NegativeRotation);
    assert_eq!(x.rotate_left(num(4294967296)).unwrap_err(), Int64Error::RotationTooLarge);
    assert_eq!(x.rotate_right(num(-1)).unwrap_err(), Int64Error::NegativeRotation);
    assert_eq!(x.rotate_right(num(4294967296)).unwrap_err(), Int64Error::RotationTooLarge);
    assert_eq!(x, make(1));
}

#[test]
fn bitwise_operations() {
    let mut x = make(0b1100);
    x.and(num(0b1010)).unwrap();
    assert_eq!(x, make(0b1000));
    let mut x = make(0b1100);
    x.or(num(0b1010)).unwrap();
    assert_eq!(x, make(0b1110));
    let mut x = make(0b1100);
    x.xor(num(0b1010)).unwrap();
    assert_eq!(x, make(0b0110));
    let mut x = make(0b1100);
    x.nand(num(0b1010)).unwrap();
    assert_eq!(x, make(!0b1000));
    let mut x = make(0b1100);
    x.nor(num(0b1010)).unwrap();
    assert_eq!(x, make(!0b1110));
    let mut x = make(0b1100);
    x.xnor(num(0b1010)).unwrap();
    assert_eq!(x, make(!0b0110));
}

#[test]
fn not_flips_every_bit() {
    let mut x = make(0);
    x.not();
    assert_eq!(x, make(-1));
    x.not();
    assert_eq!(x, make(0));
    let mut y = make(i64::MAX);
    y.not();
    assert_eq!(y, make(i64::MIN));
}

#[test]
fn negative_twice_is_the_identity() {
    for v in [0, 1, -1, 42, i64::MAX, i64::MIN] {
        let mut x = make(v);
        x.negative().negative();
        assert_eq!(x, make(v));
    }
}

#[test]
fn negative_of_the_smallest_value_is_itself() {
    let mut x = make(i64::MIN);
    x.negative();
    assert_eq!(x, make(i64::MIN));
    let mut y = make(5);
    y.negative();
    assert_eq!(y, make(-5));
}

#[test]
fn relations() {
    let x = make(-3);
    assert_eq!(x.eq(num(-3)), Ok(true));
    assert_eq!(x.eq(num(3)), Ok(false));
    assert_eq!(x.ne(num(3)), Ok(true));
    assert_eq!(x.ne(num(-3)), Ok(false));
    assert_eq!(x.gt(num(-4)), Ok(true));
    assert_eq!(x.gt(num(-3)), Ok(false));
    assert_eq!(x.gte(num(-3)), Ok(true));
    assert_eq!(x.gte(num(-2)), Ok(false));
    assert_eq!(x.lt(num(-2)), Ok(true));
    assert_eq!(x.lt(num(-3)), Ok(false));
    assert_eq!(x.lte(num(-3)), Ok(true));
    assert_eq!(x.lte(num(-4)), Ok(false));
}

#[test]
fn relations_are_signed() {
    let x = make(-1);
    assert_eq!(x.lt(text("0x7FFFFFFFFFFFFFFF")), Ok(true));
    assert_eq!(x.eq(text("0xFFFFFFFFFFFFFFFF")), Ok(true));
    assert_eq!(make(i64::MIN).lt(num(i64::MAX)), Ok(true));
}

#[test]
fn relations_report_bad_operands() {
    let x = make(1);
    let bad = Err(Int64Error::Parse(ParseFailure::InvalidDigit));
    assert_eq!(x.eq(text("?")), bad);
    assert_eq!(x.ne(text("?")), bad);
    assert_eq!(x.gt(text("?")), bad);
    assert_eq!(x.gte(text("?")), bad);
    assert_eq!(x.lt(text("?")), bad);
    assert_eq!(x.lte(text("?")), bad);
    assert_eq!(x.comp(text("?")), Err(Int64Error::Parse(ParseFailure::InvalidDigit)));
}

#[test]
fn comp_has_exactly_one_outcome() {
    let samples = [i64::MIN, -2, -1, 0, 1, 2, i64::MAX];
    for a in samples {
        for b in samples {
            let x = make(a);
            let outcome = x.comp(num(b)).unwrap();
            assert_eq!(outcome == Comparison::Less, x.lt(num(b)).unwrap());
            assert_eq!(outcome == Comparison::Equal, x.eq(num(b)).unwrap());
            assert_eq!(outcome == Comparison::Greater, x.gt(num(b)).unwrap());
            let back = make(b).comp(num(a)).unwrap();
            assert_eq!(back.number(), -outcome.number());
        }
    }
}

#[test]
fn a_failed_operation_changes_nothing() {
    let mut x = make(77);
    assert!(x.add(text("seven")).is_err());
    assert!(x.subtract(Operand::Buffer(vec![0; 9])).is_err());
    assert!(x.multiply(text("")).is_err());
    assert!(x.set(text("0x")).is_err());
    assert!(x.and(text("1.5")).is_err());
    assert!(x.random(text("-")).is_err());
    assert_eq!(x, make(77));
}

#[test]
fn coercion_failure_comes_before_the_bound() {
    let mut x = make(2);
    assert_eq!(
        x.pow(text("-1x")).unwrap_err(),
        Int64Error::Parse(ParseFailure::InvalidDigit)
    );
    assert_eq!(x.pow(text("-1")).unwrap_err(), Int64Error::NegativeExponent);
}

#[test]
fn calls_chain() {
    let mut x = make(1);
    x.add(num(2)).unwrap().multiply(num(10)).unwrap().subtract(text("0x5")).unwrap().negative();
    assert_eq!(x, make(-25));
}

#[test]
fn clone_is_independent() {
    let mut x = make(5);
    let y = x.clone();
    x.add(num(1)).unwrap();
    assert_eq!(y, make(5));
    assert_eq!(x, make(6));
}

#[test]
fn to_number_at_the_safe_bounds() {
    assert_eq!(make(9007199254740991).to_number(), Ok(9007199254740991));
    assert_eq!(make(-9007199254740991).to_number(), Ok(-9007199254740991));
    assert_eq!(make(0).to_number(), Ok(0));
    assert_eq!(
        make(9007199254740992).to_number(),
        Err(Int64Error::AboveSafeRange(9007199254740992))
    );
    assert_eq!(
        make(-9007199254740992).to_number(),
        Err(Int64Error::BelowSafeRange(-9007199254740992))
    );
    assert_eq!(make(i64::MAX).to_number(), Err(Int64Error::AboveSafeRange(i64::MAX)));
    assert_eq!(make(i64::MIN).to_number(), Err(Int64Error::BelowSafeRange(i64::MIN)));
}

#[test]
fn safe_bounds_are_two_to_the_53_minus_one() {
    assert_eq!(int64::MAX_SAFE_INTEGER, (1i64 << 53) - 1);
    assert_eq!(int64::MIN_SAFE_INTEGER, -((1i64 << 53) - 1));
}

#[test]
fn to_buffer_is_little_endian() {
    assert_eq!(make(1).to_buffer(), vec![1, 0, 0, 0, 0, 0, 0, 0]);
    assert_eq!(make(-1).to_buffer(), vec![0xff; 8]);
    assert_eq!(
        make(0x0102_0304_0506_0708).to_buffer(),
        vec![0x08, 0x07, 0x06, 0x05, 0x04, 0x03, 0x02, 0x01]
    );
    assert_eq!(make(i64::MIN).to_buffer(), vec![0, 0, 0, 0, 0, 0, 0, 0x80]);
}

#[test]
fn buffer_round_trip() {
    for v in [0, 1, -1, 255, 256, -256, 0x0102_0304_0506_0708, i64::MAX, i64::MIN] {
        let bytes = make(v).to_buffer();
        assert_eq!(bytes, v.to_le_bytes().to_vec());
        assert_eq!(Int64::new(Some(Operand::Buffer(bytes))).unwrap(), make(v));
    }
}

#[test]
fn decimal_round_trip() {
    for v in [0, 1, -1, 10, -10, 9007199254740992, i64::MAX, i64::MIN] {
        let written = make(v).to_decimal();
        assert_eq!(written, v.to_string());
        assert_eq!(Int64::new(Some(Operand::Text(written))).unwrap(), make(v));
    }
}

#[test]
fn to_binary_plain_and_fixed() {
    assert_eq!(make(5).to_binary(None), "101");
    assert_eq!(make(5).to_binary(Some(false)), "101");
    assert_eq!(make(0).to_binary(None), "0");
    assert_eq!(make(-1).to_binary(None), "1".repeat(64));
    assert_eq!(make(5).to_binary(Some(true)), format!("0b{}101", "0".repeat(61)));
    assert_eq!(make(-1).to_binary(Some(true)), format!("0b{}", "1".repeat(64)));
    assert_eq!(make(5).to_binary(Some(true)).len(), 66);
}

#[test]
fn to_octal_plain_and_fixed() {
    assert_eq!(make(15).to_octal(None), "17");
    assert_eq!(make(-1).to_octal(None), "1777777777777777777777");
    assert_eq!(make(15).to_octal(Some(true)), "0o0000000000000000000017");
    assert_eq!(make(-1).to_octal(Some(true)), "0o1777777777777777777777");
    assert_eq!(make(15).to_octal(Some(true)).len(), 24);
}

#[test]
fn to_hex_plain_and_fixed() {
    assert_eq!(make(255).to_hex(None, None), "ff");
    assert_eq!(make(255).to_hex(None, Some(true)), "FF");
    assert_eq!(make(255).to_hex(Some(false), Some(false)), "ff");
    assert_eq!(make(-1).to_hex(None, None), "ffffffffffffffff");
    assert_eq!(make(255).to_hex(Some(true), None), "0x00000000000000ff");
    assert_eq!(make(255).to_hex(Some(true), Some(true)), "0X00000000000000FF");
    assert_eq!(make(i64::MIN).to_hex(Some(true), Some(true)), "0X8000000000000000");
    assert_eq!(make(0xabcdef).to_hex(None, Some(true)), "ABCDEF");
}

#[test]
fn fixed_forms_read_back() {
    for v in [0, 1, -1, 31, i64::MAX, i64::MIN] {
        let x = make(v);
        assert_eq!(Int64::new(Some(Operand::Text(x.to_binary(Some(true))))).unwrap(), make(v));
        assert_eq!(Int64::new(Some(Operand::Text(x.to_octal(Some(true))))).unwrap(), make(v));
        assert_eq!(Int64::new(Some(Operand::Text(x.to_hex(Some(true), None)))).unwrap(), make(v));
        assert_eq!(
            Int64::new(Some(Operand::Text(x.to_hex(Some(true), Some(true))))).unwrap(),
            make(v)
        );
    }
}

#[test]
fn plain_forms_agree_with_the_standard_formatter() {
    for v in [0, 1, -1, 7, 8, 255, 256, 0x1234_5678, i64::MAX, i64::MIN] {
        let x = make(v);
        assert_eq!(x.to_decimal(), format!("{}", v));
        assert_eq!(x.to_binary(None), format!("{:b}", v));
        assert_eq!(x.to_octal(None), format!("{:o}", v));
        assert_eq!(x.to_hex(None, None), format!("{:x}", v));
        assert_eq!(x.to_hex(None, Some(true)), format!("{:X}", v));
        assert_eq!(x.to_binary(Some(true)), format!("{:#066b}", v));
        assert_eq!(x.to_octal(Some(true)), format!("{:#024o}", v));
        assert_eq!(x.to_hex(Some(true), None), format!("{:#018x}", v));
    }
}
