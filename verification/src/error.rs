//! Failures reported by the library.
use crate::render::{decimal_text, to_decimal};
use vstd::prelude::*;
use vstd::string::StringExecFns;

verus! {

/// Why a piece of text is not an integer literal.
#[derive(Clone, Copy, Debug, PartialEq, Eq, Structural)]
pub enum ParseFailure {
    /// The text holds nothing to parse.
    Empty,
    /// A character is not a digit of the radix, or a sign stands alone.
    InvalidDigit,
    /// The number is above the largest value of the target type.
    PosOverflow,
    /// The number is below the smallest value of the target type.
    NegOverflow,
}

impl ParseFailure {
    /// The sentence that describes the failure.
    pub open spec fn message_text(self) -> Seq<char> {
        match self {
            ParseFailure::Empty => "cannot parse integer from empty string"@,
            ParseFailure::InvalidDigit => "invalid digit found in string"@,
            ParseFailure::PosOverflow => "number too large to fit in target type"@,
            ParseFailure::NegOverflow => "number too small to fit in target type"@,
        }
    }

    /// A sentence that describes the failure.
    pub fn message(&self) -> (r: String)
        ensures
            r@ == self.message_text(),
    {
        match self {
            ParseFailure::Empty => "cannot parse integer from empty string".to_owned(),
            ParseFailure::InvalidDigit => "invalid digit found in string".to_owned(),
            ParseFailure::PosOverflow => "number too large to fit in target type".to_owned(),
            ParseFailure::NegOverflow => "number too small to fit in target type".to_owned(),
        }
    }
}

/// The two classes of failure that a host is told about.
#[derive(Clone, Copy, Debug, PartialEq, Eq, Structural)]
pub enum ErrorKind {
    /// An input cannot be read as a 64-bit integer.
    Type,
    /// A value lies outside the bounds that an operation allows.
    Range,
}

/// A failure of a coercion or of an operation. Nothing is changed when one
/// is returned.
#[derive(Clone, Copy, Debug, PartialEq, Eq, Structural)]
pub enum Int64Error {
    /// A string operand is not a numeric literal.
    Parse(ParseFailure),
    /// A buffer operand holds this many bytes, not eight.
    BufferLength(usize),
    /// The value is above the safe range of native numbers.
    AboveSafeRange(i64),
    /// The value is below the safe range of native numbers.
    BelowSafeRange(i64),
    /// An exponent is negative.
    NegativeExponent,
    /// An exponent is above `u32::MAX`.
    ExponentTooLarge,
    /// A shift count is negative.
    NegativeShift,
    /// A shift count is above `u32::MAX`.
    ShiftTooLarge,
    /// A rotation count is negative.
    NegativeRotation,
    /// A rotation count is above `u32::MAX`.
    RotationTooLarge,
    /// A divisor is zero.
    DivisionByZero,
}

impl Int64Error {
    /// The class of the failure.
    pub open spec fn kind_of(self) -> ErrorKind {
        match self {
            Int64Error::Parse(_) | Int64Error::BufferLength(_) => ErrorKind::Type,
            _ => ErrorKind::Range,
        }
    }

    /// The class under which a host reports the failure.
    pub fn kind(&self) -> (r: ErrorKind)
        ensures
            r == self.kind_of(),
    {
        match self {
            Int64Error::Parse(_) => ErrorKind::Type,
            Int64Error::BufferLength(_) => ErrorKind::Type,
            _ => ErrorKind::Range,
        }
    }

    /// The sentence that describes the failure. A value that is out of range
    /// is named in decimal, with the bound that it passes.
    pub open spec fn message_text(self) -> Seq<char> {
        match self {
            Int64Error::Parse(failure) => failure.message_text(),
            Int64Error::BufferLength(_) => "the length of the input buffer is not 8"@,
            Int64Error::AboveSafeRange(v) => decimal_text(v) + " is bigger than 9007199254740991"@,
            Int64Error::BelowSafeRange(v) => decimal_text(v)
                + " is smaller than -9007199254740991"@,
            Int64Error::NegativeExponent => {
                "the exponent of an integer number must not be smaller than zero"@
            },
            Int64Error::ExponentTooLarge => {
                "the exponent of an integer number must not be bigger than 4294967295"@
            },
            Int64Error::NegativeShift => {
                "the bit count for shift must not be smaller than zero"@
            },
            Int64Error::ShiftTooLarge => {
                "the bit count for shift must not be bigger than 4294967295"@
            },
            Int64Error::NegativeRotation => {
                "the bit count for rotation must not be smaller than zero"@
            },
            Int64Error::RotationTooLarge => {
                "the bit count for rotation must not be bigger than 4294967295"@
            },
            Int64Error::DivisionByZero => "the divisor must not be zero"@,
        }
    }

    /// A sentence for the host to show.
    pub fn message(&self) -> (r: String)
        ensures
            r@ == self.message_text(),
    {
        match self {
            Int64Error::Parse(failure) => failure.message(),
            Int64Error::BufferLength(_) => "the length of the input buffer is not 8".to_owned(),
            Int64Error::AboveSafeRange(v) => {
                let mut text = to_decimal(*v);
                text.append(" is bigger than 9007199254740991");
                text
            },
            Int64Error::BelowSafeRange(v) => {
                let mut text = to_decimal(*v);
                text.append(" is smaller than -9007199254740991");
                text
            },
            Int64Error::NegativeExponent => {
                "the exponent of an integer number must not be smaller than zero".to_owned()
            },
            Int64Error::ExponentTooLarge => {
                "the exponent of an integer number must not be bigger than 4294967295".to_owned()
            },
            Int64Error::NegativeShift => {
                "the bit count for shift must not be smaller than zero".to_owned()
            },
            Int64Error::ShiftTooLarge => {
                "the bit count for shift must not be bigger than 4294967295".to_owned()
            },
            Int64Error::NegativeRotation => {
                "the bit count for rotation must not be smaller than zero".to_owned()
            },
            Int64Error::RotationTooLarge => {
                "the bit count for rotation must not be bigger than 4294967295".to_owned()
            },
            Int64Error::DivisionByZero => "the divisor must not be zero".to_owned(),
        }
    }
}

} // verus!
