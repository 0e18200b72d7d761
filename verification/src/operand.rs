//! Coercion: the shapes in which a caller may hand over a 64-bit integer.
use crate::codec::{decode_outcome, from_le_bytes};
use crate::error::Int64Error;
use crate::integer::Int64;
use crate::parse::{parse_text, string_to_i64};
use vstd::prelude::*;
use vstd::utf8::encode_utf8;

verus! {

/// A value on its way into the library.
pub enum Operand<'a> {
    /// An integer of this library; its pattern is taken as it is.
    Instance(&'a Int64),
    /// A native number, already an integer.
    Number(i64),
    /// A decimal literal, or one with a `0b`, `0o` or `0x` prefix.
    Text(String),
    /// Eight bytes, least significant first.
    Buffer(Vec<u8>),
}

/// The integer that an operand stands for, or why it stands for none.
pub open spec fn coerced(operand: Operand) -> Result<i64, Int64Error> {
    match operand {
        Operand::Instance(x) => Ok(x@),
        Operand::Number(n) => Ok(n),
        Operand::Text(s) => match parse_text(encode_utf8(s@)) {
            Ok(v) => Ok(v),
            Err(failure) => Err(Int64Error::Parse(failure)),
        },
        Operand::Buffer(b) => decode_outcome(b@),
    }
}

/// Turns an operand into the integer it stands for.
pub fn to_i64(operand: Operand) -> (r: Result<i64, Int64Error>)
    ensures
        r == coerced(operand),
{
    match operand {
        Operand::Instance(x) => Ok(x.value()),
        Operand::Number(n) => Ok(n),
        Operand::Text(s) => match string_to_i64(s.as_str()) {
            Ok(v) => Ok(v),
            Err(failure) => Err(Int64Error::Parse(failure)),
        },
        Operand::Buffer(b) => from_le_bytes(b.as_slice()),
    }
}

/// The two operands of a binary operation, coerced in their order: a failure
/// of the first is reported before one of the second.
pub open spec fn coerced_pair(a: Operand, b: Operand) -> Result<(i64, i64), Int64Error> {
    match coerced(a) {
        Ok(x) => match coerced(b) {
            Ok(y) => Ok((x, y)),
            Err(e) => Err(e),
        },
        Err(e) => Err(e),
    }
}

/// Turns the two operands of a binary operation into integers.
pub fn to_pair(a: Operand, b: Operand) -> (r: Result<(i64, i64), Int64Error>)
    ensures
        r == coerced_pair(a, b),
{
    let x = match to_i64(a) {
        Ok(x) => x,
        Err(e) => return Err(e),
    };
    match to_i64(b) {
        Ok(y) => Ok((x, y)),
        Err(e) => Err(e),
    }
}

} // verus!
