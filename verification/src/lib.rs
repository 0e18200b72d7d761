//! Signed 64-bit integers with two's-complement wrapping semantics, for hosts
//! whose native number type is exact only within ±(2^53 − 1).
//!
//! Values enter through [`Operand`]: another [`Int64`], a native number, a
//! numeric string or an eight-byte little-endian buffer. Every operation is
//! carried out on the full 64-bit pattern and wraps at its boundary; only
//! [`Int64::to_number`] checks the safe range on the way out. An operation
//! that fails reports an [`Int64Error`] and changes nothing.
//!
//! The modules, from the leaves up:
//!
//! - [`arith`]: the model of wrapping arithmetic, shifts and rotations, and
//!   the functions on plain `i64` values that compute it;
//! - [`parse`] and [`render`]: text to integer and back;
//! - [`codec`]: eight-byte buffers;
//! - [`operand`]: coercion of the four input shapes;
//! - [`integer`] and [`functions`]: the operations as methods of [`Int64`]
//!   and as free functions of two operands;
//! - [`comparison`], [`random`], [`error`]: what the operations return;
//! - [`laws`]: round trips, involutions and the arithmetic meaning of shifts
//!   and rotations, proved from the models.
//!
//! Two choices are the library's own. Division and remainder by zero are
//! refused with [`Int64Error::DivisionByZero`]; the quotient of the smallest
//! value by -1 wraps to the smallest value. A literal with a radix prefix is
//! read as an unsigned pattern, so that `0xFFFFFFFFFFFFFFFF` is -1.
pub mod arith;
pub mod codec;
pub mod comparison;
pub mod error;
pub mod functions;
pub mod integer;
pub mod laws;
pub mod operand;
pub mod parse;
pub mod random;
pub mod render;

pub use crate::comparison::Comparison;
pub use crate::error::{ErrorKind, Int64Error, ParseFailure};
pub use crate::functions::{
    add, and, comp, divide, eq, gt, gte, lt, lte, modulo, multiply, nand, ne, negative, nor, not,
    or, pow, random, rotate_left, rotate_right, shift_left, shift_right, shift_right_unsigned,
    subtract, xnor, xor,
};
pub use crate::integer::{Int64, MAX_SAFE_INTEGER, MIN_SAFE_INTEGER};
pub use crate::operand::{to_i64, Operand};
pub use crate::parse::string_to_i64;
