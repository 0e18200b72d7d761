//! Laws that relate the operations to one another, each proved from the
//! models that the contracts of the operations are stated in.
pub mod arithmetic;
pub mod bits;
pub mod buffer;
pub mod text;
