//! The buffer codec is a bijection between 64-bit values and buffers of eight
//! bytes.
use crate::arith::{modulus, unsigned};
use crate::codec::{
    decode_outcome, decoded, encoded, lemma_digits_of_le_value, lemma_le_value_bound,
    lemma_le_value_of_digits,
};
use crate::error::Int64Error;
use vstd::arithmetic::div_mod::lemma_small_mod;
use vstd::arithmetic::power::pow;
use vstd::prelude::*;

verus! {

/// 256^8 is 2^64: eight bytes hold exactly the 64-bit patterns.
proof fn lemma_eight_bytes()
    ensures
        pow(256, 8) == modulus(),
{
    reveal_with_fuel(pow, 9);
}

/// Decoding what was encoded gives the value back: for every `x`, the eight
/// bytes of `x` decode to `x`.
pub proof fn law_buffer_round_trip(x: i64)
    ensures
        encoded(x).len() == 8,
        decode_outcome(encoded(x)) == Ok::<i64, Int64Error>(x),
{
    let u = unsigned(x) as nat;
    lemma_le_value_of_digits(u, 8);
    lemma_eight_bytes();
    lemma_small_mod(u, modulus() as nat);
}

/// Encoding what was decoded gives the buffer back: for every buffer of
/// eight bytes, the bytes of its value are the buffer.
pub proof fn law_buffer_round_trip_of_bytes(bytes: Seq<u8>)
    requires
        bytes.len() == 8,
    ensures
        encoded(decoded(bytes)) == bytes,
{
    lemma_le_value_bound(bytes);
    lemma_eight_bytes();
    lemma_digits_of_le_value(bytes);
}

} // verus!
