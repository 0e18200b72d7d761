//! Eight-byte buffers: the little-endian image of a 64-bit pattern.
use crate::arith::{to_signed, to_unsigned, unsigned, wrap};
use crate::error::Int64Error;
use vstd::arithmetic::div_mod::lemma_mod_breakdown;
use vstd::arithmetic::power::{
    lemma_pow0, lemma_pow1, lemma_pow_adds, lemma_pow_increases, lemma_pow_positive, pow,
};
use vstd::prelude::*;

verus! {

/// The number of bytes of an encoded value.
pub const WIDTH: usize = 8;

/// The number whose base-256 digits are `bytes`, least significant first.
pub open spec fn le_value(bytes: Seq<u8>) -> nat
    decreases bytes.len(),
{
    if bytes.len() == 0 {
        0
    } else {
        bytes[0] as nat + 256 * le_value(bytes.drop_first())
    }
}

/// The `len` lowest base-256 digits of `x`, least significant first.
pub open spec fn le_digits(x: nat, len: nat) -> Seq<u8>
    decreases len,
{
    if len == 0 {
        Seq::empty()
    } else {
        seq![(x % 256) as u8] + le_digits(x / 256, (len - 1) as nat)
    }
}

/// The value that a buffer of eight bytes stands for.
pub open spec fn decoded(bytes: Seq<u8>) -> i64
    recommends
        bytes.len() == WIDTH,
{
    wrap(le_value(bytes) as int)
}

/// The eight bytes that stand for `v`.
pub open spec fn encoded(v: i64) -> Seq<u8> {
    le_digits(unsigned(v) as nat, WIDTH as nat)
}

/// What decoding a buffer gives: its value where it holds eight bytes, else
/// the failure that names its length.
pub open spec fn decode_outcome(bytes: Seq<u8>) -> Result<i64, Int64Error> {
    if bytes.len() == WIDTH {
        Ok(decoded(bytes))
    } else {
        Err(Int64Error::BufferLength(bytes.len() as usize))
    }
}

/// Reading back the digits of a number gives the number, as far as the
/// digits reach.
pub proof fn lemma_le_value_of_digits(x: nat, len: nat)
    ensures
        le_digits(x, len).len() == len,
        le_value(le_digits(x, len)) == x % pow(256, len) as nat,
    decreases len,
{
    let p = pow(256, len);
    if len == 0 {
        lemma_pow0(256);
        assert(x % 1 == 0);
    } else {
        let rest = (len - 1) as nat;
        let q = pow(256, rest);
        lemma_le_value_of_digits(x / 256, rest);
        let digits = le_digits(x, len);
        assert(digits.drop_first() =~= le_digits(x / 256, rest));
        assert(p == 256 * q) by {
            lemma_pow_adds(256, 1, rest);
            lemma_pow1(256);
        }
        lemma_pow_positive(256, rest);
        lemma_mod_breakdown(x as int, 256, q);
    }
}

/// Taking the digits of what a buffer denotes gives the buffer back.
pub proof fn lemma_digits_of_le_value(bytes: Seq<u8>)
    ensures
        le_digits(le_value(bytes), bytes.len()) == bytes,
    decreases bytes.len(),
{
    if bytes.len() > 0 {
        let rest = bytes.drop_first();
        lemma_digits_of_le_value(rest);
        let x = le_value(bytes);
        assert(x % 256 == bytes[0] && x / 256 == le_value(rest));
        assert(le_digits(x, bytes.len()) =~= bytes);
    } else {
        assert(le_digits(le_value(bytes), bytes.len()) =~= bytes);
    }
}

/// A buffer of `len` bytes denotes a number below 256^len.
pub proof fn lemma_le_value_bound(bytes: Seq<u8>)
    ensures
        le_value(bytes) < pow(256, bytes.len()),
    decreases bytes.len(),
{
    if bytes.len() == 0 {
        lemma_pow0(256);
    } else {
        let rest = bytes.drop_first();
        lemma_le_value_bound(rest);
        lemma_pow_adds(256, 1, rest.len());
        lemma_pow1(256);
    }
}

/// 256^7, the bound of a number of seven bytes.
proof fn lemma_seven_bytes()
    ensures
        pow(256, 7) == 0x100_0000_0000_0000,
{
    reveal_with_fuel(pow, 8);
}

/// Reads a buffer of exactly eight bytes as a little-endian signed integer.
pub fn from_le_bytes(bytes: &[u8]) -> (r: Result<i64, Int64Error>)
    ensures
        r == decode_outcome(bytes@),
{
    if bytes.len() != WIDTH {
        return Err(Int64Error::BufferLength(bytes.len()));
    }
    let mut acc: u64 = 0;
    let mut i: usize = WIDTH;
    assert(bytes@.skip(8) =~= Seq::<u8>::empty());
    while i > 0
        invariant
            i <= 8,
            bytes@.len() == 8,
            acc == le_value(bytes@.skip(i as int)),
        decreases i,
    {
        proof {
            let higher = bytes@.skip(i as int);
            lemma_le_value_bound(higher);
            lemma_pow_increases(256, higher.len(), 7);
            lemma_seven_bytes();
            assert(bytes@.skip(i - 1).drop_first() =~= higher);
        }
        i -= 1;
        acc = acc * 256 + bytes[i] as u64;
    }
    assert(bytes@.skip(0) =~= bytes@);
    Ok(to_signed(acc))
}

/// Writes `v` as eight bytes, least significant first.
pub fn to_le_bytes(v: i64) -> (r: Vec<u8>)
    ensures
        r@ == encoded(v),
        r@.len() == WIDTH,
{
    let mut rest: u64 = to_unsigned(v);
    let mut out: Vec<u8> = Vec::with_capacity(WIDTH);
    let mut i: usize = 0;
    while i < WIDTH
        invariant
            i <= 8,
            out@.len() == i,
            out@ + le_digits(rest as nat, (8 - i) as nat) == encoded(v),
        decreases 8 - i,
    {
        let low: u8 = (rest % 256) as u8;
        proof {
            let tail = le_digits((rest / 256) as nat, (8 - i - 1) as nat);
            assert(le_digits(rest as nat, (8 - i) as nat) == seq![low] + tail);
            assert(out@.push(low) + tail =~= out@ + (seq![low] + tail));
        }
        out.push(low);
        rest = rest / 256;
        i += 1;
    }
    assert(out@ + Seq::<u8>::empty() =~= out@);
    out
}

} // verus!
