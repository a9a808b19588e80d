//! Unsigned integers of variable length: seven bits per byte, least significant first, the top
//! bit telling that more bytes follow.

use vstd::prelude::*;

verus! {

/// The shortest encoding of a number.
pub open spec fn uvi(n: nat) -> Seq<u8>
    decreases n,
{
    if n < 128 {
        seq![n as u8]
    } else {
        seq![(n % 128 + 128) as u8] + uvi(n / 128)
    }
}

/// How many bytes at the start say that more bytes follow.
pub open spec fn uvi_more(s: Seq<u8>) -> nat
    decreases s.len(),
{
    if s.len() == 0 || s[0] < 128 {
        0
    } else {
        1 + uvi_more(s.drop_first())
    }
}

/// The number whose digits to the base 128 are the lower seven bits of the bytes, least
/// significant first.
pub open spec fn uvi_value(s: Seq<u8>) -> nat
    decreases s.len(),
{
    if s.len() == 0 {
        0
    } else {
        (s[0] % 128) as nat + 128 * uvi_value(s.drop_first())
    }
}

/// Why bytes do not start with an encoded number.
#[derive(Debug, Clone, Copy, PartialEq, Eq)]
pub enum UviError {
    /// The last byte says that more bytes follow.
    Insufficient,
    /// Too many bytes say that more bytes follow.
    Overflow,
}

/// The number that `s` starts with, reduced modulo `modulus`, and what comes after it, where at
/// most `max` bytes are read.
pub open spec fn uvi_decode(s: Seq<u8>, max: nat, modulus: nat) -> Result<
    (nat, Seq<u8>),
    UviError,
> {
    let k = uvi_more(s);
    if k >= max {
        Err(UviError::Overflow)
    } else if k == s.len() {
        Err(UviError::Insufficient)
    } else {
        Ok((uvi_value(s.take(k as int + 1)) % modulus, s.skip(k as int + 1)))
    }
}

/// How many bytes an encoded `usize` may take.
pub open spec fn uvi_usize_max() -> nat {
    if usize::BITS == 64 {
        10
    } else {
        5
    }
}

/// [`uvi_decode`] for numbers of type `usize`.
pub open spec fn uvi_decode_usize(s: Seq<u8>) -> Result<(nat, Seq<u8>), UviError> {
    uvi_decode(s, uvi_usize_max(), usize::MAX as nat + 1)
}

/// [`uvi_decode`] for numbers of type `u32`.
pub open spec fn uvi_decode_u32(s: Seq<u8>) -> Result<(nat, Seq<u8>), UviError> {
    uvi_decode(s, 5, u32::MAX as nat + 1)
}

/// Calls `unsigned_varint::encode::usize`, which writes the shortest encoding of its argument.
#[verifier::external_body]
pub(crate) fn encode_usize(n: usize) -> (r: Vec<u8>)
    ensures
        r@ == uvi(n as nat),
{
    let mut buf = unsigned_varint::encode::usize_buffer();
    unsigned_varint::encode::usize(n, &mut buf).to_vec()
}

/// Calls `unsigned_varint::encode::u32`, which writes the shortest encoding of its argument.
#[verifier::external_body]
pub(crate) fn encode_u32(n: u32) -> (r: Vec<u8>)
    ensures
        r@ == uvi(n as nat),
{
    let mut buf = unsigned_varint::encode::u32_buffer();
    unsigned_varint::encode::u32(n, &mut buf).to_vec()
}

/// Calls `unsigned_varint::decode::usize`, which reads a number up to the first byte without
/// the top bit, gives up after ten bytes (five where `usize` has 32 bits), and keeps of a
/// number that is too large the bits that fit.
#[verifier::external_body]
pub(crate) fn decode_usize<'a>(buf: &'a [u8]) -> (r: Result<(usize, &'a [u8]), UviError>)
    ensures
        match uvi_decode_usize(buf@) {
            Ok((n, rest)) => r matches Ok((m, s)) && m == n && s@ == rest,
            Err(e) => r == Err::<(usize, &'a [u8]), UviError>(e),
        },
{
    match unsigned_varint::decode::usize(buf) {
        Ok(x) => Ok(x),
        Err(unsigned_varint::decode::Error::Insufficient) => Err(UviError::Insufficient),
        Err(_) => Err(UviError::Overflow),
    }
}

/// Calls `unsigned_varint::decode::u32`, which reads a number up to the first byte without the
/// top bit, gives up after five bytes, and keeps of a number that is too large the bits that
/// fit.
#[verifier::external_body]
pub(crate) fn decode_u32<'a>(buf: &'a [u8]) -> (r: Result<(u32, &'a [u8]), UviError>)
    ensures
        match uvi_decode_u32(buf@) {
            Ok((n, rest)) => r matches Ok((m, s)) && m == n && s@ == rest,
            Err(e) => r == Err::<(u32, &'a [u8]), UviError>(e),
        },
{
    match unsigned_varint::decode::u32(buf) {
        Ok(x) => Ok(x),
        Err(unsigned_varint::decode::Error::Insufficient) => Err(UviError::Insufficient),
        Err(_) => Err(UviError::Overflow),
    }
}

/// 128 to the power of `k`.
spec fn pow128(k: nat) -> nat
    decreases k,
{
    if k == 0 {
        1
    } else {
        128 * pow128((k - 1) as nat)
    }
}

proof fn lemma_uvi_shape(n: nat, rest: Seq<u8>, k: nat)
    requires
        n < pow128(k),
        k > 0,
    ensures
        1 <= uvi(n).len() <= k,
        uvi_more(uvi(n) + rest) + 1 == uvi(n).len(),
        uvi_value(uvi(n)) == n,
    decreases n,
{
    let s = uvi(n) + rest;
    reveal_with_fuel(uvi_value, 2);
    if n < 128 {
        assert(s[0] == n as u8);
    } else {
        assert(k > 1) by {
            reveal_with_fuel(pow128, 2);
        }
        assert(n / 128 < pow128((k - 1) as nat));
        lemma_uvi_shape(n / 128, rest, (k - 1) as nat);
        assert(s[0] == (n % 128 + 128) as u8);
        assert(s.drop_first() =~= uvi(n / 128) + rest);
        assert(uvi(n).drop_first() =~= uvi(n / 128));
        assert(uvi(n)[0] % 128 == n % 128);
    }
}

/// Decoding an encoded number that fits gives the number back, and all that came after it.
pub proof fn law_uvi_round_trip(n: nat, rest: Seq<u8>)
    ensures
        n <= usize::MAX ==> uvi_decode_usize(uvi(n) + rest) == Ok::<(nat, Seq<u8>), UviError>(
            (n, rest),
        ),
        n <= u32::MAX ==> uvi_decode_u32(uvi(n) + rest) == Ok::<(nat, Seq<u8>), UviError>(
            (n, rest),
        ),
{
    reveal_with_fuel(pow128, 11);
    let s = uvi(n) + rest;
    assert(s.take(uvi(n).len() as int) =~= uvi(n));
    assert(s.skip(uvi(n).len() as int) =~= rest);
    if n <= usize::MAX {
        lemma_uvi_shape(n, rest, uvi_usize_max());
    }
    if n <= u32::MAX {
        lemma_uvi_shape(n, rest, 5);
    }
}

/// An encoded number is not empty, and its first byte tells whether it is below 128.
pub proof fn lemma_uvi_first(n: nat)
    ensures
        uvi(n).len() >= 1,
        n < 128 ==> uvi(n) == seq![n as u8],
        n >= 128 ==> uvi(n)[0] >= 128,
{
}

} // verus!
