//! Big-endian fixed-width integers, as they stand on the wire.

use byteorder::{BigEndian, ByteOrder};
use vstd::prelude::*;

verus! {

/// The signed 16-bit number that the first two bytes of `s` hold, most
/// significant byte first, in two's complement.
pub open spec fn i16_from_be(s: Seq<u8>) -> int
    recommends
        s.len() >= 2,
{
    let u = s[0] as int * 0x100 + s[1] as int;
    if u < 0x8000 {
        u
    } else {
        u - 0x1_0000
    }
}

/// The unsigned number that the first four bytes of `s` hold, most
/// significant byte first.
pub open spec fn u32_from_be(s: Seq<u8>) -> int
    recommends
        s.len() >= 4,
{
    s[0] as int * 0x100_0000 + s[1] as int * 0x1_0000 + s[2] as int * 0x100 + s[3] as int
}

/// The signed 32-bit number that the first four bytes of `s` hold, most
/// significant byte first, in two's complement.
pub open spec fn i32_from_be(s: Seq<u8>) -> int
    recommends
        s.len() >= 4,
{
    let u = u32_from_be(s);
    if u < 0x8000_0000 {
        u
    } else {
        u - 0x1_0000_0000
    }
}

/// The signed 64-bit number that the first eight bytes of `s` hold, most
/// significant byte first, in two's complement.
pub open spec fn i64_from_be(s: Seq<u8>) -> int
    recommends
        s.len() >= 8,
{
    let u = u32_from_be(s) * 0x1_0000_0000 + u32_from_be(s.skip(4));
    if u < 0x8000_0000_0000_0000 {
        u
    } else {
        u - 0x1_0000_0000_0000_0000
    }
}

/// The two bytes that hold `x` as a signed 16-bit number, most significant
/// byte first. Proofs see the digits only after `reveal`.
#[verifier::opaque]
pub open spec fn i16_to_be(x: int) -> Seq<u8>
    recommends
        i16::MIN <= x <= i16::MAX,
{
    let u = if x < 0 {
        x + 0x1_0000
    } else {
        x
    };
    seq![(u / 0x100) as u8, (u % 0x100) as u8]
}

/// The four bytes that hold the unsigned number `u`, most significant byte
/// first. Proofs see the digits only after `reveal`.
#[verifier::opaque]
pub open spec fn u32_to_be(u: int) -> Seq<u8>
    recommends
        0 <= u <= u32::MAX,
{
    seq![
        (u / 0x100_0000) as u8,
        (u / 0x1_0000 % 0x100) as u8,
        (u / 0x100 % 0x100) as u8,
        (u % 0x100) as u8,
    ]
}

/// The four bytes that hold `x` as a signed 32-bit number, most significant
/// byte first.
pub open spec fn i32_to_be(x: int) -> Seq<u8>
    recommends
        i32::MIN <= x <= i32::MAX,
{
    u32_to_be(
        if x < 0 {
            x + 0x1_0000_0000
        } else {
            x
        },
    )
}

/// The eight bytes that hold `x` as a signed 64-bit number, most significant
/// byte first.
pub open spec fn i64_to_be(x: int) -> Seq<u8>
    recommends
        i64::MIN <= x <= i64::MAX,
{
    let u = if x < 0 {
        x + 0x1_0000_0000_0000_0000
    } else {
        x
    };
    u32_to_be(u / 0x1_0000_0000) + u32_to_be(u % 0x1_0000_0000)
}

/// The base-256 digits of a four-digit number are the digits it was built from.
proof fn lemma_digits(b0: u8, b1: u8, b2: u8, b3: u8)
    by (bit_vector)
    ensures
        ({
            let u = b0 as int * 0x100_0000 + b1 as int * 0x1_0000 + b2 as int * 0x100 + b3 as int;
            &&& 0 <= u <= 0xffff_ffff
            &&& u / 0x100_0000 == b0 as int
            &&& u / 0x1_0000 % 0x100 == b1 as int
            &&& u / 0x100 % 0x100 == b2 as int
            &&& u % 0x100 == b3 as int
        }),
{
}

/// A 64-bit pattern splits into two 32-bit halves in one way only.
proof fn lemma_halves(hi: int, lo: int)
    requires
        0 <= hi <= u32::MAX,
        0 <= lo <= u32::MAX,
    ensures
        (hi * 0x1_0000_0000 + lo) / 0x1_0000_0000 == hi,
        (hi * 0x1_0000_0000 + lo) % 0x1_0000_0000 == lo,
{
}

/// Encoding an unsigned 32-bit number and decoding the bytes gives the
/// number back, whatever follows the four bytes.
proof fn lemma_u32_encode_decode(u: int, tail: Seq<u8>)
    requires
        0 <= u <= u32::MAX,
    ensures
        u32_to_be(u).len() == 4,
        u32_from_be(u32_to_be(u) + tail) == u,
{
    reveal(u32_to_be);
}

/// Decoding the first four bytes as an unsigned number and encoding it gives
/// those bytes back.
proof fn lemma_u32_decode_encode(s: Seq<u8>)
    requires
        s.len() >= 4,
    ensures
        0 <= u32_from_be(s) <= u32::MAX,
        u32_to_be(u32_from_be(s)) == s.take(4),
{
    reveal(u32_to_be);
    lemma_digits(s[0], s[1], s[2], s[3]);
    assert(u32_to_be(u32_from_be(s)) =~= s.take(4));
}

/// Encoding a 16-bit number and decoding the bytes gives the number back.
pub proof fn lemma_i16_encode_decode(x: int)
    requires
        i16::MIN <= x <= i16::MAX,
    ensures
        i16_to_be(x).len() == 2,
        i16_from_be(i16_to_be(x)) == x,
{
    reveal(i16_to_be);
}

/// Two bytes decode to a number that fits 16 bits, and encoding that number
/// gives the bytes back.
pub proof fn lemma_i16_decode_encode(s: Seq<u8>)
    requires
        s.len() == 2,
    ensures
        i16::MIN <= i16_from_be(s) <= i16::MAX,
        i16_to_be(i16_from_be(s)) == s,
{
    reveal(i16_to_be);
    assert(i16_to_be(i16_from_be(s)) =~= s);
}

/// Encoding a 32-bit number and decoding the bytes gives the number back.
pub proof fn lemma_i32_encode_decode(x: int)
    requires
        i32::MIN <= x <= i32::MAX,
    ensures
        i32_to_be(x).len() == 4,
        i32_from_be(i32_to_be(x)) == x,
{
    let u = if x < 0 {
        x + 0x1_0000_0000
    } else {
        x
    };
    lemma_u32_encode_decode(u, Seq::empty());
    assert(u32_to_be(u) + Seq::<u8>::empty() =~= u32_to_be(u));
}

/// Four bytes decode to a number that fits 32 bits, and encoding that number
/// gives the bytes back.
pub proof fn lemma_i32_decode_encode(s: Seq<u8>)
    requires
        s.len() == 4,
    ensures
        i32::MIN <= i32_from_be(s) <= i32::MAX,
        i32_to_be(i32_from_be(s)) == s,
{
    lemma_u32_decode_encode(s);
    assert(s.take(4) =~= s);
}

/// Encoding a 64-bit number and decoding the bytes gives the number back.
pub proof fn lemma_i64_encode_decode(x: int)
    requires
        i64::MIN <= x <= i64::MAX,
    ensures
        i64_to_be(x).len() == 8,
        i64_from_be(i64_to_be(x)) == x,
{
    let u = if x < 0 {
        x + 0x1_0000_0000_0000_0000
    } else {
        x
    };
    let hi = u / 0x1_0000_0000;
    let lo = u % 0x1_0000_0000;
    let bytes = i64_to_be(x);
    lemma_u32_encode_decode(hi, u32_to_be(lo));
    lemma_u32_encode_decode(lo, Seq::empty());
    assert(bytes.skip(4) =~= u32_to_be(lo) + Seq::<u8>::empty());
}

/// Eight bytes decode to a number that fits 64 bits, and encoding that
/// number gives the bytes back.
pub proof fn lemma_i64_decode_encode(s: Seq<u8>)
    requires
        s.len() == 8,
    ensures
        i64::MIN <= i64_from_be(s) <= i64::MAX,
        i64_to_be(i64_from_be(s)) == s,
{
    let hi = u32_from_be(s);
    let lo = u32_from_be(s.skip(4));
    lemma_u32_decode_encode(s);
    lemma_u32_decode_encode(s.skip(4));
    lemma_halves(hi, lo);
    assert(s.take(4) + s.skip(4).take(4) =~= s);
}

/// Calls `byteorder::ByteOrder::read_i16` of `byteorder::BigEndian`, which
/// reads the first two bytes of `buf` as a signed number, most significant
/// byte first. It panics on a shorter slice, which `requires` leaves out.
#[verifier::external_body]
pub(crate) fn be_read_i16(buf: &[u8]) -> (r: i16)
    requires
        buf@.len() >= 2,
    ensures
        r as int == i16_from_be(buf@),
{
    BigEndian::read_i16(buf)
}

/// Calls `byteorder::ByteOrder::read_i32` of `byteorder::BigEndian`, which
/// reads the first four bytes of `buf` as a signed number, most significant
/// byte first. It panics on a shorter slice, which `requires` leaves out.
#[verifier::external_body]
pub(crate) fn be_read_i32(buf: &[u8]) -> (r: i32)
    requires
        buf@.len() >= 4,
    ensures
        r as int == i32_from_be(buf@),
{
    BigEndian::read_i32(buf)
}

/// Calls `byteorder::ByteOrder::read_i64` of `byteorder::BigEndian`, which
/// reads the first eight bytes of `buf` as a signed number, most significant
/// byte first. It panics on a shorter slice, which `requires` leaves out.
#[verifier::external_body]
pub(crate) fn be_read_i64(buf: &[u8]) -> (r: i64)
    requires
        buf@.len() >= 8,
    ensures
        r as int == i64_from_be(buf@),
{
    BigEndian::read_i64(buf)
}

} // verus!
