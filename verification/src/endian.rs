//! Big-endian byte images of the integers that travel on the wire.
//!
//! The specification side is plain arithmetic on `u8` sequences; the
//! executable side hands the value to `byteorder` and trusts it to produce
//! exactly those sequences.

use byteorder::BigEndian;
use byteorder::ByteOrder;
use vstd::prelude::*;

verus! {

/// The byte that holds `v` in two's complement.
pub open spec fn twos8(v: i8) -> u8 {
    if v >= 0 {
        v as u8
    } else {
        (v + 0x100) as u8
    }
}

/// The 16-bit word that holds `v` in two's complement.
pub open spec fn twos16(v: i16) -> u16 {
    if v >= 0 {
        v as u16
    } else {
        (v + 0x1_0000) as u16
    }
}

/// The 32-bit word that holds `v` in two's complement.
pub open spec fn twos32(v: i32) -> u32 {
    if v >= 0 {
        v as u32
    } else {
        (v + 0x1_0000_0000) as u32
    }
}

/// The 64-bit word that holds `v` in two's complement.
pub open spec fn twos64(v: i64) -> u64 {
    if v >= 0 {
        v as u64
    } else {
        (v + 0x1_0000_0000_0000_0000) as u64
    }
}

/// The two bytes of `v`, most significant first.
pub open spec fn be16(v: u16) -> Seq<u8> {
    seq![(v / 0x100) as u8, (v % 0x100) as u8]
}

/// The four bytes of `v`, most significant first.
pub open spec fn be32(v: u32) -> Seq<u8> {
    seq![
        (v / 0x100_0000) as u8,
        (v / 0x1_0000 % 0x100) as u8,
        (v / 0x100 % 0x100) as u8,
        (v % 0x100) as u8,
    ]
}

/// The eight bytes of `v`, most significant first.
pub open spec fn be64(v: u64) -> Seq<u8> {
    seq![
        (v / 0x100_0000_0000_0000) as u8,
        (v / 0x1_0000_0000_0000 % 0x100) as u8,
        (v / 0x100_0000_0000 % 0x100) as u8,
        (v / 0x1_0000_0000 % 0x100) as u8,
        (v / 0x100_0000 % 0x100) as u8,
        (v / 0x1_0000 % 0x100) as u8,
        (v / 0x100 % 0x100) as u8,
        (v % 0x100) as u8,
    ]
}

/// The number that a byte string spells when read most significant byte
/// first.
pub open spec fn from_be(bytes: Seq<u8>) -> nat
    decreases bytes.len(),
{
    if bytes.len() == 0 {
        0
    } else {
        from_be(bytes.drop_last()) * 0x100 + bytes.last() as nat
    }
}

/// The signed number behind the two's complement word `word` of `bits`
/// binary digits, given as the power `modulus == 2^bits`.
pub open spec fn from_twos(word: nat, modulus: nat) -> int {
    if 2 * word >= modulus {
        word - modulus
    } else {
        word as int
    }
}

/// Reading back the two bytes of a 16-bit word gives the word.
pub proof fn lemma_be16_round_trip(v: u16)
    ensures
        be16(v).len() == 2,
        from_be(be16(v)) == v,
{
    let b = be16(v);
    reveal_with_fuel(from_be, 3);
    assert(b.drop_last() =~= b.take(1));
    assert(b.take(1).drop_last() =~= b.take(0));
}

/// Reading back the four bytes of a 32-bit word gives the word.
pub proof fn lemma_be32_round_trip(v: u32)
    ensures
        be32(v).len() == 4,
        from_be(be32(v)) == v,
{
    let b = be32(v);
    reveal_with_fuel(from_be, 5);
    assert(b.drop_last() =~= b.take(3));
    assert(b.take(3).drop_last() =~= b.take(2));
    assert(b.take(2).drop_last() =~= b.take(1));
    assert(b.take(1).drop_last() =~= b.take(0));
}

/// Reading back the eight bytes of a 64-bit word gives the word.
pub proof fn lemma_be64_round_trip(v: u64)
    ensures
        be64(v).len() == 8,
        from_be(be64(v)) == v,
{
    let b = be64(v);
    reveal_with_fuel(from_be, 9);
    assert(b.drop_last() =~= b.take(7));
    assert(b.take(7).drop_last() =~= b.take(6));
    assert(b.take(6).drop_last() =~= b.take(5));
    assert(b.take(5).drop_last() =~= b.take(4));
    assert(b.take(4).drop_last() =~= b.take(3));
    assert(b.take(3).drop_last() =~= b.take(2));
    assert(b.take(2).drop_last() =~= b.take(1));
    assert(b.take(1).drop_last() =~= b.take(0));
}

/// Two's complement loses nothing: the signed reading of each image is the
/// number it was made from.
pub proof fn lemma_twos_round_trip(a: i8, b: i16, c: i32, d: i64)
    ensures
        from_twos(twos8(a) as nat, 0x100) == a,
        from_twos(twos16(b) as nat, 0x1_0000) == b,
        from_twos(twos32(c) as nat, 0x1_0000_0000) == c,
        from_twos(twos64(d) as nat, 0x1_0000_0000_0000_0000) == d,
{
}

/// The byte that carries `v`: its two's complement image.
pub(crate) fn byte_of_i8(v: i8) -> (r: u8)
    ensures
        r == twos8(v),
{
    assert(v as u8 == twos8(v)) by (bit_vector);
    v as u8
}

/// `byteorder::BigEndian::write_u16` on a two-byte buffer: trusted to leave
/// in it the two bytes of `n`, most significant first.
#[verifier::external_body]
pub(crate) fn be_u16(n: u16) -> (buf: [u8; 2])
    ensures
        buf@ == be16(n),
{
    let mut buf: [u8; 2] = [0u8; 2];
    BigEndian::write_u16(&mut buf, n);
    buf
}

/// `byteorder::BigEndian::write_u32` on a four-byte buffer: trusted to leave
/// in it the four bytes of `n`, most significant first.
#[verifier::external_body]
pub(crate) fn be_u32(n: u32) -> (buf: [u8; 4])
    ensures
        buf@ == be32(n),
{
    let mut buf: [u8; 4] = [0u8; 4];
    BigEndian::write_u32(&mut buf, n);
    buf
}

/// `byteorder::BigEndian::write_u64` on an eight-byte buffer: trusted to
/// leave in it the eight bytes of `n`, most significant first.
#[verifier::external_body]
pub(crate) fn be_u64(n: u64) -> (buf: [u8; 8])
    ensures
        buf@ == be64(n),
{
    let mut buf: [u8; 8] = [0u8; 8];
    BigEndian::write_u64(&mut buf, n);
    buf
}

/// `byteorder::BigEndian::write_i16` on a two-byte buffer: trusted to leave
/// in it the two's complement image of `n`, most significant byte first.
#[verifier::external_body]
pub(crate) fn be_i16(n: i16) -> (buf: [u8; 2])
    ensures
        buf@ == be16(twos16(n)),
{
    let mut buf: [u8; 2] = [0u8; 2];
    BigEndian::write_i16(&mut buf, n);
    buf
}

/// `byteorder::BigEndian::write_i32` on a four-byte buffer: trusted to leave
/// in it the two's complement image of `n`, most significant byte first.
#[verifier::external_body]
pub(crate) fn be_i32(n: i32) -> (buf: [u8; 4])
    ensures
        buf@ == be32(twos32(n)),
{
    let mut buf: [u8; 4] = [0u8; 4];
    BigEndian::write_i32(&mut buf, n);
    buf
}

/// `byteorder::BigEndian::write_i64` on an eight-byte buffer: trusted to
/// leave in it the two's complement image of `n`, most significant byte
/// first.
#[verifier::external_body]
pub(crate) fn be_i64(n: i64) -> (buf: [u8; 8])
    ensures
        buf@ == be64(twos64(n)),
{
    let mut buf: [u8; 8] = [0u8; 8];
    BigEndian::write_i64(&mut buf, n);
    buf
}

} // verus!
