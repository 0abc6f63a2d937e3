//! The wire form of every value the encoder writes, as byte sequences.
//!
//! Fixed forms spell a value in a form chosen by the caller. Selected forms
//! pick, for a number or a length, the shortest form that holds it.

use crate::endian::be16;
use crate::endian::be32;
use crate::endian::be64;
use crate::endian::from_be;
use crate::endian::from_twos;
use crate::endian::lemma_be16_round_trip;
use crate::endian::lemma_be32_round_trip;
use crate::endian::lemma_be64_round_trip;
use crate::endian::twos16;
use crate::endian::twos32;
use crate::endian::twos64;
use crate::endian::twos8;
use crate::marker::Marker;
use vstd::prelude::*;

verus! {

/// The empty value.
pub open spec fn nil_encoding() -> Seq<u8> {
    seq![0xc0u8]
}

/// A truth value.
pub open spec fn bool_encoding(val: bool) -> Seq<u8> {
    if val {
        seq![0xc3u8]
    } else {
        seq![0xc2u8]
    }
}

/// A number in `0..128` as a single byte: the number itself.
pub open spec fn pfix_encoding(val: u8) -> Seq<u8> {
    seq![val]
}

/// A number in `-32..0` as a single byte: its two's complement image.
pub open spec fn nfix_encoding(val: i8) -> Seq<u8> {
    seq![twos8(val)]
}

/// An unsigned byte behind its tag, whatever its size.
pub open spec fn u8_encoding(val: u8) -> Seq<u8> {
    seq![0xccu8, val]
}

/// An unsigned 16-bit number behind its tag.
pub open spec fn u16_encoding(val: u16) -> Seq<u8> {
    seq![0xcdu8] + be16(val)
}

/// An unsigned 32-bit number behind its tag.
pub open spec fn u32_encoding(val: u32) -> Seq<u8> {
    seq![0xceu8] + be32(val)
}

/// An unsigned 64-bit number behind its tag.
pub open spec fn u64_encoding(val: u64) -> Seq<u8> {
    seq![0xcfu8] + be64(val)
}

/// A signed byte behind its tag, whatever its size.
pub open spec fn i8_encoding(val: i8) -> Seq<u8> {
    seq![0xd0u8, twos8(val)]
}

/// A signed 16-bit number behind its tag.
pub open spec fn i16_encoding(val: i16) -> Seq<u8> {
    seq![0xd1u8] + be16(twos16(val))
}

/// A signed 32-bit number behind its tag.
pub open spec fn i32_encoding(val: i32) -> Seq<u8> {
    seq![0xd2u8] + be32(twos32(val))
}

/// A signed 64-bit number behind its tag.
pub open spec fn i64_encoding(val: i64) -> Seq<u8> {
    seq![0xd3u8] + be64(twos64(val))
}

/// A single-precision number, given by its 32 bits, behind its tag.
pub open spec fn f32_encoding(bits: u32) -> Seq<u8> {
    seq![0xcau8] + be32(bits)
}

/// A double-precision number, given by its 64 bits, behind its tag.
pub open spec fn f64_encoding(bits: u64) -> Seq<u8> {
    seq![0xcbu8] + be64(bits)
}

/// The marker of the shortest form that holds the unsigned number `val`.
pub open spec fn uint_marker(val: u64) -> Marker {
    if val < 128 {
        Marker::PositiveFixnum(val as u8)
    } else if val < 256 {
        Marker::U8
    } else if val < 65536 {
        Marker::U16
    } else if val < 4294967296 {
        Marker::U32
    } else {
        Marker::U64
    }
}

/// The shortest form that holds the unsigned number `val`.
pub open spec fn uint_encoding(val: u64) -> Seq<u8> {
    if val < 128 {
        pfix_encoding(val as u8)
    } else if val < 256 {
        u8_encoding(val as u8)
    } else if val < 65536 {
        u16_encoding(val as u16)
    } else if val < 4294967296 {
        u32_encoding(val as u32)
    } else {
        u64_encoding(val)
    }
}

/// The marker of the form chosen for the signed number `val`: the single
/// byte for `-32..=0`, else the narrowest signed width that holds it.
pub open spec fn sint_marker(val: i64) -> Marker {
    if -32 <= val <= 0 {
        Marker::NegativeFixnum(val as i8)
    } else if -128 <= val < 128 {
        Marker::I8
    } else if -32768 <= val < 32768 {
        Marker::I16
    } else if -2147483648 <= val <= 2147483647 {
        Marker::I32
    } else {
        Marker::I64
    }
}

/// The form chosen for the signed number `val`.
pub open spec fn sint_encoding(val: i64) -> Seq<u8> {
    if -32 <= val <= 0 {
        nfix_encoding(val as i8)
    } else if -128 <= val < 128 {
        i8_encoding(val as i8)
    } else if -32768 <= val < 32768 {
        i16_encoding(val as i16)
    } else if -2147483648 <= val <= 2147483647 {
        i32_encoding(val as i32)
    } else {
        i64_encoding(val)
    }
}

/// The marker that heads a string of `len` bytes.
pub open spec fn str_len_marker(len: u32) -> Marker {
    if len < 32 {
        Marker::FixedString(len as u8)
    } else if len < 256 {
        Marker::Str8
    } else if len < 65536 {
        Marker::Str16
    } else {
        Marker::Str32
    }
}

/// The header of a string of `len` bytes.
pub open spec fn str_len_encoding(len: u32) -> Seq<u8> {
    if len < 32 {
        seq![(0xa0 + len) as u8]
    } else if len < 256 {
        seq![0xd9u8, len as u8]
    } else if len < 65536 {
        seq![0xdau8] + be16(len as u16)
    } else {
        seq![0xdbu8] + be32(len)
    }
}

/// The marker that heads a binary blob of `len` bytes.
pub open spec fn bin_len_marker(len: u32) -> Marker {
    if len < 256 {
        Marker::Bin8
    } else if len < 65536 {
        Marker::Bin16
    } else {
        Marker::Bin32
    }
}

/// The header of a binary blob of `len` bytes.
pub open spec fn bin_len_encoding(len: u32) -> Seq<u8> {
    if len < 256 {
        seq![0xc4u8, len as u8]
    } else if len < 65536 {
        seq![0xc5u8] + be16(len as u16)
    } else {
        seq![0xc6u8] + be32(len)
    }
}

/// The marker that heads an array of `len` elements.
pub open spec fn array_len_marker(len: u32) -> Marker {
    if len < 16 {
        Marker::FixedArray(len as u8)
    } else if len < 65536 {
        Marker::Array16
    } else {
        Marker::Array32
    }
}

/// The header of an array of `len` elements.
pub open spec fn array_len_encoding(len: u32) -> Seq<u8> {
    if len < 16 {
        seq![(0x90 + len) as u8]
    } else if len < 65536 {
        seq![0xdcu8] + be16(len as u16)
    } else {
        seq![0xddu8] + be32(len)
    }
}

/// The marker that heads a map of `len` entries.
pub open spec fn map_len_marker(len: u32) -> Marker {
    if len < 16 {
        Marker::FixedMap(len as u8)
    } else if len < 65536 {
        Marker::Map16
    } else {
        Marker::Map32
    }
}

/// The header of a map of `len` entries.
pub open spec fn map_len_encoding(len: u32) -> Seq<u8> {
    if len < 16 {
        seq![(0x80 + len) as u8]
    } else if len < 65536 {
        seq![0xdeu8] + be16(len as u16)
    } else {
        seq![0xdfu8] + be32(len)
    }
}

/// The marker that heads an extension payload of `len` bytes.
pub open spec fn ext_marker(len: u32) -> Marker {
    if len == 1 {
        Marker::FixExt1
    } else if len == 2 {
        Marker::FixExt2
    } else if len == 4 {
        Marker::FixExt4
    } else if len == 8 {
        Marker::FixExt8
    } else if len == 16 {
        Marker::FixExt16
    } else if len < 256 {
        Marker::Ext8
    } else if len < 65536 {
        Marker::Ext16
    } else {
        Marker::Ext32
    }
}

/// The header of an extension payload of `len` bytes with type tag
/// `typeid`. The five fixed lengths need no length field; the type tag
/// always comes last, as it is.
pub open spec fn ext_meta_encoding(len: u32, typeid: i8) -> Seq<u8> {
    if len == 1 {
        seq![0xd4u8, twos8(typeid)]
    } else if len == 2 {
        seq![0xd5u8, twos8(typeid)]
    } else if len == 4 {
        seq![0xd6u8, twos8(typeid)]
    } else if len == 8 {
        seq![0xd7u8, twos8(typeid)]
    } else if len == 16 {
        seq![0xd8u8, twos8(typeid)]
    } else if len < 256 {
        seq![0xc7u8, len as u8, twos8(typeid)]
    } else if len < 65536 {
        seq![0xc8u8] + be16(len as u16) + seq![twos8(typeid)]
    } else {
        seq![0xc9u8] + be32(len) + seq![twos8(typeid)]
    }
}

/// A length as the wire carries it: its low 32 bits.
pub open spec fn wire_len(len: usize) -> u32 {
    (len as int % 0x1_0000_0000) as u32
}

/// A string: the header for the number of bytes of its UTF-8 form, and
/// those bytes.
pub open spec fn str_encoding(chars: Seq<char>) -> Seq<u8> {
    let bytes = vstd::utf8::encode_utf8(chars);
    str_len_encoding(wire_len(bytes.len() as usize)) + bytes
}

/// The number that an integer form spells, or `None` where `bytes` is not
/// exactly one integer form.
pub open spec fn decoded_int(bytes: Seq<u8>) -> Option<int> {
    if bytes.len() == 0 {
        None
    } else {
        let tag = bytes[0];
        let data = bytes.skip(1);
        if tag < 0x80 && data.len() == 0 {
            Some(tag as int)
        } else if tag >= 0xe0 && data.len() == 0 {
            Some(tag - 0x100)
        } else if tag == 0xcc && data.len() == 1 {
            Some(from_be(data) as int)
        } else if tag == 0xcd && data.len() == 2 {
            Some(from_be(data) as int)
        } else if tag == 0xce && data.len() == 4 {
            Some(from_be(data) as int)
        } else if tag == 0xcf && data.len() == 8 {
            Some(from_be(data) as int)
        } else if tag == 0xd0 && data.len() == 1 {
            Some(from_twos(from_be(data), 0x100))
        } else if tag == 0xd1 && data.len() == 2 {
            Some(from_twos(from_be(data), 0x1_0000))
        } else if tag == 0xd2 && data.len() == 4 {
            Some(from_twos(from_be(data), 0x1_0000_0000))
        } else if tag == 0xd3 && data.len() == 8 {
            Some(from_twos(from_be(data), 0x1_0000_0000_0000_0000))
        } else {
            None
        }
    }
}

/// Whether the integer form headed by `marker` can spell the number `val`.
pub open spec fn holds_int(marker: Marker, val: int) -> bool {
    match marker {
        Marker::PositiveFixnum(v) => v < 128 && val == v,
        Marker::NegativeFixnum(v) => -32 <= v < 0 && val == v,
        Marker::U8 => 0 <= val < 0x100,
        Marker::U16 => 0 <= val < 0x1_0000,
        Marker::U32 => 0 <= val < 0x1_0000_0000,
        Marker::U64 => 0 <= val < 0x1_0000_0000_0000_0000,
        Marker::I8 => -0x80 <= val < 0x80,
        Marker::I16 => -0x8000 <= val < 0x8000,
        Marker::I32 => -0x8000_0000 <= val < 0x8000_0000,
        Marker::I64 => -0x8000_0000_0000_0000 <= val < 0x8000_0000_0000_0000,
        _ => false,
    }
}

/// Whether `marker` heads an unsigned integer form.
pub open spec fn is_unsigned_form(marker: Marker) -> bool {
    marker is PositiveFixnum || marker is U8 || marker is U16 || marker is U32 || marker is U64
}

/// Whether `marker` heads a signed integer form.
pub open spec fn is_signed_form(marker: Marker) -> bool {
    marker is NegativeFixnum || marker is I8 || marker is I16 || marker is I32 || marker is I64
}

/// Whether `marker` heads the header of a string.
pub open spec fn is_str_form(marker: Marker) -> bool {
    marker is FixedString || marker is Str8 || marker is Str16 || marker is Str32
}

/// Whether `marker` heads the header of a binary blob.
pub open spec fn is_bin_form(marker: Marker) -> bool {
    marker is Bin8 || marker is Bin16 || marker is Bin32
}

/// Whether `marker` heads the header of an array.
pub open spec fn is_array_form(marker: Marker) -> bool {
    marker is FixedArray || marker is Array16 || marker is Array32
}

/// Whether `marker` heads the header of a map.
pub open spec fn is_map_form(marker: Marker) -> bool {
    marker is FixedMap || marker is Map16 || marker is Map32
}

/// Whether `marker` heads the header of an extension payload.
pub open spec fn is_ext_form(marker: Marker) -> bool {
    marker is FixExt1 || marker is FixExt2 || marker is FixExt4 || marker is FixExt8
        || marker is FixExt16 || marker is Ext8 || marker is Ext16 || marker is Ext32
}

/// Whether the header form headed by `marker` can carry the length `len`.
pub open spec fn holds_len(marker: Marker, len: u32) -> bool {
    match marker {
        Marker::FixedString(l) => l < 32 && l == len,
        Marker::FixedArray(l) => l < 16 && l == len,
        Marker::FixedMap(l) => l < 16 && l == len,
        Marker::FixExt1 => len == 1,
        Marker::FixExt2 => len == 2,
        Marker::FixExt4 => len == 4,
        Marker::FixExt8 => len == 8,
        Marker::FixExt16 => len == 16,
        Marker::Str8 | Marker::Bin8 | Marker::Ext8 => len < 0x100,
        Marker::Str16 | Marker::Bin16 | Marker::Array16 | Marker::Map16 | Marker::Ext16 => len
            < 0x1_0000,
        Marker::Str32 | Marker::Bin32 | Marker::Array32 | Marker::Map32 | Marker::Ext32 => true,
        _ => false,
    }
}

/// The number of bytes that the form headed by `marker` puts on the wire
/// before any payload of a string, blob, array, map or extension: the tag
/// byte and what is fixed behind it.
pub open spec fn form_len(marker: Marker) -> nat {
    match marker {
        Marker::U8 | Marker::I8 | Marker::Str8 | Marker::Bin8 => 2,
        Marker::U16 | Marker::I16 | Marker::Str16 | Marker::Bin16 => 3,
        Marker::Array16 | Marker::Map16 => 3,
        Marker::U32 | Marker::I32 | Marker::F32 | Marker::Str32 | Marker::Bin32 => 5,
        Marker::Array32 | Marker::Map32 => 5,
        Marker::U64 | Marker::I64 | Marker::F64 => 9,
        Marker::FixExt1 | Marker::FixExt2 | Marker::FixExt4 | Marker::FixExt8 => 2,
        Marker::FixExt16 => 2,
        Marker::Ext8 => 3,
        Marker::Ext16 => 4,
        Marker::Ext32 => 6,
        _ => 1,
    }
}

/// An unsigned number below 128 goes out as one byte, the number itself.
pub proof fn lemma_uint_fixnum(val: u64)
    requires
        val < 128,
    ensures
        uint_encoding(val) == seq![val as u8],
{
}

/// An unsigned number in `128..256` goes out as the tag `0xcc` and the
/// number.
pub proof fn lemma_uint_byte(val: u64)
    requires
        128 <= val < 256,
    ensures
        uint_encoding(val) == seq![0xccu8, val as u8],
{
}

/// A signed number in `-32..=0` goes out as one byte, its two's complement
/// image: `256 + val` below zero, and zero for zero.
pub proof fn lemma_sint_fixnum(val: i64)
    requires
        -32 <= val <= 0,
    ensures
        sint_encoding(val).len() == 1,
        sint_encoding(val)[0] == (if val < 0 {
            0x100 + val
        } else {
            0
        }),
{
}

/// A fixed form has the length of its width whatever the number: a small
/// number is not shortened.
pub proof fn lemma_fixed_form_lengths(a: u8, b: u16, c: u32, d: u64, e: i8, f: i16, g: i32, h: i64)
    ensures
        u8_encoding(a).len() == 2,
        u16_encoding(b).len() == 3,
        u32_encoding(c).len() == 5,
        u64_encoding(d).len() == 9,
        i8_encoding(e).len() == 2,
        i16_encoding(f).len() == 3,
        i32_encoding(g).len() == 5,
        i64_encoding(h).len() == 9,
        f32_encoding(c).len() == 5,
        f64_encoding(d).len() == 9,
{
}

/// What a selecting writer puts out starts with the tag byte of the marker
/// it returns and has the length of that marker's form.
pub proof fn lemma_selected_forms(val: u64, sval: i64, len: u32, typeid: i8)
    ensures
        uint_encoding(val)[0] == uint_marker(val).byte(),
        uint_encoding(val).len() == form_len(uint_marker(val)),
        sint_encoding(sval)[0] == sint_marker(sval).byte(),
        sint_encoding(sval).len() == form_len(sint_marker(sval)),
        str_len_encoding(len)[0] == str_len_marker(len).byte(),
        str_len_encoding(len).len() == form_len(str_len_marker(len)),
        bin_len_encoding(len)[0] == bin_len_marker(len).byte(),
        bin_len_encoding(len).len() == form_len(bin_len_marker(len)),
        array_len_encoding(len)[0] == array_len_marker(len).byte(),
        array_len_encoding(len).len() == form_len(array_len_marker(len)),
        map_len_encoding(len)[0] == map_len_marker(len).byte(),
        map_len_encoding(len).len() == form_len(map_len_marker(len)),
        ext_meta_encoding(len, typeid)[0] == ext_marker(len).byte(),
        ext_meta_encoding(len, typeid).len() == form_len(ext_marker(len)),
{
    crate::marker::lemma_folded_bytes(len as u8);
}

/// The markers that a selecting writer returns lie in their domains, but
/// for the one the signed selector returns for zero.
pub proof fn lemma_selected_in_domain(val: u64, sval: i64, len: u32)
    ensures
        uint_marker(val).in_domain(),
        sval != 0 ==> sint_marker(sval).in_domain(),
        sint_marker(0) == Marker::NegativeFixnum(0),
        str_len_marker(len).in_domain(),
        bin_len_marker(len).in_domain(),
        array_len_marker(len).in_domain(),
        map_len_marker(len).in_domain(),
        ext_marker(len).in_domain(),
{
}

/// No integer form that can spell `val` is shorter than the one the
/// unsigned selector picks, the picked form can spell it, and no other
/// unsigned form that can is as short.
pub proof fn lemma_uint_shortest(val: u64, other: Marker)
    requires
        holds_int(other, val as int),
    ensures
        holds_int(uint_marker(val), val as int),
        uint_encoding(val).len() <= form_len(other),
        is_unsigned_form(other) && form_len(other) == uint_encoding(val).len() ==> other
            == uint_marker(val),
{
}

/// No signed integer form that can spell `val` is shorter than the one
/// the signed selector picks, and no other signed form that can is as
/// short; the picked form can spell `val` unless `val` is zero, which goes
/// out as the single byte zero.
pub proof fn lemma_sint_shortest(val: i64, other: Marker)
    requires
        is_signed_form(other),
        holds_int(other, val as int),
    ensures
        val != 0 ==> holds_int(sint_marker(val), val as int),
        sint_encoding(val).len() <= form_len(other),
        val != 0 && form_len(other) == sint_encoding(val).len() ==> other == sint_marker(val),
{
}

/// Of the forms of one family that can head a payload of `len`, the one a
/// selecting writer picks is the shortest, and the only one that short.
pub proof fn lemma_len_shortest(len: u32, other: Marker)
    requires
        holds_len(other, len),
    ensures
        holds_len(str_len_marker(len), len),
        holds_len(bin_len_marker(len), len),
        holds_len(array_len_marker(len), len),
        holds_len(map_len_marker(len), len),
        holds_len(ext_marker(len), len),
        is_str_form(other) ==> form_len(str_len_marker(len)) <= form_len(other),
        is_str_form(other) && form_len(other) == form_len(str_len_marker(len)) ==> other
            == str_len_marker(len),
        is_bin_form(other) ==> form_len(bin_len_marker(len)) <= form_len(other),
        is_bin_form(other) && form_len(other) == form_len(bin_len_marker(len)) ==> other
            == bin_len_marker(len),
        is_array_form(other) ==> form_len(array_len_marker(len)) <= form_len(other),
        is_array_form(other) && form_len(other) == form_len(array_len_marker(len)) ==> other
            == array_len_marker(len),
        is_map_form(other) ==> form_len(map_len_marker(len)) <= form_len(other),
        is_map_form(other) && form_len(other) == form_len(map_len_marker(len)) ==> other
            == map_len_marker(len),
        is_ext_form(other) ==> form_len(ext_marker(len)) <= form_len(other),
        is_ext_form(other) && form_len(other) == form_len(ext_marker(len)) ==> other
            == ext_marker(len),
{
}

/// Reading back what the unsigned selector put out gives the number.
pub proof fn lemma_uint_round_trip(val: u64)
    ensures
        decoded_int(uint_encoding(val)) == Some(val as int),
{
    let bytes = uint_encoding(val);
    let data = bytes.skip(1);
    if val < 128 {
    } else if val < 256 {
        assert(data =~= seq![val as u8]);
        lemma_from_be_single(val as u8);
    } else if val < 65536 {
        assert(data =~= be16(val as u16));
        lemma_be16_round_trip(val as u16);
    } else if val < 4294967296 {
        assert(data =~= be32(val as u32));
        lemma_be32_round_trip(val as u32);
    } else {
        assert(data =~= be64(val));
        lemma_be64_round_trip(val);
    }
}

/// Reading back what the signed selector put out gives the number.
pub proof fn lemma_sint_round_trip(val: i64)
    ensures
        decoded_int(sint_encoding(val)) == Some(val as int),
{
    let bytes = sint_encoding(val);
    let data = bytes.skip(1);
    crate::endian::lemma_twos_round_trip(val as i8, val as i16, val as i32, val);
    if -32 <= val <= 0 {
    } else if -128 <= val < 128 {
        assert(data =~= seq![twos8(val as i8)]);
        lemma_from_be_single(twos8(val as i8));
    } else if -32768 <= val < 32768 {
        assert(data =~= be16(twos16(val as i16)));
        lemma_be16_round_trip(twos16(val as i16));
    } else if -2147483648 <= val <= 2147483647 {
        assert(data =~= be32(twos32(val as i32)));
        lemma_be32_round_trip(twos32(val as i32));
    } else {
        assert(data =~= be64(twos64(val)));
        lemma_be64_round_trip(twos64(val));
    }
}

/// The selectors are canonical: encoding a number, reading it back and
/// encoding what was read gives the same bytes again.
pub proof fn lemma_canonical(val: u64, sval: i64)
    ensures
        decoded_int(uint_encoding(val)) matches Some(back) && 0 <= back <= u64::MAX
            && uint_encoding(back as u64) == uint_encoding(val),
        decoded_int(sint_encoding(sval)) matches Some(back) && i64::MIN <= back <= i64::MAX
            && sint_encoding(back as i64) == sint_encoding(sval),
{
    lemma_uint_round_trip(val);
    lemma_sint_round_trip(sval);
}

/// A single byte read as a number is the byte.
proof fn lemma_from_be_single(b: u8)
    ensures
        from_be(seq![b]) == b,
{
    reveal_with_fuel(from_be, 2);
    assert(seq![b].drop_last() =~= Seq::<u8>::empty());
}

} // verus!
