//! The tag bytes of the wire format.

use crate::endian::twos8;
use vstd::prelude::*;

verus! {

/// One variant per family of tag bytes. A variant with a payload folds a
/// small value or a small length into the tag byte itself.
#[derive(Clone, Copy, Debug, PartialEq, Eq, Structural)]
pub enum Marker {
    PositiveFixnum(u8),
    NegativeFixnum(i8),
    Null,
    True,
    False,
    U8,
    U16,
    U32,
    U64,
    I8,
    I16,
    I32,
    I64,
    F32,
    F64,
    FixedString(u8),
    Str8,
    Str16,
    Str32,
    Bin8,
    Bin16,
    Bin32,
    FixedArray(u8),
    Array16,
    Array32,
    FixedMap(u8),
    Map16,
    Map32,
    FixExt1,
    FixExt2,
    FixExt4,
    FixExt8,
    FixExt16,
    Ext8,
    Ext16,
    Ext32,
}

impl Marker {
    /// Whether the payload lies in the range that its family has on the
    /// wire. Variants without a payload always do.
    pub open spec fn in_domain(self) -> bool {
        match self {
            Marker::PositiveFixnum(v) => v < 128,
            Marker::NegativeFixnum(v) => -32 <= v < 0,
            Marker::FixedString(len) => len < 32,
            Marker::FixedArray(len) => len < 16,
            Marker::FixedMap(len) => len < 16,
            _ => true,
        }
    }

    /// The tag byte that stands for the marker.
    pub open spec fn byte(self) -> u8 {
        match self {
            Marker::PositiveFixnum(v) => v,
            Marker::NegativeFixnum(v) => twos8(v),
            Marker::Null => 0xc0,
            Marker::True => 0xc3,
            Marker::False => 0xc2,
            Marker::U8 => 0xcc,
            Marker::U16 => 0xcd,
            Marker::U32 => 0xce,
            Marker::U64 => 0xcf,
            Marker::I8 => 0xd0,
            Marker::I16 => 0xd1,
            Marker::I32 => 0xd2,
            Marker::I64 => 0xd3,
            Marker::F32 => 0xca,
            Marker::F64 => 0xcb,
            Marker::FixedString(len) => 0xa0u8 | len,
            Marker::Str8 => 0xd9,
            Marker::Str16 => 0xda,
            Marker::Str32 => 0xdb,
            Marker::Bin8 => 0xc4,
            Marker::Bin16 => 0xc5,
            Marker::Bin32 => 0xc6,
            Marker::FixedArray(len) => 0x90u8 | len,
            Marker::Array16 => 0xdc,
            Marker::Array32 => 0xdd,
            Marker::FixedMap(len) => 0x80u8 | len,
            Marker::Map16 => 0xde,
            Marker::Map32 => 0xdf,
            Marker::FixExt1 => 0xd4,
            Marker::FixExt2 => 0xd5,
            Marker::FixExt4 => 0xd6,
            Marker::FixExt8 => 0xd7,
            Marker::FixExt16 => 0xd8,
            Marker::Ext8 => 0xc7,
            Marker::Ext16 => 0xc8,
            Marker::Ext32 => 0xc9,
        }
    }

    /// The tag byte of the marker.
    pub fn to_u8(&self) -> (r: u8)
        ensures
            r == self.byte(),
    {
        match *self {
            Marker::PositiveFixnum(v) => v,
            Marker::NegativeFixnum(v) => crate::endian::byte_of_i8(v),
            Marker::Null => 0xc0,
            Marker::True => 0xc3,
            Marker::False => 0xc2,
            Marker::U8 => 0xcc,
            Marker::U16 => 0xcd,
            Marker::U32 => 0xce,
            Marker::U64 => 0xcf,
            Marker::I8 => 0xd0,
            Marker::I16 => 0xd1,
            Marker::I32 => 0xd2,
            Marker::I64 => 0xd3,
            Marker::F32 => 0xca,
            Marker::F64 => 0xcb,
            Marker::FixedString(len) => 0xa0u8 | len,
            Marker::Str8 => 0xd9,
            Marker::Str16 => 0xda,
            Marker::Str32 => 0xdb,
            Marker::Bin8 => 0xc4,
            Marker::Bin16 => 0xc5,
            Marker::Bin32 => 0xc6,
            Marker::FixedArray(len) => 0x90u8 | len,
            Marker::Array16 => 0xdc,
            Marker::Array32 => 0xdd,
            Marker::FixedMap(len) => 0x80u8 | len,
            Marker::Map16 => 0xde,
            Marker::Map32 => 0xdf,
            Marker::FixExt1 => 0xd4,
            Marker::FixExt2 => 0xd5,
            Marker::FixExt4 => 0xd6,
            Marker::FixExt8 => 0xd7,
            Marker::FixExt16 => 0xd8,
            Marker::Ext8 => 0xc7,
            Marker::Ext16 => 0xc8,
            Marker::Ext32 => 0xc9,
        }
    }
}

/// Within its family's range a folded length is simply added to the
/// family's base byte.
pub proof fn lemma_folded_bytes(len: u8)
    ensures
        len < 32 ==> Marker::FixedString(len).byte() == 0xa0 + len,
        len < 16 ==> Marker::FixedArray(len).byte() == 0x90 + len,
        len < 16 ==> Marker::FixedMap(len).byte() == 0x80 + len,
{
    assert(len < 32 ==> 0xa0u8 | len == 0xa0 + len) by (bit_vector);
    assert(len < 16 ==> 0x90u8 | len == 0x90 + len) by (bit_vector);
    assert(len < 16 ==> 0x80u8 | len == 0x80 + len) by (bit_vector);
}

/// No two markers in their domains share a tag byte.
pub proof fn lemma_byte_injective(a: Marker, b: Marker)
    requires
        a.in_domain(),
        b.in_domain(),
        a.byte() == b.byte(),
    ensures
        a == b,
{
    lemma_marker_family(a);
    lemma_marker_family(b);
}

/// The range of tag bytes that each family with a payload occupies.
proof fn lemma_marker_family(m: Marker)
    requires
        m.in_domain(),
    ensures
        m matches Marker::PositiveFixnum(v) ==> m.byte() == v && m.byte() < 0x80,
        m matches Marker::FixedMap(len) ==> m.byte() == 0x80 + len && 0x80 <= m.byte() < 0x90,
        m matches Marker::FixedArray(len) ==> m.byte() == 0x90 + len && 0x90 <= m.byte() < 0xa0,
        m matches Marker::FixedString(len) ==> m.byte() == 0xa0 + len && 0xa0 <= m.byte() < 0xc0,
        m matches Marker::NegativeFixnum(v) ==> m.byte() == 0x100 + v && 0xe0 <= m.byte(),
{
    match m {
        Marker::FixedMap(len) => lemma_folded_bytes(len),
        Marker::FixedArray(len) => lemma_folded_bytes(len),
        Marker::FixedString(len) => lemma_folded_bytes(len),
        _ => {},
    }
}

} // verus!
