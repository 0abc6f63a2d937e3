//! The writers: one per form of the wire format, and one per kind of value
//! that picks the shortest form by itself.

use crate::endian::be16;
use crate::endian::be32;
use crate::endian::be64;
use crate::endian::be_i16;
use crate::endian::be_i32;
use crate::endian::be_i64;
use crate::endian::be_u16;
use crate::endian::be_u32;
use crate::endian::be_u64;
use crate::endian::byte_of_i8;
use crate::endian::twos16;
use crate::endian::twos32;
use crate::endian::twos64;
use crate::endian::twos8;
use crate::error::data_failure;
use crate::error::fixed_failure;
use crate::error::lemma_data_offered;
use crate::error::lemma_marker_failed;
use crate::error::lemma_single_byte_value;
use crate::error::marker_failure;
use crate::error::outcome_of;
use crate::error::value_written;
use crate::error::FixedValueWriteError;
use crate::error::MarkerWriteError;
use crate::error::ValueWriteError;
use crate::error::WriteError;
use crate::format::array_len_encoding;
use crate::format::array_len_marker;
use crate::format::bin_len_encoding;
use crate::format::bin_len_marker;
use crate::format::bool_encoding;
use crate::format::ext_marker;
use crate::format::ext_meta_encoding;
use crate::format::f32_encoding;
use crate::format::f64_encoding;
use crate::format::i16_encoding;
use crate::format::i32_encoding;
use crate::format::i64_encoding;
use crate::format::i8_encoding;
use crate::format::map_len_encoding;
use crate::format::map_len_marker;
use crate::format::nfix_encoding;
use crate::format::nil_encoding;
use crate::format::pfix_encoding;
use crate::format::sint_encoding;
use crate::format::sint_marker;
use crate::format::str_len_encoding;
use crate::format::str_len_marker;
use crate::format::u16_encoding;
use crate::format::u32_encoding;
use crate::format::u64_encoding;
use crate::format::u8_encoding;
use crate::format::uint_encoding;
use crate::format::uint_marker;
use crate::marker::lemma_folded_bytes;
use crate::marker::Marker;
use crate::sink::lemma_offered_after;
use crate::sink::lemma_offered_short;
use crate::sink::Sink;
use vstd::prelude::*;

verus! {

/// Writes the tag byte of `marker`.
fn write_marker<W: Sink>(wr: &mut W, marker: Marker) -> (r: Result<(), MarkerWriteError>)
    ensures
        old(wr).state().offered(final(wr).state(), seq![marker.byte()], marker_failure(r)),
{
    match wr.write_byte(marker.to_u8()) {
        Ok(()) => Ok(()),
        Err(err) => Err(MarkerWriteError::from(err)),
    }
}

/// Writes a value that is its own tag byte.
fn write_fixval<W: Sink>(wr: &mut W, marker: Marker) -> (r: Result<(), FixedValueWriteError>)
    ensures
        old(wr).state().offered(final(wr).state(), seq![marker.byte()], fixed_failure(r)),
{
    match wr.write_byte(marker.to_u8()) {
        Ok(()) => Ok(()),
        Err(err) => Err(FixedValueWriteError(WriteError::from(err))),
    }
}

/// Writes one byte of data.
fn write_data_u8<W: Sink>(wr: &mut W, val: u8) -> (r: Result<(), ValueWriteError>)
    ensures
        old(wr).state().offered(final(wr).state(), seq![val], data_failure(r)),
        r matches Err(err) ==> err is InvalidDataWrite,
{
    match wr.write_byte(val) {
        Ok(()) => Ok(()),
        Err(err) => Err(ValueWriteError::InvalidDataWrite(WriteError::from(err))),
    }
}

/// Writes two bytes of data, most significant first.
fn write_data_u16<W: Sink>(wr: &mut W, val: u16) -> (r: Result<(), ValueWriteError>)
    ensures
        old(wr).state().offered(final(wr).state(), be16(val), data_failure(r)),
        r matches Err(err) ==> err is InvalidDataWrite,
{
    let buf = be_u16(val);
    match wr.write_bytes(buf.as_slice()) {
        Ok(()) => Ok(()),
        Err(err) => Err(ValueWriteError::InvalidDataWrite(WriteError::from(err))),
    }
}

/// Writes four bytes of data, most significant first.
fn write_data_u32<W: Sink>(wr: &mut W, val: u32) -> (r: Result<(), ValueWriteError>)
    ensures
        old(wr).state().offered(final(wr).state(), be32(val), data_failure(r)),
        r matches Err(err) ==> err is InvalidDataWrite,
{
    let buf = be_u32(val);
    match wr.write_bytes(buf.as_slice()) {
        Ok(()) => Ok(()),
        Err(err) => Err(ValueWriteError::InvalidDataWrite(WriteError::from(err))),
    }
}

/// Writes eight bytes of data, most significant first.
fn write_data_u64<W: Sink>(wr: &mut W, val: u64) -> (r: Result<(), ValueWriteError>)
    ensures
        old(wr).state().offered(final(wr).state(), be64(val), data_failure(r)),
        r matches Err(err) ==> err is InvalidDataWrite,
{
    let buf = be_u64(val);
    match wr.write_bytes(buf.as_slice()) {
        Ok(()) => Ok(()),
        Err(err) => Err(ValueWriteError::InvalidDataWrite(WriteError::from(err))),
    }
}

/// Writes one byte of data: the two's complement image of `val`.
fn write_data_i8<W: Sink>(wr: &mut W, val: i8) -> (r: Result<(), ValueWriteError>)
    ensures
        old(wr).state().offered(final(wr).state(), seq![twos8(val)], data_failure(r)),
        r matches Err(err) ==> err is InvalidDataWrite,
{
    match wr.write_byte(byte_of_i8(val)) {
        Ok(()) => Ok(()),
        Err(err) => Err(ValueWriteError::InvalidDataWrite(WriteError::from(err))),
    }
}

/// Writes the two's complement image of `val` in two bytes.
fn write_data_i16<W: Sink>(wr: &mut W, val: i16) -> (r: Result<(), ValueWriteError>)
    ensures
        old(wr).state().offered(final(wr).state(), be16(twos16(val)), data_failure(r)),
        r matches Err(err) ==> err is InvalidDataWrite,
{
    let buf = be_i16(val);
    match wr.write_bytes(buf.as_slice()) {
        Ok(()) => Ok(()),
        Err(err) => Err(ValueWriteError::InvalidDataWrite(WriteError::from(err))),
    }
}

/// Writes the two's complement image of `val` in four bytes.
fn write_data_i32<W: Sink>(wr: &mut W, val: i32) -> (r: Result<(), ValueWriteError>)
    ensures
        old(wr).state().offered(final(wr).state(), be32(twos32(val)), data_failure(r)),
        r matches Err(err) ==> err is InvalidDataWrite,
{
    let buf = be_i32(val);
    match wr.write_bytes(buf.as_slice()) {
        Ok(()) => Ok(()),
        Err(err) => Err(ValueWriteError::InvalidDataWrite(WriteError::from(err))),
    }
}

/// Writes the two's complement image of `val` in eight bytes.
fn write_data_i64<W: Sink>(wr: &mut W, val: i64) -> (r: Result<(), ValueWriteError>)
    ensures
        old(wr).state().offered(final(wr).state(), be64(twos64(val)), data_failure(r)),
        r matches Err(err) ==> err is InvalidDataWrite,
{
    let buf = be_i64(val);
    match wr.write_bytes(buf.as_slice()) {
        Ok(()) => Ok(()),
        Err(err) => Err(ValueWriteError::InvalidDataWrite(WriteError::from(err))),
    }
}

/// Writes the empty value: the single byte `0xc0`.
pub fn write_nil<W: Sink>(wr: &mut W) -> (r: Result<(), FixedValueWriteError>)
    ensures
        old(wr).state().offered(final(wr).state(), nil_encoding(), fixed_failure(r)),
{
    write_fixval(wr, Marker::Null)
}

/// Writes a truth value: the single byte `0xc3` for true, `0xc2` for false.
pub fn write_bool<W: Sink>(wr: &mut W, val: bool) -> (r: Result<(), FixedValueWriteError>)
    ensures
        old(wr).state().offered(final(wr).state(), bool_encoding(val), fixed_failure(r)),
{
    match val {
        true => write_fixval(wr, Marker::True),
        false => write_fixval(wr, Marker::False),
    }
}

/// Writes a number below 128 as the single byte that is the number.
///
/// The caller vouches for the range; `write_uint` picks this form by
/// itself where it applies.
pub fn write_pfix<W: Sink>(wr: &mut W, val: u8) -> (r: Result<(), FixedValueWriteError>)
    requires
        val < 128,
    ensures
        old(wr).state().offered(final(wr).state(), pfix_encoding(val), fixed_failure(r)),
{
    write_fixval(wr, Marker::PositiveFixnum(val))
}

/// Writes a number in `-32..0` as the single byte that is its two's
/// complement image.
///
/// The caller vouches for the range; `write_sint` picks this form by
/// itself where it applies.
pub fn write_nfix<W: Sink>(wr: &mut W, val: i8) -> (r: Result<(), FixedValueWriteError>)
    requires
        -32 <= val < 0,
    ensures
        old(wr).state().offered(final(wr).state(), nfix_encoding(val), fixed_failure(r)),
{
    write_fixval(wr, Marker::NegativeFixnum(val))
}

/// Writes `val` as two bytes, tag and data, even where one byte would do.
pub fn write_u8<W: Sink>(wr: &mut W, val: u8) -> (r: Result<(), ValueWriteError>)
    ensures
        value_written(old(wr).state(), final(wr).state(), u8_encoding(val), outcome_of(r)),
{
    let ghost pre = wr.state();
    assert(u8_encoding(val) =~= seq![0xccu8] + seq![val]);
    match write_marker(wr, Marker::U8) {
        Err(err) => {
            proof {
                lemma_marker_failed(pre, wr.state(), 0xccu8, seq![val], Some((err.0).0));
            }
            Err(ValueWriteError::from(err))
        },
        Ok(()) => {
            let ghost mid = wr.state();
            let r = write_data_u8(wr, val);
            proof {
                lemma_data_offered(pre, mid, wr.state(), 0xccu8, seq![val], data_failure(r));
            }
            r
        },
    }
}

/// Writes `val` as three bytes, tag and data, even where fewer would do.
pub fn write_u16<W: Sink>(wr: &mut W, val: u16) -> (r: Result<(), ValueWriteError>)
    ensures
        value_written(old(wr).state(), final(wr).state(), u16_encoding(val), outcome_of(r)),
{
    let ghost pre = wr.state();
    match write_marker(wr, Marker::U16) {
        Err(err) => {
            proof {
                lemma_marker_failed(pre, wr.state(), 0xcdu8, be16(val), Some((err.0).0));
            }
            Err(ValueWriteError::from(err))
        },
        Ok(()) => {
            let ghost mid = wr.state();
            let r = write_data_u16(wr, val);
            proof {
                lemma_data_offered(pre, mid, wr.state(), 0xcdu8, be16(val), data_failure(r));
            }
            r
        },
    }
}

/// Writes `val` as five bytes, tag and data, even where fewer would do.
pub fn write_u32<W: Sink>(wr: &mut W, val: u32) -> (r: Result<(), ValueWriteError>)
    ensures
        value_written(old(wr).state(), final(wr).state(), u32_encoding(val), outcome_of(r)),
{
    let ghost pre = wr.state();
    match write_marker(wr, Marker::U32) {
        Err(err) => {
            proof {
                lemma_marker_failed(pre, wr.state(), 0xceu8, be32(val), Some((err.0).0));
            }
            Err(ValueWriteError::from(err))
        },
        Ok(()) => {
            let ghost mid = wr.state();
            let r = write_data_u32(wr, val);
            proof {
                lemma_data_offered(pre, mid, wr.state(), 0xceu8, be32(val), data_failure(r));
            }
            r
        },
    }
}

/// Writes `val` as nine bytes, tag and data, even where fewer would do.
pub fn write_u64<W: Sink>(wr: &mut W, val: u64) -> (r: Result<(), ValueWriteError>)
    ensures
        value_written(old(wr).state(), final(wr).state(), u64_encoding(val), outcome_of(r)),
{
    let ghost pre = wr.state();
    match write_marker(wr, Marker::U64) {
        Err(err) => {
            proof {
                lemma_marker_failed(pre, wr.state(), 0xcfu8, be64(val), Some((err.0).0));
            }
            Err(ValueWriteError::from(err))
        },
        Ok(()) => {
            let ghost mid = wr.state();
            let r = write_data_u64(wr, val);
            proof {
                lemma_data_offered(pre, mid, wr.state(), 0xcfu8, be64(val), data_failure(r));
            }
            r
        },
    }
}

/// Writes `val` as two bytes, the signed tag and the data, even where one
/// byte would do.
pub fn write_i8<W: Sink>(wr: &mut W, val: i8) -> (r: Result<(), ValueWriteError>)
    ensures
        value_written(old(wr).state(), final(wr).state(), i8_encoding(val), outcome_of(r)),
{
    let ghost pre = wr.state();
    assert(i8_encoding(val) =~= seq![0xd0u8] + seq![twos8(val)]);
    match write_marker(wr, Marker::I8) {
        Err(err) => {
            proof {
                lemma_marker_failed(pre, wr.state(), 0xd0u8, seq![twos8(val)], Some((err.0).0));
            }
            Err(ValueWriteError::from(err))
        },
        Ok(()) => {
            let ghost mid = wr.state();
            let r = write_data_i8(wr, val);
            proof {
                lemma_data_offered(pre, mid, wr.state(), 0xd0u8, seq![twos8(val)], data_failure(r));
            }
            r
        },
    }
}

/// Writes `val` as three bytes, the signed tag and the data, even where
/// fewer would do.
pub fn write_i16<W: Sink>(wr: &mut W, val: i16) -> (r: Result<(), ValueWriteError>)
    ensures
        value_written(old(wr).state(), final(wr).state(), i16_encoding(val), outcome_of(r)),
{
    let ghost pre = wr.state();
    match write_marker(wr, Marker::I16) {
        Err(err) => {
            proof {
                lemma_marker_failed(pre, wr.state(), 0xd1u8, be16(twos16(val)), Some((err.0).0));
            }
            Err(ValueWriteError::from(err))
        },
        Ok(()) => {
            let ghost mid = wr.state();
            let r = write_data_i16(wr, val);
            proof {
                lemma_data_offered(
                    pre,
                    mid,
                    wr.state(),
                    0xd1u8,
                    be16(twos16(val)),
                    data_failure(r),
                );
            }
            r
        },
    }
}

/// Writes `val` as five bytes, the signed tag and the data, even where
/// fewer would do.
pub fn write_i32<W: Sink>(wr: &mut W, val: i32) -> (r: Result<(), ValueWriteError>)
    ensures
        value_written(old(wr).state(), final(wr).state(), i32_encoding(val), outcome_of(r)),
{
    let ghost pre = wr.state();
    match write_marker(wr, Marker::I32) {
        Err(err) => {
            proof {
                lemma_marker_failed(pre, wr.state(), 0xd2u8, be32(twos32(val)), Some((err.0).0));
            }
            Err(ValueWriteError::from(err))
        },
        Ok(()) => {
            let ghost mid = wr.state();
            let r = write_data_i32(wr, val);
            proof {
                lemma_data_offered(
                    pre,
                    mid,
                    wr.state(),
                    0xd2u8,
                    be32(twos32(val)),
                    data_failure(r),
                );
            }
            r
        },
    }
}

/// Writes `val` as nine bytes, the signed tag and the data, even where
/// fewer would do.
pub fn write_i64<W: Sink>(wr: &mut W, val: i64) -> (r: Result<(), ValueWriteError>)
    ensures
        value_written(old(wr).state(), final(wr).state(), i64_encoding(val), outcome_of(r)),
{
    let ghost pre = wr.state();
    match write_marker(wr, Marker::I64) {
        Err(err) => {
            proof {
                lemma_marker_failed(pre, wr.state(), 0xd3u8, be64(twos64(val)), Some((err.0).0));
            }
            Err(ValueWriteError::from(err))
        },
        Ok(()) => {
            let ghost mid = wr.state();
            let r = write_data_i64(wr, val);
            proof {
                lemma_data_offered(
                    pre,
                    mid,
                    wr.state(),
                    0xd3u8,
                    be64(twos64(val)),
                    data_failure(r),
                );
            }
            r
        },
    }
}

/// Writes a single-precision number, handed over as its 32 bits: the tag
/// and the bits, most significant byte first.
pub fn write_f32_bits<W: Sink>(wr: &mut W, val: u32) -> (r: Result<(), ValueWriteError>)
    ensures
        value_written(old(wr).state(), final(wr).state(), f32_encoding(val), outcome_of(r)),
{
    let ghost pre = wr.state();
    match write_marker(wr, Marker::F32) {
        Err(err) => {
            proof {
                lemma_marker_failed(pre, wr.state(), 0xcau8, be32(val), Some((err.0).0));
            }
            Err(ValueWriteError::from(err))
        },
        Ok(()) => {
            let ghost mid = wr.state();
            let r = write_data_u32(wr, val);
            proof {
                lemma_data_offered(pre, mid, wr.state(), 0xcau8, be32(val), data_failure(r));
            }
            r
        },
    }
}

/// Writes a double-precision number, handed over as its 64 bits: the tag
/// and the bits, most significant byte first.
pub fn write_f64_bits<W: Sink>(wr: &mut W, val: u64) -> (r: Result<(), ValueWriteError>)
    ensures
        value_written(old(wr).state(), final(wr).state(), f64_encoding(val), outcome_of(r)),
{
    let ghost pre = wr.state();
    match write_marker(wr, Marker::F64) {
        Err(err) => {
            proof {
                lemma_marker_failed(pre, wr.state(), 0xcbu8, be64(val), Some((err.0).0));
            }
            Err(ValueWriteError::from(err))
        },
        Ok(()) => {
            let ghost mid = wr.state();
            let r = write_data_u64(wr, val);
            proof {
                lemma_data_offered(pre, mid, wr.state(), 0xcbu8, be64(val), data_failure(r));
            }
            r
        },
    }
}

/// Writes the unsigned number `val` in the shortest form that holds it and
/// returns the marker of that form.
pub fn write_uint<W: Sink>(wr: &mut W, val: u64) -> (r: Result<Marker, ValueWriteError>)
    ensures
        r matches Ok(m) ==> m == uint_marker(val),
        value_written(old(wr).state(), final(wr).state(), uint_encoding(val), outcome_of(r)),
{
    if val < 128 {
        let ghost pre = wr.state();
        let marker = Marker::PositiveFixnum(val as u8);
        match write_fixval(wr, marker) {
            Err(err) => {
                proof {
                    lemma_single_byte_value(pre, wr.state(), marker.byte(), Some((err.0).0));
                }
                Err(ValueWriteError::from(err))
            },
            Ok(()) => {
                proof {
                    lemma_single_byte_value(pre, wr.state(), marker.byte(), None);
                }
                Ok(marker)
            },
        }
    } else if val < 256 {
        match write_u8(wr, val as u8) {
            Ok(()) => Ok(Marker::U8),
            Err(err) => Err(err),
        }
    } else if val < 65536 {
        match write_u16(wr, val as u16) {
            Ok(()) => Ok(Marker::U16),
            Err(err) => Err(err),
        }
    } else if val < 4294967296 {
        match write_u32(wr, val as u32) {
            Ok(()) => Ok(Marker::U32),
            Err(err) => Err(err),
        }
    } else {
        match write_u64(wr, val) {
            Ok(()) => Ok(Marker::U64),
            Err(err) => Err(err),
        }
    }
}

/// Writes the signed number `val` and returns the marker of the form
/// used: the single byte for `-32..=0`, else the narrowest signed width
/// that holds `val`.
pub fn write_sint<W: Sink>(wr: &mut W, val: i64) -> (r: Result<Marker, ValueWriteError>)
    ensures
        r matches Ok(m) ==> m == sint_marker(val),
        value_written(old(wr).state(), final(wr).state(), sint_encoding(val), outcome_of(r)),
{
    if -32 <= val && val <= 0 {
        let ghost pre = wr.state();
        let marker = Marker::NegativeFixnum(val as i8);
        match write_fixval(wr, marker) {
            Err(err) => {
                proof {
                    lemma_single_byte_value(pre, wr.state(), marker.byte(), Some((err.0).0));
                }
                Err(ValueWriteError::from(err))
            },
            Ok(()) => {
                proof {
                    lemma_single_byte_value(pre, wr.state(), marker.byte(), None);
                }
                Ok(marker)
            },
        }
    } else if -128 <= val && val < 128 {
        match write_i8(wr, val as i8) {
            Ok(()) => Ok(Marker::I8),
            Err(err) => Err(err),
        }
    } else if -32768 <= val && val < 32768 {
        match write_i16(wr, val as i16) {
            Ok(()) => Ok(Marker::I16),
            Err(err) => Err(err),
        }
    } else if -2147483648 <= val && val <= 2147483647 {
        match write_i32(wr, val as i32) {
            Ok(()) => Ok(Marker::I32),
            Err(err) => Err(err),
        }
    } else {
        match write_i64(wr, val) {
            Ok(()) => Ok(Marker::I64),
            Err(err) => Err(err),
        }
    }
}

/// Writes the header of a string of `len` bytes in its shortest form and
/// returns the marker used. The bytes of the string are the caller's to
/// write, straight behind.
pub fn write_str_len<W: Sink>(wr: &mut W, len: u32) -> (r: Result<Marker, ValueWriteError>)
    ensures
        r matches Ok(m) ==> m == str_len_marker(len),
        value_written(old(wr).state(), final(wr).state(), str_len_encoding(len), outcome_of(r)),
{
    if len < 32 {
        let ghost pre = wr.state();
        let marker = Marker::FixedString(len as u8);
        proof {
            lemma_folded_bytes(len as u8);
        }
        match write_fixval(wr, marker) {
            Err(err) => {
                proof {
                    lemma_single_byte_value(pre, wr.state(), marker.byte(), Some((err.0).0));
                }
                Err(ValueWriteError::from(err))
            },
            Ok(()) => {
                proof {
                    lemma_single_byte_value(pre, wr.state(), marker.byte(), None);
                }
                Ok(marker)
            },
        }
    } else if len < 256 {
        let ghost pre = wr.state();
        assert(str_len_encoding(len) =~= seq![0xd9u8] + seq![len as u8]);
        match write_marker(wr, Marker::Str8) {
            Err(err) => {
                proof {
                    lemma_marker_failed(pre, wr.state(), 0xd9u8, seq![len as u8], Some((err.0).0));
                }
                Err(ValueWriteError::from(err))
            },
            Ok(()) => {
                let ghost mid = wr.state();
                let r = write_data_u8(wr, len as u8);
                proof {
                    lemma_data_offered(
                        pre,
                        mid,
                        wr.state(),
                        0xd9u8,
                        seq![len as u8],
                        data_failure(r),
                    );
                }
                match r {
                    Ok(()) => Ok(Marker::Str8),
                    Err(err) => Err(err),
                }
            },
        }
    } else if len < 65536 {
        let ghost pre = wr.state();
        match write_marker(wr, Marker::Str16) {
            Err(err) => {
                proof {
                    lemma_marker_failed(pre, wr.state(), 0xdau8, be16(len as u16), Some((err.0).0));
                }
                Err(ValueWriteError::from(err))
            },
            Ok(()) => {
                let ghost mid = wr.state();
                let r = write_data_u16(wr, len as u16);
                proof {
                    lemma_data_offered(
                        pre,
                        mid,
                        wr.state(),
                        0xdau8,
                        be16(len as u16),
                        data_failure(r),
                    );
                }
                match r {
                    Ok(()) => Ok(Marker::Str16),
                    Err(err) => Err(err),
                }
            },
        }
    } else {
        let ghost pre = wr.state();
        match write_marker(wr, Marker::Str32) {
            Err(err) => {
                proof {
                    lemma_marker_failed(pre, wr.state(), 0xdbu8, be32(len), Some((err.0).0));
                }
                Err(ValueWriteError::from(err))
            },
            Ok(()) => {
                let ghost mid = wr.state();
                let r = write_data_u32(wr, len);
                proof {
                    lemma_data_offered(pre, mid, wr.state(), 0xdbu8, be32(len), data_failure(r));
                }
                match r {
                    Ok(()) => Ok(Marker::Str32),
                    Err(err) => Err(err),
                }
            },
        }
    }
}

/// Writes the header of a binary blob of `len` bytes in its shortest form
/// and returns the marker used.
pub fn write_bin_len<W: Sink>(wr: &mut W, len: u32) -> (r: Result<Marker, ValueWriteError>)
    ensures
        r matches Ok(m) ==> m == bin_len_marker(len),
        value_written(old(wr).state(), final(wr).state(), bin_len_encoding(len), outcome_of(r)),
{
    if len < 256 {
        let ghost pre = wr.state();
        assert(bin_len_encoding(len) =~= seq![0xc4u8] + seq![len as u8]);
        match write_marker(wr, Marker::Bin8) {
            Err(err) => {
                proof {
                    lemma_marker_failed(pre, wr.state(), 0xc4u8, seq![len as u8], Some((err.0).0));
                }
                Err(ValueWriteError::from(err))
            },
            Ok(()) => {
                let ghost mid = wr.state();
                let r = write_data_u8(wr, len as u8);
                proof {
                    lemma_data_offered(
                        pre,
                        mid,
                        wr.state(),
                        0xc4u8,
                        seq![len as u8],
                        data_failure(r),
                    );
                }
                match r {
                    Ok(()) => Ok(Marker::Bin8),
                    Err(err) => Err(err),
                }
            },
        }
    } else if len < 65536 {
        let ghost pre = wr.state();
        match write_marker(wr, Marker::Bin16) {
            Err(err) => {
                proof {
                    lemma_marker_failed(pre, wr.state(), 0xc5u8, be16(len as u16), Some((err.0).0));
                }
                Err(ValueWriteError::from(err))
            },
            Ok(()) => {
                let ghost mid = wr.state();
                let r = write_data_u16(wr, len as u16);
                proof {
                    lemma_data_offered(
                        pre,
                        mid,
                        wr.state(),
                        0xc5u8,
                        be16(len as u16),
                        data_failure(r),
                    );
                }
                match r {
                    Ok(()) => Ok(Marker::Bin16),
                    Err(err) => Err(err),
                }
            },
        }
    } else {
        let ghost pre = wr.state();
        match write_marker(wr, Marker::Bin32) {
            Err(err) => {
                proof {
                    lemma_marker_failed(pre, wr.state(), 0xc6u8, be32(len), Some((err.0).0));
                }
                Err(ValueWriteError::from(err))
            },
            Ok(()) => {
                let ghost mid = wr.state();
                let r = write_data_u32(wr, len);
                proof {
                    lemma_data_offered(pre, mid, wr.state(), 0xc6u8, be32(len), data_failure(r));
                }
                match r {
                    Ok(()) => Ok(Marker::Bin32),
                    Err(err) => Err(err),
                }
            },
        }
    }
}

/// Writes the header of an array of `len` elements in its shortest form
/// and returns the marker used. The elements follow, one encoded value each.
pub fn write_array_len<W: Sink>(wr: &mut W, len: u32) -> (r: Result<Marker, ValueWriteError>)
    ensures
        r matches Ok(m) ==> m == array_len_marker(len),
        value_written(old(wr).state(), final(wr).state(), array_len_encoding(len), outcome_of(r)),
{
    if len < 16 {
        let ghost pre = wr.state();
        let marker = Marker::FixedArray(len as u8);
        proof {
            lemma_folded_bytes(len as u8);
        }
        match write_fixval(wr, marker) {
            Err(err) => {
                proof {
                    lemma_single_byte_value(pre, wr.state(), marker.byte(), Some((err.0).0));
                }
                Err(ValueWriteError::from(err))
            },
            Ok(()) => {
                proof {
                    lemma_single_byte_value(pre, wr.state(), marker.byte(), None);
                }
                Ok(marker)
            },
        }
    } else if len < 65536 {
        let ghost pre = wr.state();
        match write_marker(wr, Marker::Array16) {
            Err(err) => {
                proof {
                    lemma_marker_failed(pre, wr.state(), 0xdcu8, be16(len as u16), Some((err.0).0));
                }
                Err(ValueWriteError::from(err))
            },
            Ok(()) => {
                let ghost mid = wr.state();
                let r = write_data_u16(wr, len as u16);
                proof {
                    lemma_data_offered(
                        pre,
                        mid,
                        wr.state(),
                        0xdcu8,
                        be16(len as u16),
                        data_failure(r),
                    );
                }
                match r {
                    Ok(()) => Ok(Marker::Array16),
                    Err(err) => Err(err),
                }
            },
        }
    } else {
        let ghost pre = wr.state();
        match write_marker(wr, Marker::Array32) {
            Err(err) => {
                proof {
                    lemma_marker_failed(pre, wr.state(), 0xddu8, be32(len), Some((err.0).0));
                }
                Err(ValueWriteError::from(err))
            },
            Ok(()) => {
                let ghost mid = wr.state();
                let r = write_data_u32(wr, len);
                proof {
                    lemma_data_offered(pre, mid, wr.state(), 0xddu8, be32(len), data_failure(r));
                }
                match r {
                    Ok(()) => Ok(Marker::Array32),
                    Err(err) => Err(err),
                }
            },
        }
    }
}

/// Writes the header of a map of `len` entries in its shortest form and
/// returns the marker used. The entries follow, key and value in turn.
pub fn write_map_len<W: Sink>(wr: &mut W, len: u32) -> (r: Result<Marker, ValueWriteError>)
    ensures
        r matches Ok(m) ==> m == map_len_marker(len),
        value_written(old(wr).state(), final(wr).state(), map_len_encoding(len), outcome_of(r)),
{
    if len < 16 {
        let ghost pre = wr.state();
        let marker = Marker::FixedMap(len as u8);
        proof {
            lemma_folded_bytes(len as u8);
        }
        match write_fixval(wr, marker) {
            Err(err) => {
                proof {
                    lemma_single_byte_value(pre, wr.state(), marker.byte(), Some((err.0).0));
                }
                Err(ValueWriteError::from(err))
            },
            Ok(()) => {
                proof {
                    lemma_single_byte_value(pre, wr.state(), marker.byte(), None);
                }
                Ok(marker)
            },
        }
    } else if len < 65536 {
        let ghost pre = wr.state();
        match write_marker(wr, Marker::Map16) {
            Err(err) => {
                proof {
                    lemma_marker_failed(pre, wr.state(), 0xdeu8, be16(len as u16), Some((err.0).0));
                }
                Err(ValueWriteError::from(err))
            },
            Ok(()) => {
                let ghost mid = wr.state();
                let r = write_data_u16(wr, len as u16);
                proof {
                    lemma_data_offered(
                        pre,
                        mid,
                        wr.state(),
                        0xdeu8,
                        be16(len as u16),
                        data_failure(r),
                    );
                }
                match r {
                    Ok(()) => Ok(Marker::Map16),
                    Err(err) => Err(err),
                }
            },
        }
    } else {
        let ghost pre = wr.state();
        match write_marker(wr, Marker::Map32) {
            Err(err) => {
                proof {
                    lemma_marker_failed(pre, wr.state(), 0xdfu8, be32(len), Some((err.0).0));
                }
                Err(ValueWriteError::from(err))
            },
            Ok(()) => {
                let ghost mid = wr.state();
                let r = write_data_u32(wr, len);
                proof {
                    lemma_data_offered(pre, mid, wr.state(), 0xdfu8, be32(len), data_failure(r));
                }
                match r {
                    Ok(()) => Ok(Marker::Map32),
                    Err(err) => Err(err),
                }
            },
        }
    }
}

/// Writes a tag byte and, behind it, a type tag: the header of an
/// extension payload of one of the five fixed lengths.
fn write_fixext<W: Sink>(wr: &mut W, marker: Marker, typeid: i8) -> (r: Result<
    Marker,
    ValueWriteError,
>)
    ensures
        r matches Ok(m) ==> m == marker,
        value_written(
            old(wr).state(),
            final(wr).state(),
            seq![marker.byte(), twos8(typeid)],
            outcome_of(r),
        ),
{
    let ghost pre = wr.state();
    let ghost all = seq![marker.byte(), twos8(typeid)];
    assert(all =~= seq![marker.byte()] + seq![twos8(typeid)]);
    match write_marker(wr, marker) {
        Err(err) => {
            proof {
                lemma_marker_failed(
                    pre,
                    wr.state(),
                    marker.byte(),
                    seq![twos8(typeid)],
                    Some((err.0).0),
                );
            }
            Err(ValueWriteError::from(err))
        },
        Ok(()) => {
            let ghost mid = wr.state();
            let r = write_data_i8(wr, typeid);
            proof {
                lemma_data_offered(
                    pre,
                    mid,
                    wr.state(),
                    marker.byte(),
                    seq![twos8(typeid)],
                    data_failure(r),
                );
            }
            match r {
                Ok(()) => Ok(marker),
                Err(err) => Err(err),
            }
        },
    }
}

/// Writes the header of an extension payload of `len` bytes: the tag byte,
/// the length unless the tag byte implies it, and the type tag `typeid`.
/// The payload itself is the caller's to write, straight behind.
pub fn write_ext_meta<W: Sink>(wr: &mut W, len: u32, typeid: i8) -> (r: Result<
    Marker,
    ValueWriteError,
>)
    ensures
        r matches Ok(m) ==> m == ext_marker(len),
        value_written(
            old(wr).state(),
            final(wr).state(),
            ext_meta_encoding(len, typeid),
            outcome_of(r),
        ),
{
    let ghost pre = wr.state();
    let ghost tail = seq![twos8(typeid)];
    match len {
        1 => write_fixext(wr, Marker::FixExt1, typeid),
        2 => write_fixext(wr, Marker::FixExt2, typeid),
        4 => write_fixext(wr, Marker::FixExt4, typeid),
        8 => write_fixext(wr, Marker::FixExt8, typeid),
        16 => write_fixext(wr, Marker::FixExt16, typeid),
        len if len < 256 => {
            let ghost size = seq![len as u8];
            assert(ext_meta_encoding(len, typeid) =~= seq![0xc7u8] + (size + tail));
            match write_marker(wr, Marker::Ext8) {
                Err(err) => {
                    proof {
                        lemma_marker_failed(pre, wr.state(), 0xc7u8, size + tail, Some((err.0).0));
                    }
                    return Err(ValueWriteError::from(err));
                },
                Ok(()) => {},
            }
            let ghost mid = wr.state();
            let sized = write_data_u8(wr, len as u8);
            if sized.is_err() {
                proof {
                    lemma_offered_short(mid, wr.state(), size, tail, data_failure(sized));
                    lemma_data_offered(
                        pre,
                        mid,
                        wr.state(),
                        0xc7u8,
                        size + tail,
                        data_failure(sized),
                    );
                }
                return match sized {
                    Ok(()) => Ok(Marker::Ext8),
                    Err(err) => Err(err),
                };
            }
            let ghost behind = wr.state();
            let r = write_data_i8(wr, typeid);
            proof {
                lemma_offered_after(mid, behind, wr.state(), size, tail, data_failure(r));
                lemma_data_offered(pre, mid, wr.state(), 0xc7u8, size + tail, data_failure(r));
            }
            match r {
                Ok(()) => Ok(Marker::Ext8),
                Err(err) => Err(err),
            }
        },
        len if len < 65536 => {
            let ghost size = be16(len as u16);
            assert(ext_meta_encoding(len, typeid) =~= seq![0xc8u8] + (size + tail));
            match write_marker(wr, Marker::Ext16) {
                Err(err) => {
                    proof {
                        lemma_marker_failed(pre, wr.state(), 0xc8u8, size + tail, Some((err.0).0));
                    }
                    return Err(ValueWriteError::from(err));
                },
                Ok(()) => {},
            }
            let ghost mid = wr.state();
            let sized = write_data_u16(wr, len as u16);
            if sized.is_err() {
                proof {
                    lemma_offered_short(mid, wr.state(), size, tail, data_failure(sized));
                    lemma_data_offered(
                        pre,
                        mid,
                        wr.state(),
                        0xc8u8,
                        size + tail,
                        data_failure(sized),
                    );
                }
                return match sized {
                    Ok(()) => Ok(Marker::Ext16),
                    Err(err) => Err(err),
                };
            }
            let ghost behind = wr.state();
            let r = write_data_i8(wr, typeid);
            proof {
                lemma_offered_after(mid, behind, wr.state(), size, tail, data_failure(r));
                lemma_data_offered(pre, mid, wr.state(), 0xc8u8, size + tail, data_failure(r));
            }
            match r {
                Ok(()) => Ok(Marker::Ext16),
                Err(err) => Err(err),
            }
        },
        len => {
            let ghost size = be32(len);
            assert(ext_meta_encoding(len, typeid) =~= seq![0xc9u8] + (size + tail));
            match write_marker(wr, Marker::Ext32) {
                Err(err) => {
                    proof {
                        lemma_marker_failed(pre, wr.state(), 0xc9u8, size + tail, Some((err.0).0));
                    }
                    return Err(ValueWriteError::from(err));
                },
                Ok(()) => {},
            }
            let ghost mid = wr.state();
            let sized = write_data_u32(wr, len);
            if sized.is_err() {
                proof {
                    lemma_offered_short(mid, wr.state(), size, tail, data_failure(sized));
                    lemma_data_offered(
                        pre,
                        mid,
                        wr.state(),
                        0xc9u8,
                        size + tail,
                        data_failure(sized),
                    );
                }
                return match sized {
                    Ok(()) => Ok(Marker::Ext32),
                    Err(err) => Err(err),
                };
            }
            let ghost behind = wr.state();
            let r = write_data_i8(wr, typeid);
            proof {
                lemma_offered_after(mid, behind, wr.state(), size, tail, data_failure(r));
                lemma_data_offered(pre, mid, wr.state(), 0xc9u8, size + tail, data_failure(r));
            }
            match r {
                Ok(()) => Ok(Marker::Ext32),
                Err(err) => Err(err),
            }
        },
    }
}

} // verus!
