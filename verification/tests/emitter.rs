use msgpack::serialize::Encoder;
use msgpack::serialize::Error;
use msgpack::BoundedBuf;

fn emitted<F>(f: F) -> Vec<u8>
where
    F: FnOnce(&mut Encoder<'_, Vec<u8>>) -> Result<(), Error>,
{
    let mut out: Vec<u8> = Vec::new();
    {
        let mut enc = Encoder::new(&mut out);
        f(&mut enc).unwrap();
    }
    out
}

#[test]
fn emits_nil_and_bool() {
    assert_eq!(emitted(|e| e.emit_nil()), vec![0xc0]);
    assert_eq!(emitted(|e| e.emit_bool(true)), vec![0xc3]);
    assert_eq!(emitted(|e| e.emit_bool(false)), vec![0xc2]);
    assert_eq!(emitted(|e| e.emit_option_none()), vec![0xc0]);
}

#[test]
fn unsigned_numbers_take_the_shortest_form_whatever_their_width() {
    assert_eq!(emitted(|e| e.emit_u8(5)), vec![0x05]);
    assert_eq!(emitted(|e| e.emit_u16(5)), vec![0x05]);
    assert_eq!(emitted(|e| e.emit_u32(5)), vec![0x05]);
    assert_eq!(emitted(|e| e.emit_u64(5)), vec![0x05]);
    assert_eq!(emitted(|e| e.emit_usize(5)), vec![0x05]);
    assert_eq!(emitted(|e| e.emit_u8(200)), vec![0xcc, 0xc8]);
    assert_eq!(emitted(|e| e.emit_u16(200)), vec![0xcc, 0xc8]);
    assert_eq!(emitted(|e| e.emit_u64(200)), vec![0xcc, 0xc8]);
    assert_eq!(emitted(|e| e.emit_u16(0x1234)), vec![0xcd, 0x12, 0x34]);
    assert_eq!(emitted(|e| e.emit_u32(0x1234)), vec![0xcd, 0x12, 0x34]);
    assert_eq!(emitted(|e| e.emit_usize(0x1234)), vec![0xcd, 0x12, 0x34]);
    assert_eq!(emitted(|e| e.emit_u32(0x0102_0304)), vec![0xce, 1, 2, 3, 4]);
    assert_eq!(
        emitted(|e| e.emit_u64(u64::MAX)),
        vec![0xcf, 255, 255, 255, 255, 255, 255, 255, 255]
    );
}

#[test]
fn signed_numbers_take_the_selected_form_whatever_their_width() {
    assert_eq!(emitted(|e| e.emit_i8(-5)), vec![0xfb]);
    assert_eq!(emitted(|e| e.emit_i16(-5)), vec![0xfb]);
    assert_eq!(emitted(|e| e.emit_i32(-5)), vec![0xfb]);
    assert_eq!(emitted(|e| e.emit_i64(-5)), vec![0xfb]);
    assert_eq!(emitted(|e| e.emit_isize(-5)), vec![0xfb]);
    assert_eq!(emitted(|e| e.emit_i8(0)), vec![0x00]);
    assert_eq!(emitted(|e| e.emit_i8(100)), vec![0xd0, 0x64]);
    assert_eq!(emitted(|e| e.emit_i64(100)), vec![0xd0, 0x64]);
    assert_eq!(emitted(|e| e.emit_i16(-200)), vec![0xd1, 0xff, 0x38]);
    assert_eq!(emitted(|e| e.emit_isize(-200)), vec![0xd1, 0xff, 0x38]);
    assert_eq!(emitted(|e| e.emit_i32(-70000)), vec![0xd2, 0xff, 0xfe, 0xee, 0x90]);
    assert_eq!(emitted(|e| e.emit_i64(i64::MIN)), vec![0xd3, 0x80, 0, 0, 0, 0, 0, 0, 0]);
}

#[test]
fn float_bits_keep_their_width() {
    assert_eq!(emitted(|e| e.emit_f32_bits(1.5f32.to_bits())), vec![0xca, 0x3f, 0xc0, 0, 0]);
    assert_eq!(
        emitted(|e| e.emit_f64_bits(1.5f64.to_bits())),
        vec![0xcb, 0x3f, 0xf8, 0, 0, 0, 0, 0, 0]
    );
}

#[test]
fn strings_are_header_and_utf8_bytes() {
    assert_eq!(emitted(|e| e.emit_str("")), vec![0xa0]);
    assert_eq!(emitted(|e| e.emit_str("a")), vec![0xa1, 0x61]);
    assert_eq!(emitted(|e| e.emit_str("bb")), vec![0xa2, 0x62, 0x62]);
    // The length is counted in bytes, not in characters.
    assert_eq!(emitted(|e| e.emit_str("é")), vec![0xa2, 0xc3, 0xa9]);
    let long = "x".repeat(32);
    let mut expected = vec![0xd9, 0x20];
    expected.extend_from_slice(long.as_bytes());
    assert_eq!(emitted(|e| e.emit_str(&long)), expected);
    let longer = "y".repeat(300);
    let mut expected = vec![0xda, 0x01, 0x2c];
    expected.extend_from_slice(longer.as_bytes());
    assert_eq!(emitted(|e| e.emit_str(&longer)), expected);
}

#[test]
fn a_character_is_a_string_of_one() {
    assert_eq!(emitted(|e| e.emit_char('a')), vec![0xa1, 0x61]);
    assert_eq!(emitted(|e| e.emit_char('é')), vec![0xa2, 0xc3, 0xa9]);
    assert_eq!(emitted(|e| e.emit_char('€')), vec![0xa3, 0xe2, 0x82, 0xac]);
}

#[test]
fn sequence_of_two_strings() {
    let out = emitted(|e| {
        e.emit_seq(2, |e| {
            e.emit_seq_elt(0, |e| e.emit_str("a"))?;
            e.emit_seq_elt(1, |e| e.emit_str("bb"))
        })
    });
    assert_eq!(out, vec![0x92, 0xa1, 0x61, 0xa2, 0x62, 0x62]);
}

#[test]
fn empty_sequence_is_just_the_header() {
    assert_eq!(emitted(|e| e.emit_seq(0, |_| Ok(()))), vec![0x90]);
}

#[test]
fn long_sequence_has_a_wide_header() {
    let out = emitted(|e| {
        e.emit_seq(16, |e| {
            for i in 0..16 {
                e.emit_seq_elt(i, |e| e.emit_nil())?;
            }
            Ok(())
        })
    });
    let mut expected = vec![0xdc, 0x00, 0x10];
    expected.extend_from_slice(&[0xc0; 16]);
    assert_eq!(out, expected);
}

#[test]
fn tuple_and_records_are_arrays_without_names() {
    let tuple = emitted(|e| {
        e.emit_tuple(2, |e| {
            e.emit_tuple_arg(0, |e| e.emit_u8(1))?;
            e.emit_tuple_arg(1, |e| e.emit_bool(true))
        })
    });
    assert_eq!(tuple, vec![0x92, 0x01, 0xc3]);
    let record = emitted(|e| {
        e.emit_struct("Point", 2, |e| {
            e.emit_struct_field("x", 0, |e| e.emit_u8(1))?;
            e.emit_struct_field("y", 1, |e| e.emit_bool(true))
        })
    });
    assert_eq!(record, tuple);
    let named = emitted(|e| {
        e.emit_tuple_struct("Pair", 2, |e| {
            e.emit_tuple_struct_arg(0, |e| e.emit_u8(1))?;
            e.emit_tuple_struct_arg(1, |e| e.emit_bool(true))
        })
    });
    assert_eq!(named, tuple);
}

#[test]
fn map_is_header_then_key_and_value_in_turn() {
    let out = emitted(|e| {
        e.emit_map(2, |e| {
            e.emit_map_elt_key(0, |e| e.emit_str("a"))?;
            e.emit_map_elt_val(0, |e| e.emit_u8(1))?;
            e.emit_map_elt_key(1, |e| e.emit_str("b"))?;
            e.emit_map_elt_val(1, |e| e.emit_i8(-1))
        })
    });
    assert_eq!(out, vec![0x82, 0xa1, 0x61, 0x01, 0xa1, 0x62, 0xff]);
    assert_eq!(emitted(|e| e.emit_map(16, |_| Ok(()))), vec![0xde, 0x00, 0x10]);
}

#[test]
fn option_is_nil_or_the_value_itself() {
    let none = emitted(|e| e.emit_option(|e| e.emit_option_none()));
    assert_eq!(none, vec![0xc0]);
    let some = emitted(|e| e.emit_option(|e| e.emit_option_some(|e| e.emit_u8(7))));
    assert_eq!(some, vec![0x07]);
    // An optional empty value cannot be told from an absent one.
    let some_nil = emitted(|e| e.emit_option(|e| e.emit_option_some(|e| e.emit_nil())));
    assert_eq!(some_nil, none);
}

#[test]
fn nested_composites_are_written_depth_first() {
    let out = emitted(|e| {
        e.emit_seq(2, |e| {
            e.emit_seq_elt(0, |e| {
                e.emit_seq(1, |e| e.emit_seq_elt(0, |e| e.emit_u8(1)))
            })?;
            e.emit_seq_elt(1, |e| {
                e.emit_map(1, |e| {
                    e.emit_map_elt_key(0, |e| e.emit_u8(2))?;
                    e.emit_map_elt_val(0, |e| e.emit_u8(3))
                })
            })
        })
    });
    assert_eq!(out, vec![0x92, 0x91, 0x01, 0x81, 0x02, 0x03]);
}

#[test]
fn the_length_in_a_header_is_cut_to_32_bits() {
    if usize::BITS > 32 {
        let len = (1u64 << 32) as usize + 2;
        assert_eq!(emitted(|e| e.emit_seq(len, |_| Ok(()))), vec![0x92]);
        assert_eq!(emitted(|e| e.emit_map(len, |_| Ok(()))), vec![0x82]);
    }
}

fn failing<F>(room: usize, f: F) -> (Result<(), Error>, Vec<u8>)
where
    F: FnOnce(&mut Encoder<'_, BoundedBuf>) -> Result<(), Error>,
{
    let mut sink = BoundedBuf::new(room);
    let r = {
        let mut enc = Encoder::new(&mut sink);
        f(&mut enc)
    };
    (r, sink.into_vec())
}

#[test]
fn a_failed_single_byte_value_is_a_fixed_value_failure() {
    let (r, out) = failing(0, |e| e.emit_nil());
    assert!(matches!(r, Err(Error::InvalidFixedValueWrite(_))));
    assert!(out.is_empty());
    let (r, out) = failing(0, |e| e.emit_bool(true));
    assert!(matches!(r, Err(Error::InvalidFixedValueWrite(_))));
    assert!(out.is_empty());
}

#[test]
fn a_failed_number_names_its_phase() {
    let (r, out) = failing(0, |e| e.emit_u16(0x1234));
    assert!(matches!(r, Err(Error::InvalidMarkerWrite(_))));
    assert!(out.is_empty());
    let (r, out) = failing(2, |e| e.emit_u16(0x1234));
    assert!(matches!(r, Err(Error::InvalidDataWrite(_))));
    assert_eq!(out, vec![0xcd, 0x12]);
    let (r, out) = failing(3, |e| e.emit_u16(0x1234));
    assert!(r.is_ok());
    assert_eq!(out, vec![0xcd, 0x12, 0x34]);
    let (r, out) = failing(0, |e| e.emit_u8(5));
    assert!(matches!(r, Err(Error::InvalidMarkerWrite(_))));
    assert!(out.is_empty());
}

#[test]
fn a_failed_string_names_its_phase() {
    let (r, out) = failing(0, |e| e.emit_str("abc"));
    assert!(matches!(r, Err(Error::InvalidMarkerWrite(_))));
    assert!(out.is_empty());
    let (r, out) = failing(1, |e| e.emit_str("abc"));
    assert!(matches!(r, Err(Error::InvalidDataWrite(_))));
    assert_eq!(out, vec![0xa3]);
    let (r, out) = failing(3, |e| e.emit_str("abc"));
    assert!(matches!(r, Err(Error::InvalidDataWrite(_))));
    assert_eq!(out, vec![0xa3, 0x61, 0x62]);
    let (r, out) = failing(4, |e| e.emit_str("abc"));
    assert!(r.is_ok());
    assert_eq!(out, vec![0xa3, 0x61, 0x62, 0x63]);
    let long = "x".repeat(40);
    let (r, out) = failing(1, |e| e.emit_str(&long));
    assert!(matches!(r, Err(Error::InvalidDataWrite(_))));
    assert_eq!(out, vec![0xd9]);
}

#[test]
fn a_failed_header_does_not_run_the_continuation() {
    let mut ran = false;
    let (r, out) = failing(0, |e| {
        e.emit_seq(2, |_| {
            ran = true;
            Ok(())
        })
    });
    assert!(matches!(r, Err(Error::InvalidMarkerWrite(_))));
    assert!(out.is_empty());
    assert!(!ran);
    let mut ran = false;
    let (r, out) = failing(2, |e| {
        e.emit_map(16, |_| {
            ran = true;
            Ok(())
        })
    });
    assert!(matches!(r, Err(Error::InvalidDataWrite(_))));
    assert_eq!(out, vec![0xde, 0x00]);
    assert!(!ran);
}

#[test]
fn a_failure_inside_a_composite_leaves_what_went_out() {
    let (r, out) = failing(3, |e| {
        e.emit_seq(2, |e| {
            e.emit_seq_elt(0, |e| e.emit_str("a"))?;
            e.emit_seq_elt(1, |e| e.emit_str("bb"))
        })
    });
    assert!(matches!(r, Err(Error::InvalidMarkerWrite(_))));
    assert_eq!(out, vec![0x92, 0xa1, 0x61]);
    let (r, out) = failing(5, |e| {
        e.emit_seq(2, |e| {
            e.emit_seq_elt(0, |e| e.emit_str("a"))?;
            e.emit_seq_elt(1, |e| e.emit_str("bb"))
        })
    });
    assert!(matches!(r, Err(Error::InvalidDataWrite(_))));
    assert_eq!(out, vec![0x92, 0xa1, 0x61, 0xa2, 0x62]);
}
