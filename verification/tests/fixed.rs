use msgpack::write_bool;
use msgpack::write_f32_bits;
use msgpack::write_f64_bits;
use msgpack::write_i16;
use msgpack::write_i32;
use msgpack::write_i64;
use msgpack::write_i8;
use msgpack::write_nfix;
use msgpack::write_nil;
use msgpack::write_pfix;
use msgpack::write_u16;
use msgpack::write_u32;
use msgpack::write_u64;
use msgpack::write_u8;

#[test]
fn nil_is_one_byte() {
    let mut out: Vec<u8> = Vec::new();
    write_nil(&mut out).unwrap();
    assert_eq!(out, vec![0xc0]);
}

#[test]
fn bool_is_one_byte() {
    let mut out: Vec<u8> = Vec::new();
    write_bool(&mut out, true).unwrap();
    assert_eq!(out, vec![0xc3]);
    let mut out: Vec<u8> = Vec::new();
    write_bool(&mut out, false).unwrap();
    assert_eq!(out, vec![0xc2]);
}

#[test]
fn pfix_is_the_number() {
    let mut out: Vec<u8> = Vec::new();
    write_pfix(&mut out, 0).unwrap();
    write_pfix(&mut out, 42).unwrap();
    write_pfix(&mut out, 127).unwrap();
    assert_eq!(out, vec![0x00, 0x2a, 0x7f]);
}

#[test]
fn nfix_is_the_twos_complement_byte() {
    let mut out: Vec<u8> = Vec::new();
    write_nfix(&mut out, -1).unwrap();
    write_nfix(&mut out, -18).unwrap();
    write_nfix(&mut out, -32).unwrap();
    assert_eq!(out, vec![0xff, 0xee, 0xe0]);
}

#[test]
fn u8_is_never_shortened() {
    let mut out: Vec<u8> = Vec::new();
    write_u8(&mut out, 146).unwrap();
    assert_eq!(out, vec![0xcc, 0x92]);
    let mut out: Vec<u8> = Vec::new();
    write_u8(&mut out, 42).unwrap();
    assert_eq!(out, vec![0xcc, 0x2a]);
}

#[test]
fn u16_is_big_endian() {
    let mut out: Vec<u8> = Vec::new();
    write_u16(&mut out, 0x0102).unwrap();
    assert_eq!(out, vec![0xcd, 0x01, 0x02]);
    let mut out: Vec<u8> = Vec::new();
    write_u16(&mut out, 7).unwrap();
    assert_eq!(out, vec![0xcd, 0x00, 0x07]);
}

#[test]
fn u32_is_big_endian() {
    let mut out: Vec<u8> = Vec::new();
    write_u32(&mut out, 0x0102_0304).unwrap();
    assert_eq!(out, vec![0xce, 0x01, 0x02, 0x03, 0x04]);
    let mut out: Vec<u8> = Vec::new();
    write_u32(&mut out, u32::MAX).unwrap();
    assert_eq!(out, vec![0xce, 0xff, 0xff, 0xff, 0xff]);
}

#[test]
fn u64_is_big_endian() {
    let mut out: Vec<u8> = Vec::new();
    write_u64(&mut out, 0x0102_0304_0506_0708).unwrap();
    assert_eq!(out, vec![0xcf, 0x01, 0x02, 0x03, 0x04, 0x05, 0x06, 0x07, 0x08]);
    let mut out: Vec<u8> = Vec::new();
    write_u64(&mut out, 1).unwrap();
    assert_eq!(out, vec![0xcf, 0, 0, 0, 0, 0, 0, 0, 1]);
}

#[test]
fn i8_keeps_its_tag() {
    let mut out: Vec<u8> = Vec::new();
    write_i8(&mut out, 42).unwrap();
    assert_eq!(out, vec![0xd0, 0x2a]);
    let mut out: Vec<u8> = Vec::new();
    write_i8(&mut out, -18).unwrap();
    assert_eq!(out, vec![0xd0, 0xee]);
    let mut out: Vec<u8> = Vec::new();
    write_i8(&mut out, i8::MIN).unwrap();
    assert_eq!(out, vec![0xd0, 0x80]);
}

#[test]
fn i16_is_big_endian_twos_complement() {
    let mut out: Vec<u8> = Vec::new();
    write_i16(&mut out, -2).unwrap();
    assert_eq!(out, vec![0xd1, 0xff, 0xfe]);
    let mut out: Vec<u8> = Vec::new();
    write_i16(&mut out, 0x0102).unwrap();
    assert_eq!(out, vec![0xd1, 0x01, 0x02]);
    let mut out: Vec<u8> = Vec::new();
    write_i16(&mut out, i16::MIN).unwrap();
    assert_eq!(out, vec![0xd1, 0x80, 0x00]);
}

#[test]
fn i32_is_big_endian_twos_complement() {
    let mut out: Vec<u8> = Vec::new();
    write_i32(&mut out, -2).unwrap();
    assert_eq!(out, vec![0xd2, 0xff, 0xff, 0xff, 0xfe]);
    let mut out: Vec<u8> = Vec::new();
    write_i32(&mut out, 0x0102_0304).unwrap();
    assert_eq!(out, vec![0xd2, 0x01, 0x02, 0x03, 0x04]);
}

#[test]
fn i64_is_big_endian_twos_complement() {
    let mut out: Vec<u8> = Vec::new();
    write_i64(&mut out, -2).unwrap();
    assert_eq!(out, vec![0xd3, 0xff, 0xff, 0xff, 0xff, 0xff, 0xff, 0xff, 0xfe]);
    let mut out: Vec<u8> = Vec::new();
    write_i64(&mut out, 0x0102_0304_0506_0708).unwrap();
    assert_eq!(out, vec![0xd3, 0x01, 0x02, 0x03, 0x04, 0x05, 0x06, 0x07, 0x08]);
    let mut out: Vec<u8> = Vec::new();
    write_i64(&mut out, i64::MIN).unwrap();
    assert_eq!(out, vec![0xd3, 0x80, 0, 0, 0, 0, 0, 0, 0]);
}

#[test]
fn f32_bits_go_out_behind_their_tag() {
    let mut out: Vec<u8> = Vec::new();
    write_f32_bits(&mut out, 1.5f32.to_bits()).unwrap();
    assert_eq!(out, vec![0xca, 0x3f, 0xc0, 0x00, 0x00]);
}

#[test]
fn f64_bits_go_out_behind_their_tag() {
    let mut out: Vec<u8> = Vec::new();
    write_f64_bits(&mut out, (-2.0f64).to_bits()).unwrap();
    assert_eq!(out, vec![0xcb, 0xc0, 0, 0, 0, 0, 0, 0, 0]);
}

#[test]
fn writers_append_to_what_the_sink_holds() {
    let mut out: Vec<u8> = vec![0xaa];
    write_nil(&mut out).unwrap();
    write_u16(&mut out, 0x1234).unwrap();
    assert_eq!(out, vec![0xaa, 0xc0, 0xcd, 0x12, 0x34]);
}
