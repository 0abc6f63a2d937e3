use msgpack::write_sint;
use msgpack::write_uint;

fn uint_bytes(val: u64) -> Vec<u8> {
    let mut out: Vec<u8> = Vec::new();
    write_uint(&mut out, val).unwrap();
    out
}

fn sint_bytes(val: i64) -> Vec<u8> {
    let mut out: Vec<u8> = Vec::new();
    write_sint(&mut out, val).unwrap();
    out
}

fn big_endian(data: &[u8]) -> u64 {
    let mut n: u64 = 0;
    for b in data {
        n = (n << 8) | (*b as u64);
    }
    n
}

/// Reads one integer form back, as a reader of the format would.
fn read_int(bytes: &[u8]) -> i128 {
    let tag = bytes[0];
    let data = &bytes[1..];
    match tag {
        0x00..=0x7f => tag as i128,
        0xe0..=0xff => (tag as i8) as i128,
        0xcc => {
            assert_eq!(data.len(), 1);
            big_endian(data) as i128
        }
        0xcd => {
            assert_eq!(data.len(), 2);
            big_endian(data) as i128
        }
        0xce => {
            assert_eq!(data.len(), 4);
            big_endian(data) as i128
        }
        0xcf => {
            assert_eq!(data.len(), 8);
            big_endian(data) as i128
        }
        0xd0 => {
            assert_eq!(data.len(), 1);
            (big_endian(data) as u8 as i8) as i128
        }
        0xd1 => {
            assert_eq!(data.len(), 2);
            (big_endian(data) as u16 as i16) as i128
        }
        0xd2 => {
            assert_eq!(data.len(), 4);
            (big_endian(data) as u32 as i32) as i128
        }
        0xd3 => {
            assert_eq!(data.len(), 8);
            (big_endian(data) as i64) as i128
        }
        _ => panic!("not an integer form: {:#x}", tag),
    }
}

const UNSIGNED: [u64; 18] = [
    0,
    1,
    127,
    128,
    200,
    255,
    256,
    0x1234,
    65535,
    65536,
    0x0102_0304,
    4294967295,
    4294967296,
    0x0102_0304_0506_0708,
    1 << 40,
    (1 << 63) - 1,
    1 << 63,
    u64::MAX,
];

const SIGNED: [i64; 22] = [
    0,
    -1,
    -31,
    -32,
    -33,
    -128,
    -129,
    1,
    127,
    128,
    -32768,
    -32769,
    32767,
    32768,
    -2147483648,
    -2147483649,
    2147483647,
    2147483648,
    -0x0102_0304_0506_0708,
    0x0102_0304_0506_0708,
    i64::MIN,
    i64::MAX,
];

#[test]
fn unsigned_numbers_read_back_as_written() {
    for val in UNSIGNED {
        assert_eq!(read_int(&uint_bytes(val)), val as i128);
    }
}

#[test]
fn signed_numbers_read_back_as_written() {
    for val in SIGNED {
        assert_eq!(read_int(&sint_bytes(val)), val as i128);
    }
}

#[test]
fn unsigned_encoding_is_canonical() {
    for val in UNSIGNED {
        let first = uint_bytes(val);
        let back = read_int(&first) as u64;
        assert_eq!(uint_bytes(back), first);
    }
}

#[test]
fn signed_encoding_is_canonical() {
    for val in SIGNED {
        let first = sint_bytes(val);
        let back = read_int(&first) as i64;
        assert_eq!(sint_bytes(back), first);
    }
}

#[test]
fn unsigned_form_is_the_shortest_that_holds_the_number() {
    for val in UNSIGNED {
        let expected = if val < 128 {
            1
        } else if val <= 0xff {
            2
        } else if val <= 0xffff {
            3
        } else if val <= 0xffff_ffff {
            5
        } else {
            9
        };
        assert_eq!(uint_bytes(val).len(), expected);
    }
}
