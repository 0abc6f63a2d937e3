use msgpack::write_array_len;
use msgpack::write_bin_len;
use msgpack::write_bool;
use msgpack::write_ext_meta;
use msgpack::write_i16;
use msgpack::write_i32;
use msgpack::write_i64;
use msgpack::write_i8;
use msgpack::write_map_len;
use msgpack::write_nfix;
use msgpack::write_nil;
use msgpack::write_pfix;
use msgpack::write_sint;
use msgpack::write_str_len;
use msgpack::write_u16;
use msgpack::write_u32;
use msgpack::write_u64;
use msgpack::write_u8;
use msgpack::write_uint;
use msgpack::BoundedBuf;
use msgpack::Sink;
use msgpack::ValueWriteError;

#[derive(Debug, PartialEq)]
enum Phase {
    Written,
    Marker,
    Data,
}

fn phase<T>(r: Result<T, ValueWriteError>) -> Phase {
    match r {
        Ok(_) => Phase::Written,
        Err(ValueWriteError::InvalidMarkerWrite(_)) => Phase::Marker,
        Err(ValueWriteError::InvalidDataWrite(_)) => Phase::Data,
    }
}

/// Runs `write` on sinks of every size up to the full length and checks
/// the phase that is reported and the bytes that went out.
fn check_every_room<T, F>(full: &[u8], write: F)
where
    F: Fn(&mut BoundedBuf) -> Result<T, ValueWriteError>,
{
    for room in 0..full.len() + 2 {
        let mut sink = BoundedBuf::new(room);
        let got = phase(write(&mut sink));
        let expected = if room == 0 {
            Phase::Marker
        } else if room < full.len() {
            Phase::Data
        } else {
            Phase::Written
        };
        assert_eq!(got, expected, "room {} of {}", room, full.len());
        let taken = sink.as_slice();
        assert!(taken.len() <= full.len());
        assert_eq!(taken, &full[..taken.len()]);
        if expected == Phase::Written {
            assert_eq!(taken, full);
        }
        if expected == Phase::Marker {
            assert!(taken.is_empty());
        }
        if expected == Phase::Data {
            assert!(!taken.is_empty() && taken.len() < full.len());
        }
    }
}

#[test]
fn fixed_width_writers_attribute_the_phase() {
    check_every_room(&[0xcc, 0x92], |s| write_u8(s, 146));
    check_every_room(&[0xcd, 0x01, 0x02], |s| write_u16(s, 0x0102));
    check_every_room(&[0xce, 1, 2, 3, 4], |s| write_u32(s, 0x0102_0304));
    check_every_room(&[0xcf, 1, 2, 3, 4, 5, 6, 7, 8], |s| write_u64(s, 0x0102_0304_0506_0708));
    check_every_room(&[0xd0, 0xee], |s| write_i8(s, -18));
    check_every_room(&[0xd1, 0xff, 0xfe], |s| write_i16(s, -2));
    check_every_room(&[0xd2, 0xff, 0xff, 0xff, 0xfe], |s| write_i32(s, -2));
    check_every_room(&[0xd3, 255, 255, 255, 255, 255, 255, 255, 254], |s| write_i64(s, -2));
}

#[test]
fn selecting_writers_attribute_the_phase() {
    check_every_room(&[0x05], |s| write_uint(s, 5));
    check_every_room(&[0xcc, 0xc8], |s| write_uint(s, 200));
    check_every_room(&[0xcd, 0x01, 0x00], |s| write_uint(s, 256));
    check_every_room(&[0xce, 0, 1, 0, 0], |s| write_uint(s, 65536));
    check_every_room(&[0xcf, 0, 0, 0, 1, 0, 0, 0, 0], |s| write_uint(s, 1 << 32));
    check_every_room(&[0xfb], |s| write_sint(s, -5));
    check_every_room(&[0xd0, 0x64], |s| write_sint(s, 100));
    check_every_room(&[0xd1, 0xff, 0x38], |s| write_sint(s, -200));
    check_every_room(&[0xd2, 0, 1, 0, 0], |s| write_sint(s, 65536));
    check_every_room(&[0xd3, 0, 0, 0, 1, 0, 0, 0, 0], |s| write_sint(s, 1 << 32));
}

#[test]
fn length_writers_attribute_the_phase() {
    check_every_room(&[0xa5], |s| write_str_len(s, 5));
    check_every_room(&[0xd9, 0x20], |s| write_str_len(s, 32));
    check_every_room(&[0xda, 0x01, 0x00], |s| write_str_len(s, 256));
    check_every_room(&[0xdb, 0, 1, 0, 0], |s| write_str_len(s, 65536));
    check_every_room(&[0xc4, 0x05], |s| write_bin_len(s, 5));
    check_every_room(&[0xc5, 0x01, 0x00], |s| write_bin_len(s, 256));
    check_every_room(&[0xc6, 0, 1, 0, 0], |s| write_bin_len(s, 65536));
    check_every_room(&[0x95], |s| write_array_len(s, 5));
    check_every_room(&[0xdc, 0x00, 0x10], |s| write_array_len(s, 16));
    check_every_room(&[0xdd, 0, 1, 0, 0], |s| write_array_len(s, 65536));
    check_every_room(&[0x85], |s| write_map_len(s, 5));
    check_every_room(&[0xde, 0x00, 0x10], |s| write_map_len(s, 16));
    check_every_room(&[0xdf, 0, 1, 0, 0], |s| write_map_len(s, 65536));
}

#[test]
fn ext_meta_attributes_the_phase() {
    check_every_room(&[0xd4, 0x05], |s| write_ext_meta(s, 1, 5));
    check_every_room(&[0xd8, 0xff], |s| write_ext_meta(s, 16, -1));
    check_every_room(&[0xc7, 0x03, 0x05], |s| write_ext_meta(s, 3, 5));
    check_every_room(&[0xc8, 0x01, 0x00, 0xff], |s| write_ext_meta(s, 256, -1));
    check_every_room(&[0xc9, 0, 1, 0, 0, 0x07], |s| write_ext_meta(s, 65536, 7));
}

#[test]
fn single_byte_values_fail_without_a_trace() {
    let mut sink = BoundedBuf::new(0);
    assert!(write_nil(&mut sink).is_err());
    assert!(write_bool(&mut sink, true).is_err());
    assert!(write_pfix(&mut sink, 1).is_err());
    assert!(write_nfix(&mut sink, -1).is_err());
    assert!(sink.as_slice().is_empty());

    let mut sink = BoundedBuf::new(4);
    assert!(write_nil(&mut sink).is_ok());
    assert!(write_bool(&mut sink, false).is_ok());
    assert!(write_pfix(&mut sink, 1).is_ok());
    assert!(write_nfix(&mut sink, -1).is_ok());
    assert_eq!(sink.as_slice(), &[0xc0, 0xc2, 0x01, 0xff]);
    assert!(write_nil(&mut sink).is_err());
    assert_eq!(sink.as_slice(), &[0xc0, 0xc2, 0x01, 0xff]);
}

#[test]
fn the_sink_failure_is_carried_along() {
    let mut sink = BoundedBuf::new(0);
    match write_nil(&mut sink) {
        Err(err) => assert_eq!((err.0).0.kind(), std::io::ErrorKind::WriteZero),
        Ok(()) => panic!("a full sink took a byte"),
    }
    match write_u16(&mut sink, 1) {
        Err(ValueWriteError::InvalidMarkerWrite(err)) => {
            assert_eq!(err.0.kind(), std::io::ErrorKind::WriteZero)
        }
        other => panic!("unexpected result: {:?}", other),
    }
    let mut sink = BoundedBuf::new(2);
    match write_u16(&mut sink, 1) {
        Err(ValueWriteError::InvalidDataWrite(err)) => {
            assert_eq!(err.0.kind(), std::io::ErrorKind::WriteZero)
        }
        other => panic!("unexpected result: {:?}", other),
    }
}

#[test]
fn bounded_buf_takes_what_fits() {
    let mut sink = BoundedBuf::new(3);
    assert_eq!(sink.len(), 0);
    assert_eq!(sink.remaining(), 3);
    assert!(sink.write_byte(1).is_ok());
    assert_eq!(sink.remaining(), 2);
    assert!(sink.write_bytes(&[2, 3, 4]).is_err());
    assert_eq!(sink.as_slice(), &[1, 2, 3]);
    assert_eq!(sink.remaining(), 0);
    assert!(sink.write_byte(9).is_err());
    assert!(sink.write_bytes(&[]).is_ok());
    assert_eq!(sink.len(), 3);
    assert_eq!(sink.into_vec(), vec![1, 2, 3]);
}

#[test]
fn bounded_buf_with_room_takes_a_whole_run() {
    let mut sink = BoundedBuf::new(5);
    assert!(sink.write_bytes(&[1, 2]).is_ok());
    assert!(sink.write_bytes(&[3, 4, 5]).is_ok());
    assert_eq!(sink.as_slice(), &[1, 2, 3, 4, 5]);
    assert_eq!(sink.remaining(), 0);
}

#[test]
fn vec_takes_everything() {
    let mut sink: Vec<u8> = Vec::new();
    assert!(sink.write_byte(1).is_ok());
    assert!(Sink::write_bytes(&mut sink, &[2, 3]).is_ok());
    assert!(Sink::write_bytes(&mut sink, &[]).is_ok());
    assert_eq!(sink, vec![1, 2, 3]);
}
