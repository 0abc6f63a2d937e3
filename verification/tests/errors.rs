use msgpack::serialize::Error;
use msgpack::FixedValueWriteError;
use msgpack::MarkerWriteError;
use msgpack::ValueWriteError;
use msgpack::WriteError;
use std::io;

fn failure() -> io::Error {
    io::Error::new(io::ErrorKind::BrokenPipe, "gone")
}

#[test]
fn write_error_wraps_the_sink_failure() {
    let err = WriteError::from(failure());
    assert_eq!(err.0.kind(), io::ErrorKind::BrokenPipe);
}

#[test]
fn marker_write_error_wraps_the_sink_failure() {
    let err = MarkerWriteError::from(failure());
    assert_eq!((err.0).0.kind(), io::ErrorKind::BrokenPipe);
}

#[test]
fn marker_failure_becomes_invalid_marker_write() {
    let err = ValueWriteError::from(MarkerWriteError(WriteError(failure())));
    match err {
        ValueWriteError::InvalidMarkerWrite(inner) => {
            assert_eq!(inner.0.kind(), io::ErrorKind::BrokenPipe)
        }
        other => panic!("unexpected error: {:?}", other),
    }
}

#[test]
fn fixed_value_failure_becomes_invalid_marker_write() {
    let err = ValueWriteError::from(FixedValueWriteError(WriteError(failure())));
    match err {
        ValueWriteError::InvalidMarkerWrite(inner) => {
            assert_eq!(inner.0.kind(), io::ErrorKind::BrokenPipe)
        }
        other => panic!("unexpected error: {:?}", other),
    }
}

#[test]
fn emitter_error_keeps_the_phase() {
    match Error::from(FixedValueWriteError(WriteError(failure()))) {
        Error::InvalidFixedValueWrite(inner) => {
            assert_eq!(inner.0.kind(), io::ErrorKind::BrokenPipe)
        }
        other => panic!("unexpected error: {:?}", other),
    }
    match Error::from(ValueWriteError::InvalidMarkerWrite(WriteError(failure()))) {
        Error::InvalidMarkerWrite(inner) => assert_eq!(inner.0.kind(), io::ErrorKind::BrokenPipe),
        other => panic!("unexpected error: {:?}", other),
    }
    match Error::from(ValueWriteError::InvalidDataWrite(WriteError(failure()))) {
        Error::InvalidDataWrite(inner) => assert_eq!(inner.0.kind(), io::ErrorKind::BrokenPipe),
        other => panic!("unexpected error: {:?}", other),
    }
}

#[test]
fn errors_can_be_shown() {
    let shown = format!("{:?}", ValueWriteError::InvalidDataWrite(WriteError(failure())));
    assert!(shown.contains("InvalidDataWrite"));
    let shown = format!("{:?}", Error::InvalidFixedValueWrite(WriteError(failure())));
    assert!(shown.contains("InvalidFixedValueWrite"));
}
