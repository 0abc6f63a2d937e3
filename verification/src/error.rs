//! The ways a write can fail, told apart by how far it got.
//!
//! Every failure starts as a failure of the sink. What the error types add
//! is the phase: whether the tag byte of the value went out or not. Once
//! the tag byte is out, a later failure is a failure of the data phase and
//! stays one.

use crate::sink::Room;
use crate::sink::SinkState;
use vstd::prelude::*;
use vstd::std_specs::convert::FromSpecImpl;

verus! {

/// A failure of the sink, carried as it came.
#[derive(Debug)]
pub struct WriteError(pub std::io::Error);

/// The sink failed while the tag byte was being written.
#[derive(Debug)]
pub struct MarkerWriteError(pub WriteError);

/// The sink failed while a single-byte value was being written. Such a
/// value is its own tag byte, so nothing of it went out.
#[derive(Debug)]
pub struct FixedValueWriteError(pub WriteError);

/// The failure of a value that has a tag byte and data behind it.
#[derive(Debug)]
pub enum ValueWriteError {
    /// The sink failed on the tag byte: nothing of the value went out.
    InvalidMarkerWrite(WriteError),
    /// The sink failed after the tag byte: the value went out in part.
    InvalidDataWrite(WriteError),
}

/// How the writing of one value ended.
pub enum Outcome {
    /// Every byte of the value is in the sink.
    Written,
    /// The sink failed on the tag byte, with this failure.
    MarkerFailed(std::io::Error),
    /// The sink failed after the tag byte and before the last byte, with
    /// this failure.
    DataFailed(std::io::Error),
}

impl From<std::io::Error> for WriteError {
    fn from(err: std::io::Error) -> (r: WriteError) {
        WriteError(err)
    }
}

impl FromSpecImpl<std::io::Error> for WriteError {
    open spec fn obeys_from_spec() -> bool {
        true
    }

    open spec fn from_spec(err: std::io::Error) -> WriteError {
        WriteError(err)
    }
}

impl From<std::io::Error> for MarkerWriteError {
    fn from(err: std::io::Error) -> (r: MarkerWriteError) {
        MarkerWriteError(WriteError(err))
    }
}

impl FromSpecImpl<std::io::Error> for MarkerWriteError {
    open spec fn obeys_from_spec() -> bool {
        true
    }

    open spec fn from_spec(err: std::io::Error) -> MarkerWriteError {
        MarkerWriteError(WriteError(err))
    }
}

impl From<MarkerWriteError> for ValueWriteError {
    fn from(err: MarkerWriteError) -> (r: ValueWriteError) {
        ValueWriteError::InvalidMarkerWrite(err.0)
    }
}

impl FromSpecImpl<MarkerWriteError> for ValueWriteError {
    open spec fn obeys_from_spec() -> bool {
        true
    }

    open spec fn from_spec(err: MarkerWriteError) -> ValueWriteError {
        ValueWriteError::InvalidMarkerWrite(err.0)
    }
}

impl From<FixedValueWriteError> for ValueWriteError {
    fn from(err: FixedValueWriteError) -> (r: ValueWriteError) {
        ValueWriteError::InvalidMarkerWrite(err.0)
    }
}

impl FromSpecImpl<FixedValueWriteError> for ValueWriteError {
    open spec fn obeys_from_spec() -> bool {
        true
    }

    open spec fn from_spec(err: FixedValueWriteError) -> ValueWriteError {
        ValueWriteError::InvalidMarkerWrite(err.0)
    }
}

impl ValueWriteError {
    /// The phase that the error names, and the failure it carries.
    pub open spec fn outcome(self) -> Outcome {
        match self {
            ValueWriteError::InvalidMarkerWrite(err) => Outcome::MarkerFailed(err.0),
            ValueWriteError::InvalidDataWrite(err) => Outcome::DataFailed(err.0),
        }
    }
}

/// How a write that returned `r` ended.
pub open spec fn outcome_of<T>(r: Result<T, ValueWriteError>) -> Outcome {
    match r {
        Ok(_) => Outcome::Written,
        Err(err) => err.outcome(),
    }
}

/// The failure in the result of writing a tag byte, if the result is one.
pub open spec fn marker_failure(r: Result<(), MarkerWriteError>) -> Option<std::io::Error> {
    match r {
        Ok(_) => None,
        Err(err) => Some((err.0).0),
    }
}

/// The failure in the result of writing a single-byte value, if the result
/// is one.
pub open spec fn fixed_failure(r: Result<(), FixedValueWriteError>) -> Option<std::io::Error> {
    match r {
        Ok(_) => None,
        Err(err) => Some((err.0).0),
    }
}

/// The failure in the result of writing data behind a tag byte, if the
/// result is one.
pub open spec fn data_failure(r: Result<(), ValueWriteError>) -> Option<std::io::Error> {
    match r {
        Ok(_) => None,
        Err(ValueWriteError::InvalidMarkerWrite(err)) => Some(err.0),
        Err(ValueWriteError::InvalidDataWrite(err)) => Some(err.0),
    }
}

/// The outcome of a value of a single byte that ended with `failure`, or
/// without one.
pub open spec fn single_byte_outcome(failure: Option<std::io::Error>) -> Outcome {
    match failure {
        None => Outcome::Written,
        Some(err) => Outcome::MarkerFailed(err),
    }
}

/// The outcome of a value whose tag byte went out and whose data ended with
/// `failure`, or without one.
pub open spec fn data_outcome(failure: Option<std::io::Error>) -> Outcome {
    match failure {
        None => Outcome::Written,
        Some(err) => Outcome::DataFailed(err),
    }
}

/// What writing a value whose wire form is `bytes` (tag byte first) can do
/// to a sink, and how it then ends.
///
/// The sink ends with a prefix of `bytes` behind what it held. The length
/// of that prefix decides the phase: all of `bytes` is success, none of
/// them is a failure on the tag byte, anything between is a failure in the
/// data; and a failure is the one the sink reported. Where the sink has
/// said how much room it has, that bounds the length: room for all of
/// `bytes` means success, no room at all means a failure on the tag byte,
/// and room for some but not all means a failure in the data.
pub open spec fn value_written(
    pre: SinkState,
    post: SinkState,
    bytes: Seq<u8>,
    outcome: Outcome,
) -> bool {
    let taken = pre.taken(post);
    &&& 0 <= taken <= bytes.len()
    &&& taken == bytes.len() ==> pre.took(post, bytes)
    &&& taken < bytes.len() ==> pre.took(post, bytes.take(taken))
    &&& match outcome {
        Outcome::Written => taken == bytes.len(),
        Outcome::MarkerFailed(err) => taken == 0 && taken < bytes.len() && post.failure == Some(
            err,
        ),
        Outcome::DataFailed(err) => 0 < taken < bytes.len() && post.failure == Some(err),
    }
    &&& pre.accepts(bytes.len()) ==> taken == bytes.len()
    &&& pre.refuses(1) ==> taken == 0
    &&& pre.accepts(1) ==> taken >= 1
    &&& pre.refuses(bytes.len()) ==> taken < bytes.len()
}

/// A value of a single byte: the one offer decides everything.
pub proof fn lemma_single_byte_value(
    pre: SinkState,
    post: SinkState,
    tag: u8,
    failure: Option<std::io::Error>,
)
    requires
        pre.offered(post, seq![tag], failure),
    ensures
        value_written(pre, post, seq![tag], single_byte_outcome(failure)),
{
}

/// A value whose tag byte the sink did not take.
pub proof fn lemma_marker_failed(
    pre: SinkState,
    post: SinkState,
    tag: u8,
    data: Seq<u8>,
    failure: Option<std::io::Error>,
)
    requires
        failure is Some,
        pre.offered(post, seq![tag], failure),
    ensures
        value_written(pre, post, seq![tag] + data, single_byte_outcome(failure)),
{
    assert((seq![tag] + data).take(0) =~= seq![tag].take(0));
}

/// A value whose tag byte the sink took and whose data was then offered.
pub proof fn lemma_data_offered(
    pre: SinkState,
    mid: SinkState,
    post: SinkState,
    tag: u8,
    data: Seq<u8>,
    failure: Option<std::io::Error>,
)
    requires
        pre.took(mid, seq![tag]),
        mid.offered(post, data, failure),
    ensures
        value_written(pre, post, seq![tag] + data, data_outcome(failure)),
{
    crate::sink::lemma_offered_after(pre, mid, post, seq![tag], data, failure);
}

/// A value that was written whole, and more data offered behind it: the
/// two together behave as one longer value.
pub proof fn lemma_value_then_data(
    pre: SinkState,
    mid: SinkState,
    post: SinkState,
    head: Seq<u8>,
    rest: Seq<u8>,
    failure: Option<std::io::Error>,
)
    requires
        head.len() > 0,
        value_written(pre, mid, head, Outcome::Written),
        mid.offered(post, rest, failure),
    ensures
        value_written(pre, post, head + rest, data_outcome(failure)),
{
    crate::sink::lemma_offered_after(pre, mid, post, head, rest, failure);
}

/// A value that failed stays failed, in the same phase, when more data is
/// imagined behind it.
pub proof fn lemma_value_cut_short(
    pre: SinkState,
    post: SinkState,
    head: Seq<u8>,
    rest: Seq<u8>,
    outcome: Outcome,
)
    requires
        value_written(pre, post, head, outcome),
        outcome != Outcome::Written,
    ensures
        value_written(pre, post, head + rest, outcome),
{
    let k = pre.taken(post);
    assert((head + rest).take(k) =~= head.take(k));
}

/// A sink that fails after `room` more bytes decides how the writing of a
/// value ends: with no room at all the tag byte fails, with room for some
/// of the value but not all of it the data fails, and with room for all of
/// it the value is written. A sink without bound always ends in success.
pub proof fn lemma_room_decides(
    pre: SinkState,
    post: SinkState,
    bytes: Seq<u8>,
    outcome: Outcome,
)
    requires
        bytes.len() > 0,
        value_written(pre, post, bytes, outcome),
    ensures
        pre.room matches Room::Exactly(room) ==> {
            &&& room == 0 ==> outcome is MarkerFailed
            &&& 0 < room < bytes.len() ==> outcome is DataFailed
            &&& room >= bytes.len() ==> outcome is Written
        },
        pre.room is Unbounded ==> outcome is Written,
{
}

} // verus!
