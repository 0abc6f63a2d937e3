//! A sink in memory that takes a fixed number of bytes and then fails.

use crate::sink::Room;
use crate::sink::Sink;
use crate::sink::SinkState;
use vstd::prelude::*;

verus! {

/// A byte buffer with a limit. It takes bytes until the limit is reached;
/// an offer that does not fit is taken as far as it fits and then fails.
pub struct BoundedBuf {
    bytes: Vec<u8>,
    room: usize,
    failure: Ghost<Option<std::io::Error>>,
}

/// `std::io::Error::from` on `ErrorKind::WriteZero`, the failure std reports
/// for a writer that takes no more. Nothing is claimed of the value.
#[verifier::external_body]
fn write_zero() -> std::io::Error {
    std::io::Error::from(std::io::ErrorKind::WriteZero)
}

impl View for BoundedBuf {
    type V = Seq<u8>;

    /// The bytes taken so far.
    closed spec fn view(&self) -> Seq<u8> {
        self.bytes@
    }
}

impl BoundedBuf {
    /// The number of bytes the buffer still takes.
    pub closed spec fn room(&self) -> nat {
        self.room as nat
    }

    /// The failure the buffer reported last, if it has reported one.
    pub closed spec fn failure(&self) -> Option<std::io::Error> {
        self.failure@
    }

    /// An empty buffer that takes `limit` bytes.
    pub fn new(limit: usize) -> (r: BoundedBuf)
        ensures
            r@ == Seq::<u8>::empty(),
            r.room() == limit,
            r.failure() is None,
    {
        BoundedBuf { bytes: Vec::new(), room: limit, failure: Ghost(None) }
    }

    /// The number of bytes taken so far.
    pub fn len(&self) -> (r: usize)
        ensures
            r == self@.len(),
    {
        self.bytes.len()
    }

    /// The number of bytes the buffer still takes.
    pub fn remaining(&self) -> (r: usize)
        ensures
            r == self.room(),
    {
        self.room
    }

    /// The bytes taken so far.
    pub fn as_slice(&self) -> (r: &[u8])
        ensures
            r@ == self@,
    {
        self.bytes.as_slice()
    }

    /// Gives up the buffer for the bytes taken so far.
    pub fn into_vec(self) -> (r: Vec<u8>)
        ensures
            r@ == self@,
    {
        self.bytes
    }
}

impl Sink for BoundedBuf {
    open spec fn state(&self) -> SinkState {
        SinkState { written: self@, room: Room::Exactly(self.room()), failure: self.failure() }
    }

    fn write_byte(&mut self, byte: u8) -> (r: Result<(), std::io::Error>) {
        if self.room > 0 {
            self.bytes.push(byte);
            self.room = self.room - 1;
            assert(self@ =~= old(self)@ + seq![byte]);
            Ok(())
        } else {
            assert(self@ =~= old(self)@ + seq![byte].take(0));
            let err = write_zero();
            self.failure = Ghost(Some(err));
            Err(err)
        }
    }

    /// Takes as much of `buf` as there is room for.
    fn write_bytes(&mut self, buf: &[u8]) -> (r: Result<(), std::io::Error>)
        ensures
            r is Err ==> final(self).room() == 0,
    {
        let fits: usize = if buf.len() <= self.room {
            buf.len()
        } else {
            self.room
        };
        let mut i: usize = 0;
        while i < fits
            invariant
                0 <= i <= fits <= buf@.len(),
                self.room + i == old(self).room,
                fits <= old(self).room,
                self.bytes@ == old(self).bytes@ + buf@.take(i as int),
            decreases fits - i,
        {
            self.bytes.push(buf[i]);
            self.room = self.room - 1;
            assert(buf@.take(i + 1) =~= buf@.take(i as int).push(buf@[i as int]));
            assert(self.bytes@ =~= old(self).bytes@ + buf@.take(i + 1));
            i += 1;
        }
        if fits == buf.len() {
            assert(buf@.take(fits as int) =~= buf@);
            Ok(())
        } else {
            let err = write_zero();
            self.failure = Ghost(Some(err));
            Err(err)
        }
    }
}

} // verus!
