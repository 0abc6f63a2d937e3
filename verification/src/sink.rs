//! The destination that encoded bytes go to.
//!
//! A sink takes bytes in order and may fail at any point. What it has taken
//! so far is its content. A sink may also say ahead of time how much more it
//! will take: one backed by a device says nothing, one held in memory can
//! say exactly.

use vstd::prelude::*;

verus! {

/// `std::io::Error`, the failure of a sink. It is carried along as it
/// came: nothing inside it is looked at.
#[verifier::external_type_specification]
#[verifier::external_body]
pub struct ExIoError(std::io::Error);

/// How many further bytes a sink will take.
pub enum Room {
    /// Nothing is known: any offer may fail.
    Unknown,
    /// Exactly this many, and then the sink fails.
    Exactly(nat),
    /// As many as are offered.
    Unbounded,
}

/// What a sink shows of itself.
pub struct SinkState {
    /// Every byte taken so far, oldest first.
    pub written: Seq<u8>,
    pub room: Room,
    /// The failure the sink reported last, if it has reported one.
    pub failure: Option<std::io::Error>,
}

/// The failure in the answer of a sink, if the answer is one.
pub open spec fn failure_of(r: Result<(), std::io::Error>) -> Option<std::io::Error> {
    match r {
        Ok(_) => None,
        Err(err) => Some(err),
    }
}

impl SinkState {
    /// The sink is certain to take `n` further bytes.
    pub open spec fn accepts(self, n: nat) -> bool {
        match self.room {
            Room::Unknown => false,
            Room::Exactly(room) => n <= room,
            Room::Unbounded => true,
        }
    }

    /// The sink is certain to fail before it has taken `n` further bytes.
    pub open spec fn refuses(self, n: nat) -> bool {
        self.room matches Room::Exactly(room) && n > room
    }

    /// The number of bytes by which `post` is ahead of `self`.
    pub open spec fn taken(self, post: SinkState) -> int {
        post.written.len() - self.written.len()
    }

    /// The sink went from `self` to `post` by taking exactly `bytes`, and
    /// what it said of its room still holds for what is left.
    pub open spec fn took(self, post: SinkState, bytes: Seq<u8>) -> bool {
        &&& post.written == self.written + bytes
        &&& match self.room {
            Room::Unknown => true,
            Room::Exactly(room) => bytes.len() <= room && post.room == Room::Exactly(
                (room - bytes.len()) as nat,
            ),
            Room::Unbounded => post.room == Room::Unbounded,
        }
    }

    /// What offering `bytes` to the sink can lead to: either the sink took
    /// them all and there is no `failure`, or it took a proper prefix of
    /// them and reported `failure`. Where the sink has said how much room
    /// it has, that decides which.
    pub open spec fn offered(
        self,
        post: SinkState,
        bytes: Seq<u8>,
        failure: Option<std::io::Error>,
    ) -> bool {
        &&& failure is None ==> self.took(post, bytes)
        &&& failure is Some ==> {
            &&& 0 <= self.taken(post) < bytes.len()
            &&& self.took(post, bytes.take(self.taken(post)))
            &&& post.failure == failure
        }
        &&& self.accepts(bytes.len()) ==> failure is None
        &&& self.refuses(bytes.len()) ==> failure is Some
    }
}

/// A destination for bytes. The two methods are the only way in.
pub trait Sink {
    /// What the sink shows of itself.
    spec fn state(&self) -> SinkState;

    /// Offers one byte. On failure the sink has taken nothing.
    fn write_byte(&mut self, byte: u8) -> (r: Result<(), std::io::Error>)
        ensures
            old(self).state().offered(final(self).state(), seq![byte], failure_of(r)),
    ;

    /// Offers a run of bytes. On failure the sink has taken some of them,
    /// from the front, but not all.
    fn write_bytes(&mut self, buf: &[u8]) -> (r: Result<(), std::io::Error>)
        ensures
            old(self).state().offered(final(self).state(), buf@, failure_of(r)),
    ;
}

/// Taking one run and then another is taking the two joined.
pub proof fn lemma_took_twice(
    pre: SinkState,
    mid: SinkState,
    post: SinkState,
    first: Seq<u8>,
    second: Seq<u8>,
)
    requires
        pre.took(mid, first),
        mid.took(post, second),
    ensures
        pre.took(post, first + second),
{
    assert(post.written =~= pre.written + (first + second));
}

/// An offer made after a run was taken whole behaves as one offer of the
/// two joined; if it fails, at least the first run is in the sink.
pub proof fn lemma_offered_after(
    pre: SinkState,
    mid: SinkState,
    post: SinkState,
    first: Seq<u8>,
    second: Seq<u8>,
    failure: Option<std::io::Error>,
)
    requires
        pre.took(mid, first),
        mid.offered(post, second, failure),
    ensures
        pre.offered(post, first + second, failure),
        failure is Some ==> first.len() <= pre.taken(post),
{
    let all = first + second;
    if failure is None {
        lemma_took_twice(pre, mid, post, first, second);
    } else {
        let j = mid.taken(post);
        lemma_took_twice(pre, mid, post, first, second.take(j));
        assert(all.take(first.len() + j) =~= first + second.take(j));
    }
}

/// An offer that failed stays failed when more bytes are imagined behind
/// it: the sink holds the same prefix of the longer run.
pub proof fn lemma_offered_short(
    pre: SinkState,
    post: SinkState,
    first: Seq<u8>,
    rest: Seq<u8>,
    failure: Option<std::io::Error>,
)
    requires
        failure is Some,
        pre.offered(post, first, failure),
    ensures
        pre.offered(post, first + rest, failure),
        pre.taken(post) < first.len(),
{
    let k = pre.taken(post);
    assert((first + rest).take(k) =~= first.take(k));
}

impl Sink for Vec<u8> {
    /// A vector holds what was pushed, grows as needed and never fails.
    open spec fn state(&self) -> SinkState {
        SinkState { written: self@, room: Room::Unbounded, failure: None }
    }

    fn write_byte(&mut self, byte: u8) -> (r: Result<(), std::io::Error>)
        ensures
            r is Ok,
    {
        self.push(byte);
        assert(self@ =~= old(self)@ + seq![byte]);
        Ok(())
    }

    fn write_bytes(&mut self, buf: &[u8]) -> (r: Result<(), std::io::Error>)
        ensures
            r is Ok,
    {
        self.extend_from_slice(buf);
        assert(self@ =~= old(self)@ + buf@);
        Ok(())
    }
}

} // verus!
