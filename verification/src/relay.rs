//! The bidirectional relay primitive's accounting model.
//!
//! Given two already-connected duplex streams — A, the inbound client
//! stream, and B, the outbound destination or upstream stream — the relay
//! copies bytes in both directions concurrently until either direction
//! reaches end-of-stream or fails, then shuts the other direction down and
//! reports the bytes copied each way. [`RelayState`] is that policy as a
//! state machine: the caller reads a chunk, writes it to the other side
//! unchanged, and advances the state; the ghost streams record exactly the
//! bytes forwarded, so no byte is lost, reordered or invented.
//! [`lemma_relay_drains_and_stops`] proves that a relay whose client sends
//! its data and closes always terminates with the full data forwarded.

use vstd::prelude::*;
use vstd::seq_lib::*;

verus! {

/// One direction of a relay: A is the inbound client stream, B the
/// outbound destination or upstream stream.
#[derive(Clone, Copy, Debug, PartialEq, Eq, Structural)]
pub enum Direction {
    /// Client to server: bytes read from A, written to B.
    AToB,
    /// Server to client: bytes read from B, written to A.
    BToA,
}

/// What a finished relay reports.
#[derive(Clone, Copy, Debug, PartialEq, Eq, Structural)]
pub enum RelayOutcome {
    /// One direction reached end-of-stream; these are the bytes copied
    /// each way.
    Done { a_to_b: u64, b_to_a: u64 },
    /// This direction failed with an I/O error.
    Failed { dir: Direction },
}

/// The mathematical state of a relay: the two forwarded byte streams and
/// whether the relay has terminated.
pub struct RelayModel {
    pub a_to_b: Seq<u8>,
    pub b_to_a: Seq<u8>,
    pub finished: bool,
}

/// The state a relay starts in: nothing forwarded, both directions open.
pub open spec fn init_model() -> RelayModel {
    RelayModel { a_to_b: Seq::empty(), b_to_a: Seq::empty(), finished: false }
}

/// Forwarding one chunk appends it, unchanged, to its direction's stream.
pub open spec fn spec_on_data(m: RelayModel, dir: Direction, chunk: Seq<u8>) -> RelayModel {
    match dir {
        Direction::AToB => RelayModel { a_to_b: m.a_to_b + chunk, ..m },
        Direction::BToA => RelayModel { b_to_a: m.b_to_a + chunk, ..m },
    }
}

/// End-of-stream or an error in either direction terminates the whole
/// relay.
pub open spec fn spec_finish(m: RelayModel) -> RelayModel {
    RelayModel { finished: true, ..m }
}

/// The state after forwarding a run of chunks in one direction.
pub open spec fn spec_feed(m: RelayModel, dir: Direction, chunks: Seq<Seq<u8>>) -> RelayModel
    decreases chunks.len(),
{
    if chunks.len() == 0 {
        m
    } else {
        spec_feed(spec_on_data(m, dir, chunks[0]), dir, chunks.drop_first())
    }
}

/// Feeding chunks in one direction appends their concatenation to that
/// direction's stream and touches nothing else.
pub proof fn lemma_feed(m: RelayModel, dir: Direction, chunks: Seq<Seq<u8>>)
    ensures
        spec_feed(m, dir, chunks).a_to_b == m.a_to_b + (if dir is AToB {
            chunks.flatten()
        } else {
            Seq::<u8>::empty()
        }),
        spec_feed(m, dir, chunks).b_to_a == m.b_to_a + (if dir is BToA {
            chunks.flatten()
        } else {
            Seq::<u8>::empty()
        }),
        spec_feed(m, dir, chunks).finished == m.finished,
    decreases chunks.len(),
{
    if chunks.len() == 0 {
        assert(m.a_to_b + chunks.flatten() =~= m.a_to_b);
        assert(m.b_to_a + chunks.flatten() =~= m.b_to_a);
        assert(m.a_to_b + Seq::<u8>::empty() =~= m.a_to_b);
        assert(m.b_to_a + Seq::<u8>::empty() =~= m.b_to_a);
    } else {
        let m1 = spec_on_data(m, dir, chunks[0]);
        lemma_feed(m1, dir, chunks.drop_first());
        assert(chunks.flatten() == chunks[0] + chunks.drop_first().flatten());
        match dir {
            Direction::AToB => {
                assert(m.a_to_b + chunks[0] + chunks.drop_first().flatten() =~= m.a_to_b
                    + chunks.flatten());
                assert(m.b_to_a + Seq::<u8>::empty() =~= m.b_to_a);
            },
            Direction::BToA => {
                assert(m.b_to_a + chunks[0] + chunks.drop_first().flatten() =~= m.b_to_a
                    + chunks.flatten());
                assert(m.a_to_b + Seq::<u8>::empty() =~= m.a_to_b);
            },
        }
    }
}

/// Relay termination and completeness: when stream A delivers any run of
/// chunks and then closes, while B never sends and never closes, the relay
/// terminates, forwards exactly A's bytes to B in order — none lost — and
/// reports nothing in the other direction.
pub proof fn lemma_relay_drains_and_stops(chunks: Seq<Seq<u8>>)
    ensures
        ({
            let end = spec_finish(spec_feed(init_model(), Direction::AToB, chunks));
            end.finished && end.a_to_b == chunks.flatten() && end.b_to_a == Seq::<u8>::empty()
        }),
{
    lemma_feed(init_model(), Direction::AToB, chunks);
    assert(Seq::<u8>::empty() + chunks.flatten() =~= chunks.flatten());
    assert(Seq::<u8>::empty() + Seq::<u8>::empty() =~= Seq::<u8>::empty());
}

/// The relay's executable accounting: byte counters per direction, the
/// termination flag, and (in ghost state) the exact streams forwarded so
/// far.
pub struct RelayState {
    /// Bytes copied from A (client) to B (server).
    pub a_to_b: u64,
    /// Bytes copied from B (server) to A (client).
    pub b_to_a: u64,
    /// Whether either direction ended and the relay stopped.
    pub finished: bool,
    /// Every byte forwarded A to B, in order.
    pub forwarded_a_to_b: Ghost<Seq<u8>>,
    /// Every byte forwarded B to A, in order.
    pub forwarded_b_to_a: Ghost<Seq<u8>>,
}

impl RelayState {
    /// The counters count exactly the bytes forwarded.
    pub open spec fn wf(self) -> bool {
        self.a_to_b == self.forwarded_a_to_b@.len() && self.b_to_a == self.forwarded_b_to_a@.len()
    }

    /// The mathematical state this relay is in.
    pub open spec fn model(self) -> RelayModel {
        RelayModel {
            a_to_b: self.forwarded_a_to_b@,
            b_to_a: self.forwarded_b_to_a@,
            finished: self.finished,
        }
    }

    /// A relay over two freshly connected streams.
    pub fn new() -> (s: RelayState)
        ensures
            s.wf(),
            s.model() == init_model(),
    {
        RelayState {
            a_to_b: 0,
            b_to_a: 0,
            finished: false,
            forwarded_a_to_b: Ghost(Seq::empty()),
            forwarded_b_to_a: Ghost(Seq::empty()),
        }
    }

    /// Accounts for one chunk read from `dir`'s source; the caller writes
    /// exactly this chunk to the other side. The relay keeps running.
    pub fn on_data(&mut self, dir: Direction, chunk: &Vec<u8>)
        requires
            old(self).wf(),
            !old(self).finished,
            dir is AToB ==> old(self).a_to_b + chunk@.len() <= u64::MAX,
            dir is BToA ==> old(self).b_to_a + chunk@.len() <= u64::MAX,
        ensures
            final(self).wf(),
            !final(self).finished,
            final(self).model() == spec_on_data(old(self).model(), dir, chunk@),
    {
        match dir {
            Direction::AToB => {
                self.a_to_b = self.a_to_b + chunk.len() as u64;
                self.forwarded_a_to_b = Ghost(self.forwarded_a_to_b@ + chunk@);
            },
            Direction::BToA => {
                self.b_to_a = self.b_to_a + chunk.len() as u64;
                self.forwarded_b_to_a = Ghost(self.forwarded_b_to_a@ + chunk@);
            },
        }
    }

    /// Ends the relay because `dir`'s source reached end-of-stream: the
    /// caller shuts the other direction down, and the report carries the
    /// bytes copied each way.
    pub fn on_eof(&mut self, dir: Direction) -> (r: RelayOutcome)
        requires
            !old(self).finished,
        ensures
            final(self).finished,
            final(self).model() == spec_finish(old(self).model()),
            final(self).wf() == old(self).wf(),
            r == (RelayOutcome::Done { a_to_b: old(self).a_to_b, b_to_a: old(self).b_to_a }),
    {
        let _ = dir;
        self.finished = true;
        RelayOutcome::Done { a_to_b: self.a_to_b, b_to_a: self.b_to_a }
    }

    /// Ends the relay because `dir` failed with an I/O error: the caller
    /// shuts the other direction down, and the report names the failing
    /// direction.
    pub fn on_error(&mut self, dir: Direction) -> (r: RelayOutcome)
        requires
            !old(self).finished,
        ensures
            final(self).finished,
            final(self).model() == spec_finish(old(self).model()),
            final(self).wf() == old(self).wf(),
            r == (RelayOutcome::Failed { dir }),
    {
        self.finished = true;
        RelayOutcome::Failed { dir }
    }
}

} // verus!
