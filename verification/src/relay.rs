//! Byte-level model of one relay direction and of a bridged pair.
//!
//! A relay copies bytes from a readable endpoint to a writable endpoint in
//! chunks of whatever size the reads return, until end-of-stream or an I/O
//! error; on end-of-stream it propagates the half-close to the write side.
//! The front end performs the socket reads and writes and mirrors each step
//! here, so every claim below holds of the bytes that actually moved.

use vstd::prelude::*;

verus! {

/// Concatenation of a sequence of chunks into the stream they carry.
pub open spec fn concat_all(chunks: Seq<Seq<u8>>) -> Seq<u8>
    decreases chunks.len(),
{
    if chunks.len() == 0 {
        Seq::empty()
    } else {
        concat_all(chunks.drop_last()) + chunks.last()
    }
}

/// Appending one more chunk appends exactly its bytes to the stream.
pub proof fn lemma_concat_all_push(chunks: Seq<Seq<u8>>, chunk: Seq<u8>)
    ensures
        concat_all(chunks.push(chunk)) =~= concat_all(chunks) + chunk,
{
    assert(chunks.push(chunk).drop_last() =~= chunks);
    assert(chunks.push(chunk).last() =~= chunk);
}

/// What a relay direction has done so far.
#[derive(Clone, Copy, Debug, PartialEq, Eq, Structural)]
pub enum RelayStatus {
    /// Still copying.
    Open,
    /// The source reached end-of-stream; the half-close was propagated to
    /// the write side.  No more bytes will flow in this direction.
    Done,
    /// A read or write failed; this direction stopped without a half-close.
    Failed,
}

/// One direction of a relay: the bytes forwarded so far, and whether the
/// direction is still copying.
pub struct RelayDirection {
    /// Every byte forwarded to the write side, in order.
    pub forwarded: Vec<u8>,
    pub status: RelayStatus,
    /// The chunks in which the bytes arrived from the read side.
    pub chunks: Ghost<Seq<Seq<u8>>>,
}

impl RelayDirection {
    /// The forwarded bytes are exactly the received chunks, concatenated:
    /// a relay neither drops, reorders nor invents bytes.
    pub open spec fn wf(&self) -> bool {
        self.forwarded@ =~= concat_all(self.chunks@)
    }

    /// A fresh direction that has copied nothing.
    pub fn new() -> (r: RelayDirection)
        ensures
            r.wf(),
            r.forwarded@ =~= Seq::<u8>::empty(),
            r.status is Open,
            r.chunks@ =~= Seq::<Seq<u8>>::empty(),
    {
        RelayDirection { forwarded: Vec::new(), status: RelayStatus::Open, chunks: Ghost(Seq::empty()) }
    }

    /// One read returned `chunk`; the relay writes it through unmodified.
    pub fn on_chunk(&mut self, chunk: &Vec<u8>)
        requires
            old(self).wf(),
            old(self).status is Open,
            old(self).forwarded@.len() + chunk@.len() <= usize::MAX,
        ensures
            final(self).wf(),
            final(self).forwarded@ =~= old(self).forwarded@ + chunk@,
            final(self).status is Open,
            final(self).chunks@ =~= old(self).chunks@.push(chunk@),
    {
        let ghost prior = self.chunks@;
        let mut i: usize = 0;
        while i < chunk.len()
            invariant
                i <= chunk@.len(),
                self.forwarded@ =~= old(self).forwarded@ + chunk@.take(i as int),
                self.forwarded@.len() + chunk@.len() - i <= usize::MAX,
                self.status == old(self).status,
                self.chunks == old(self).chunks,
            decreases chunk@.len() - i,
        {
            self.forwarded.push(chunk[i]);
            i = i + 1;
            proof {
                assert(chunk@.take(i as int) =~= chunk@.take(i - 1).push(chunk@[i - 1]));
            }
        }
        proof {
            assert(chunk@.take(chunk@.len() as int) =~= chunk@);
            self.chunks@ = prior.push(chunk@);
            lemma_concat_all_push(prior, chunk@);
        }
    }

    /// The source reached end-of-stream: propagate the half-close to the
    /// write side and stop.  The bytes already forwarded are untouched.
    pub fn on_eof(&mut self)
        requires
            old(self).wf(),
            old(self).status is Open,
        ensures
            final(self).wf(),
            final(self).status is Done,
            final(self).forwarded == old(self).forwarded,
            final(self).chunks == old(self).chunks,
    {
        self.status = RelayStatus::Done;
    }

    /// A read or write failed: this direction stops.  Nothing is retried.
    pub fn on_error(&mut self)
        requires
            old(self).wf(),
            old(self).status is Open,
        ensures
            final(self).wf(),
            final(self).status is Failed,
            final(self).forwarded == old(self).forwarded,
            final(self).chunks == old(self).chunks,
    {
        self.status = RelayStatus::Failed;
    }
}

/// Two relay directions over one pair of bridged sockets: the client's bytes
/// flow toward the egress side, and the egress side's answer flows back.
/// The directions share no state, so each may finish, fail or continue
/// independently of the other — the model of TCP half-close.
pub struct RelayPair {
    pub client_to_egress: RelayDirection,
    pub egress_to_client: RelayDirection,
}

impl RelayPair {
    pub open spec fn wf(&self) -> bool {
        self.client_to_egress.wf() && self.egress_to_client.wf()
    }

    pub fn new() -> (r: RelayPair)
        ensures
            r.wf(),
            r.client_to_egress.status is Open,
            r.egress_to_client.status is Open,
            r.client_to_egress.forwarded@ =~= Seq::<u8>::empty(),
            r.egress_to_client.forwarded@ =~= Seq::<u8>::empty(),
    {
        RelayPair { client_to_egress: RelayDirection::new(), egress_to_client: RelayDirection::new() }
    }

    /// The client closed its write side.  The far end observes end-of-stream
    /// on its read side, and the reverse direction is not affected at all.
    pub fn client_write_closed(&mut self)
        requires
            old(self).wf(),
            old(self).client_to_egress.status is Open,
        ensures
            final(self).wf(),
            final(self).client_to_egress.status is Done,
            final(self).client_to_egress.forwarded == old(self).client_to_egress.forwarded,
            final(self).egress_to_client == old(self).egress_to_client,
    {
        self.client_to_egress.on_eof();
    }

    /// The egress side closed its write side; symmetric to
    /// `client_write_closed`.
    pub fn egress_write_closed(&mut self)
        requires
            old(self).wf(),
            old(self).egress_to_client.status is Open,
        ensures
            final(self).wf(),
            final(self).egress_to_client.status is Done,
            final(self).egress_to_client.forwarded == old(self).egress_to_client.forwarded,
            final(self).client_to_egress == old(self).client_to_egress,
    {
        self.egress_to_client.on_eof();
    }
}

/// Round trip across both tunnel hops: when a second relay's input carries
/// exactly the bytes a first relay forwarded — in whatever chunks the TCP
/// hop between them produced — the far end receives the client's stream
/// unmodified.
pub proof fn lemma_two_hop_round_trip(
    first: RelayDirection,
    second: RelayDirection,
    stream: Seq<u8>,
)
    requires
        first.wf(),
        second.wf(),
        concat_all(first.chunks@) =~= stream,
        concat_all(second.chunks@) =~= first.forwarded@,
    ensures
        second.forwarded@ =~= stream,
{
}

} // verus!
