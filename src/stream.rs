use vstd::prelude::*;

use crate::error::TransferError;

verus! {

/// What the sending side of a stream does next.
#[derive(Clone, Copy, Debug, PartialEq, Eq, Structural)]
pub enum StreamStep {
    /// Write the bytes that `pending` returns.
    Write,
    /// Every byte is written: shut down the write direction.
    HalfClose,
    /// The message is complete on the wire.
    Done,
}

/// The sending discipline of the stream transport: write every byte of the
/// payload, then half-close, which is what ends the message for the receiver.
pub struct StreamSender {
    payload: Vec<u8>,
    written: usize,
    closed: bool,
}

impl StreamSender {
    pub closed spec fn payload(&self) -> Seq<u8> {
        self.payload@
    }

    /// How many bytes of the payload the peer has been handed so far.
    pub closed spec fn written(&self) -> nat {
        self.written as nat
    }

    pub closed spec fn closed(&self) -> bool {
        self.closed
    }

    pub closed spec fn wf(&self) -> bool {
        &&& self.written <= self.payload@.len()
        &&& self.closed ==> self.written == self.payload@.len()
    }

    pub fn new(payload: Vec<u8>) -> (s: Self)
        ensures
            s.wf(),
            s.payload() == payload@,
            s.written() == 0,
            !s.closed(),
    {
        StreamSender { payload, written: 0, closed: false }
    }

    /// The step that the stream owes next: no half-close before the last byte,
    /// and nothing after it.
    pub fn next_step(&self) -> (r: StreamStep)
        requires
            self.wf(),
        ensures
            r is Write <==> self.written() < self.payload().len(),
            r is HalfClose <==> self.written() == self.payload().len() && !self.closed(),
            r is Done <==> self.closed(),
    {
        if self.written < self.payload.len() {
            StreamStep::Write
        } else if !self.closed {
            StreamStep::HalfClose
        } else {
            StreamStep::Done
        }
    }

    /// The bytes not yet accepted by the stream.
    pub fn pending(&self) -> (r: &[u8])
        requires
            self.wf(),
        ensures
            r@ == self.payload().subrange(self.written() as int, self.payload().len() as int),
    {
        vstd::slice::slice_subrange(self.payload.as_slice(), self.written, self.payload.len())
    }

    /// Records that the stream accepted `n` of the pending bytes. A write that
    /// accepts nothing while bytes remain is a failure, as the stream cannot
    /// make progress.
    pub fn on_written(&mut self, n: usize) -> (r: Result<(), TransferError>)
        requires
            old(self).wf(),
            !old(self).closed(),
            old(self).written() + n <= old(self).payload().len(),
        ensures
            final(self).wf(),
            final(self).payload() == old(self).payload(),
            !final(self).closed(),
            r is Err <==> n == 0 && old(self).written() < old(self).payload().len(),
            r is Err ==> r == Err::<(), TransferError>(TransferError::IoTransfer),
            final(self).written() == old(self).written() + n,
    {
        let len = self.payload.len();
        if n == 0 && self.written < len {
            return Err(TransferError::IoTransfer);
        }
        self.written = self.written + n;
        Ok(())
    }

    /// Records the half-close of the write direction.
    pub fn on_half_closed(&mut self)
        requires
            old(self).wf(),
            old(self).written() == old(self).payload().len(),
        ensures
            final(self).wf(),
            final(self).payload() == old(self).payload(),
            final(self).written() == old(self).written(),
            final(self).closed(),
    {
        self.closed = true;
    }
}

/// The receiving discipline of the stream transport: every chunk read is kept,
/// and the message is delivered only at end of stream, which is a read of no
/// bytes.
pub struct StreamReceiver {
    data: Vec<u8>,
    ended: bool,
}

impl StreamReceiver {
    pub closed spec fn data(&self) -> Seq<u8> {
        self.data@
    }

    pub closed spec fn ended(&self) -> bool {
        self.ended
    }

    pub fn new() -> (r: Self)
        ensures
            r.data() == Seq::<u8>::empty(),
            !r.ended(),
    {
        StreamReceiver { data: Vec::new(), ended: false }
    }

    /// Takes the result of one read. A non-empty chunk is kept and `None` comes
    /// back: the message is not over. An empty chunk is the end of stream,
    /// and the whole message comes back.
    pub fn on_read(&mut self, chunk: &[u8]) -> (r: Option<Vec<u8>>)
        requires
            !old(self).ended(),
        ensures
            r is Some <==> chunk@.len() == 0,
            final(self).ended() <==> chunk@.len() == 0,
            final(self).data() == old(self).data() + chunk@,
            r matches Some(m) ==> m@ == old(self).data(),
    {
        if chunk.len() == 0 {
            self.ended = true;
            proof {
                assert(self.data@ =~= old(self).data@ + chunk@);
            }
            Some(self.data.clone())
        } else {
            self.data.extend_from_slice(chunk);
            None
        }
    }
}

/// The bytes of a sequence of chunks, one after the other.
pub open spec fn concat_chunks(chunks: Seq<Seq<u8>>) -> Seq<u8>
    decreases chunks.len(),
{
    if chunks.len() == 0 {
        Seq::empty()
    } else {
        concat_chunks(chunks.drop_last()) + chunks.last()
    }
}

/// What a receiver holds after reading `chunks` from a fresh start.
pub open spec fn received_after(chunks: Seq<Seq<u8>>) -> Seq<u8> {
    concat_chunks(chunks)
}

/// The pieces that a sender hands the stream when successive writes accept
/// `sizes[0]`, `sizes[1]`, ... bytes of `payload`.
pub open spec fn written_pieces(payload: Seq<u8>, sizes: Seq<nat>) -> Seq<Seq<u8>>
    decreases sizes.len(),
{
    if sizes.len() == 0 {
        Seq::empty()
    } else {
        let start = sum_sizes(sizes.drop_last());
        written_pieces(payload, sizes.drop_last()).push(
            payload.subrange(start as int, (start + sizes.last()) as int),
        )
    }
}

pub open spec fn sum_sizes(sizes: Seq<nat>) -> nat
    decreases sizes.len(),
{
    if sizes.len() == 0 {
        0
    } else {
        sum_sizes(sizes.drop_last()) + sizes.last()
    }
}

proof fn lemma_pieces_prefix(payload: Seq<u8>, sizes: Seq<nat>)
    requires
        sum_sizes(sizes) <= payload.len(),
    ensures
        concat_chunks(written_pieces(payload, sizes)) == payload.subrange(0, sum_sizes(sizes) as int),
    decreases sizes.len(),
{
    if sizes.len() == 0 {
        assert(payload.subrange(0, 0) =~= Seq::<u8>::empty());
    } else {
        let init = sizes.drop_last();
        lemma_pieces_prefix(payload, init);
        let start = sum_sizes(init);
        let pieces = written_pieces(payload, sizes);
        assert(pieces.drop_last() =~= written_pieces(payload, init));
        assert(payload.subrange(0, start as int) + payload.subrange(
            start as int,
            (start + sizes.last()) as int,
        ) =~= payload.subrange(0, sum_sizes(sizes) as int));
    }
}

/// Round trip over the stream transport: whatever sizes the successive writes
/// accept, once they cover the payload, a receiver that reads the written
/// bytes, in any split into chunks, holds exactly the payload at end of stream.
pub proof fn lemma_stream_round_trip(payload: Seq<u8>, sizes: Seq<nat>, reads: Seq<Seq<u8>>)
    requires
        sum_sizes(sizes) == payload.len(),
        concat_chunks(reads) == concat_chunks(written_pieces(payload, sizes)),
    ensures
        received_after(reads) == payload,
{
    lemma_pieces_prefix(payload, sizes);
    assert(payload.subrange(0, payload.len() as int) =~= payload);
}

} // verus!
