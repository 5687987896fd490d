use vstd::prelude::*;

use crate::error::BridgeError;
use crate::reap::{Channel, Event};

verus! {

/// The pseudo-terminal read convention: once every copy of the slave side
/// is closed, reading the master fails with EIO (`eio`), which means end of
/// stream and reads as zero bytes. Other failures stay failures, with the
/// OS error code when the OS gave one.
pub open spec fn outcome_of(r: Result<usize, Option<i32>>, eio: i32) -> Result<usize, BridgeError> {
    match r {
        Ok(n) => Ok(n),
        Err(code) => if code == Some(eio) {
            Ok(0)
        } else {
            Err(BridgeError { code })
        },
    }
}

/// The loop event that a read result of a channel stands for: zero bytes is
/// end of stream, `would_block` means nothing is available yet.
pub open spec fn classified(ch: Channel, r: Result<usize, BridgeError>, would_block: i32) -> Event {
    match r {
        Ok(n) => if n == 0 {
            Event::EndOfStream(ch)
        } else {
            Event::Data(ch, n)
        },
        Err(e) => if e.code == Some(would_block) {
            Event::NoData(ch)
        } else {
            Event::ReadFailed(ch, e.code)
        },
    }
}

/// Applies the pseudo-terminal read convention to a raw read result.
pub fn read_outcome(r: Result<usize, Option<i32>>, eio: i32) -> (t: Result<usize, BridgeError>)
    ensures
        t == outcome_of(r, eio),
{
    match r {
        Ok(n) => Ok(n),
        Err(code) => match code {
            Some(c) => if c == eio {
                Ok(0)
            } else {
                Err(BridgeError { code })
            },
            None => Err(BridgeError { code }),
        },
    }
}

/// Turns a read result of a channel, after the end-of-stream convention,
/// into a loop event.
pub fn classify_read(ch: Channel, r: Result<usize, BridgeError>, would_block: i32) -> (e: Event)
    ensures
        e == classified(ch, r, would_block),
{
    match r {
        Ok(n) => if n == 0 {
            Event::EndOfStream(ch)
        } else {
            Event::Data(ch, n)
        },
        Err(err) => if err.code == Some(would_block) {
            Event::NoData(ch)
        } else {
            Event::ReadFailed(ch, err.code)
        },
    }
}

/// The I/O error that reports a closed slave side reaches the loop as a
/// plain end of stream, never as a failure.
pub proof fn lemma_eio_is_end_of_stream(ch: Channel, eio: i32, would_block: i32)
    ensures
        outcome_of(Err(Some(eio)), eio) == Ok::<usize, BridgeError>(0),
        classified(ch, outcome_of(Err(Some(eio)), eio), would_block) == Event::EndOfStream(ch),
{
}

/// Bytes waiting to be written to a stream that may accept only part of
/// them at a time. The view is the whole data and how much of it was sent.
pub struct PendingWrite {
    data: Vec<u8>,
    sent: usize,
}

impl View for PendingWrite {
    type V = (Seq<u8>, nat);

    closed spec fn view(&self) -> (Seq<u8>, nat) {
        (self.data@, self.sent as nat)
    }
}

impl PendingWrite {
    pub open spec fn wf(&self) -> bool {
        self@.1 <= self@.0.len()
    }

    /// What was already accepted by the stream.
    pub open spec fn written(&self) -> Seq<u8> {
        self@.0.subrange(0, self@.1 as int)
    }

    /// What is still to be written, in order.
    pub open spec fn remaining(&self) -> Seq<u8> {
        self@.0.subrange(self@.1 as int, self@.0.len() as int)
    }

    pub fn new(data: Vec<u8>) -> (r: PendingWrite)
        ensures
            r@ == (data@, 0nat),
            r.wf(),
    {
        PendingWrite { data, sent: 0 }
    }

    pub fn remaining_len(&self) -> (r: usize)
        requires
            self.wf(),
        ensures
            r == self.remaining().len(),
    {
        self.data.len() - self.sent
    }

    pub fn is_done(&self) -> (r: bool)
        requires
            self.wf(),
        ensures
            r == (self.remaining().len() == 0),
    {
        self.sent == self.data.len()
    }

    /// A copy of the bytes still to be written, for the next write attempt.
    pub fn chunk(&self) -> (r: Vec<u8>)
        requires
            self.wf(),
        ensures
            r@ == self.remaining(),
    {
        let mut r: Vec<u8> = Vec::new();
        let mut i: usize = self.sent;
        while i < self.data.len()
            invariant
                self.sent <= i <= self.data.len(),
                r@ == self.data@.subrange(self.sent as int, i as int),
            decreases self.data.len() - i,
        {
            r.push(self.data[i]);
            i = i + 1;
            assert(r@ =~= self.data@.subrange(self.sent as int, i as int));
        }
        r
    }

    /// Records that the stream accepted the first `n` remaining bytes; the
    /// next attempt resumes right after them.
    pub fn advance(&mut self, n: usize)
        requires
            old(self).wf(),
            n <= old(self).remaining().len(),
        ensures
            final(self).wf(),
            final(self)@.0 == old(self)@.0,
            final(self).written() == old(self).written() + old(self).remaining().take(n as int),
            final(self).remaining() == old(self).remaining().skip(n as int),
    {
        let len = self.data.len();
        assert(self.sent + n <= len);
        self.sent = self.sent + n;
        assert(self.written() =~= old(self).written() + old(self).remaining().take(n as int));
        assert(self.remaining() =~= old(self).remaining().skip(n as int));
    }
}

/// However the data is cut into partial writes, what was written followed
/// by what remains is the data itself: no byte is lost or reordered.
pub proof fn lemma_nothing_lost(p: PendingWrite)
    requires
        p.wf(),
    ensures
        p.written() + p.remaining() == p@.0,
{
    assert(p.written() + p.remaining() =~= p@.0);
}

} // verus!
