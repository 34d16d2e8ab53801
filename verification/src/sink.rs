//! The outbound capability: a shareable, serialized sink of frames.
//!
//! Many independent owners (channels, the heartbeat emitter, publish sinks)
//! each hold a [`SinkHandle`] and offer whole frames to it; one
//! [`SharedSink`] is the single underlying writer that all handles funnel
//! into. A handle queues whole frames; a flush moves a handle's queue, intact
//! and in order, onto the writer. Writes are thereby serialized at frame
//! granularity: no frame, and no handle's queued run of frames, is ever split
//! by another handle's traffic.
//!
//! Errors are terminal: once the writer has failed, every later flush from
//! any handle observes the same error value, and nothing more is written.

use vstd::prelude::*;

use crate::errors::Error;
use crate::frame::{Frame, FrameView, frames_view};

verus! {

/// Any sink of frames. The one implementation in this crate is
/// [`SinkHandle`]; the trait states the capability the session layer needs:
/// accept whole frames, in order.
pub trait Outgo: Sized {
    /// The frames offered to this handle and not yet flushed, in order.
    spec fn queued(&self) -> Seq<FrameView>;

    /// Offer one whole frame.
    fn offer_frame(&mut self, f: Frame)
        ensures
            final(self).queued() == old(self).queued().push(f@),
    ;
}

/// One owner's handle onto a shared sink: an outbox of whole frames.
#[derive(Debug)]
pub struct SinkHandle {
    queued: Vec<Frame>,
}

impl View for SinkHandle {
    type V = Seq<FrameView>;

    closed spec fn view(&self) -> Seq<FrameView> {
        frames_view(self.queued@)
    }
}

impl SinkHandle {
    /// A fresh handle with an empty outbox.
    pub fn new() -> (h: Self)
        ensures
            h@ == Seq::<FrameView>::empty(),
    {
        let h = SinkHandle { queued: Vec::new() };
        proof {
            assert(h@ =~= Seq::<FrameView>::empty());
        }
        h
    }

    /// A further handle onto the same underlying writer. Its outbox starts
    /// empty; what this handle has queued stays with this handle.
    pub fn clone_handle(&self) -> (h: Self)
        ensures
            h@ == Seq::<FrameView>::empty(),
    {
        SinkHandle::new()
    }

    /// Queue one whole frame on this handle.
    pub fn offer(&mut self, f: Frame)
        ensures
            final(self)@ == old(self)@.push(f@),
    {
        let ghost pre = self@;
        self.queued.push(f);
        proof {
            assert(self@ =~= pre.push(f@));
        }
    }

    /// How many frames this handle has queued.
    pub fn queued_len(&self) -> (n: usize)
        ensures
            n == self@.len(),
    {
        self.queued.len()
    }

    /// Move this handle's queued frames, whole and in order, onto the shared
    /// writer. If the writer has already failed, nothing moves and the
    /// writer's terminal error is returned.
    pub fn flush_into(&mut self, sink: &mut SharedSink) -> (r: Result<(), Error>)
        ensures
            match r {
                Ok(()) => old(sink).failure() is None && final(sink).written() == flushed(
                    old(sink).written(),
                    old(self)@,
                ) && final(sink).failure() is None && final(self)@ == Seq::<FrameView>::empty(),
                Err(e) => old(sink).failure() == Some(e) && *final(sink) == *old(sink)
                    && *final(self) == *old(self),
            },
    {
        match sink.failure {
            Some(e) => Err(e),
            None => {
                let ghost pre_written = sink.written();
                let ghost pre_queued = self@;
                while self.queued.len() != 0
                    invariant
                        sink.failure is None,
                        flushed(sink.written(), self@) == flushed(pre_written, pre_queued),
                    decreases self.queued@.len(),
                {
                    let ghost w = sink.written();
                    let ghost q = self@;
                    let f = self.queued.remove(0);
                    sink.written.push(f);
                    proof {
                        assert(self@ =~= q.drop_first());
                        assert(sink.written() =~= w.push(f@));
                        assert(flushed(sink.written(), self@) =~= flushed(w, q));
                    }
                }
                proof {
                    assert(self@ =~= Seq::<FrameView>::empty());
                    assert(flushed(sink.written(), self@) =~= sink.written());
                }
                Ok(())
            },
        }
    }

    /// Drain this handle's outbox: the queued frames, whole and in order.
    /// The caller takes over writing them to the underlying connection.
    pub fn take_queued(&mut self) -> (r: Vec<Frame>)
        ensures
            frames_view(r@) == old(self)@,
            final(self)@ == Seq::<FrameView>::empty(),
    {
        let mut drained: Vec<Frame> = Vec::new();
        core::mem::swap(&mut self.queued, &mut drained);
        proof {
            assert(self@ =~= Seq::<FrameView>::empty());
        }
        drained
    }

}

impl Outgo for SinkHandle {
    open spec fn queued(&self) -> Seq<FrameView> {
        self@
    }

    fn offer_frame(&mut self, f: Frame) {
        self.offer(f)
    }
}

/// What the writer's log reads after one handle's queue is flushed onto it:
/// the queued frames follow the already-written ones, whole and in order.
pub open spec fn flushed(written: Seq<FrameView>, queued: Seq<FrameView>) -> Seq<FrameView> {
    written + queued
}

/// The single underlying writer that all handles of one shareable sink
/// funnel into. `written` models the frames already handed, whole, to the
/// transport; a terminal failure freezes it.
pub struct SharedSink {
    written: Vec<Frame>,
    failure: Option<Error>,
}

impl SharedSink {
    /// The frames written so far, in order.
    pub closed spec fn written(&self) -> Seq<FrameView> {
        frames_view(self.written@)
    }

    /// The terminal failure, if the writer has failed.
    pub closed spec fn failure(&self) -> Option<Error> {
        self.failure
    }

    /// A fresh writer with nothing written and no failure.
    pub fn new() -> (s: Self)
        ensures
            s.written() == Seq::<FrameView>::empty(),
            s.failure() is None,
    {
        let s = SharedSink { written: Vec::new(), failure: None };
        proof {
            assert(s.written() =~= Seq::<FrameView>::empty());
        }
        s
    }

    /// Record the transport's failure. The first failure wins and is
    /// terminal; a later one changes nothing.
    pub fn fail(&mut self, e: Error)
        ensures
            final(self).written() == old(self).written(),
            final(self).failure() == (if old(self).failure() is None {
                Some(e)
            } else {
                old(self).failure()
            }),
    {
        if self.failure.is_none() {
            self.failure = Some(e);
        }
    }

    /// How many frames have been written.
    pub fn written_len(&self) -> (n: usize)
        ensures
            n == self.written().len(),
    {
        self.written.len()
    }

    /// The written frames, for inspection from outside the model.
    pub fn written_frames(&self) -> (r: &Vec<Frame>)
        ensures
            frames_view(r@) == self.written(),
    {
        &self.written
    }
}

/// Single-writer atomicity: whatever order two handles' pending frames reach
/// the writer in, the log holds one handle's run whole and contiguous and
/// then the other's, never an interleaving of the two — the first run sits
/// exactly after the old log, the second exactly after the first.
pub proof fn lemma_single_writer_atomicity(
    w: Seq<FrameView>,
    p1: Seq<FrameView>,
    p2: Seq<FrameView>,
)
    ensures
        flushed(flushed(w, p1), p2) == w + (p1 + p2),
        flushed(flushed(w, p2), p1) == w + (p2 + p1),
        flushed(flushed(w, p1), p2).subrange(w.len() as int, (w.len() + p1.len()) as int) == p1,
        flushed(flushed(w, p1), p2).subrange(
            (w.len() + p1.len()) as int,
            (w.len() + p1.len() + p2.len()) as int,
        ) == p2,
{
    assert(flushed(flushed(w, p1), p2) =~= w + (p1 + p2));
    assert(flushed(flushed(w, p2), p1) =~= w + (p2 + p1));
    assert(flushed(flushed(w, p1), p2).subrange(w.len() as int, (w.len() + p1.len()) as int)
        =~= p1);
    assert(flushed(flushed(w, p1), p2).subrange(
        (w.len() + p1.len()) as int,
        (w.len() + p1.len() + p2.len()) as int,
    ) =~= p2);
}

} // verus!
