//! The inbound capability: an ordered source of frames.
//!
//! A [`FrameSource`] holds, in arrival order, the frames that the transport
//! has yielded and that no consumer has taken yet. Exactly one owner can poll
//! it — ownership of the value is the exclusive polling right. An exhausted
//! source stands for a closed connection or fork branch.

use vstd::prelude::*;

use crate::frame::{Frame, FrameView, frames_view};

verus! {

/// Any ordered, fallible source of frames. The one implementation in this
/// crate is [`FrameSource`]; the trait states the capability the session
/// layer needs: yield the frames in order, one at a time.
pub trait Income: Sized {
    /// The frames still to be yielded, in order.
    spec fn frames(&self) -> Seq<FrameView>;

    /// Yield the next frame, or `None` once the source is exhausted.
    fn next_frame(&mut self) -> (r: Option<Frame>)
        ensures
            match r {
                Some(f) => old(self).frames().len() > 0 && f@ == old(self).frames()[0]
                    && final(self).frames() == old(self).frames().drop_first(),
                None => old(self).frames().len() == 0 && final(self).frames() == old(
                    self).frames(),
            },
    ;
}

/// A buffered, ordered frame source.
#[derive(Debug)]
pub struct FrameSource {
    frames: Vec<Frame>,
}

impl View for FrameSource {
    type V = Seq<FrameView>;

    closed spec fn view(&self) -> Seq<FrameView> {
        frames_view(self.frames@)
    }
}

impl FrameSource {
    /// An empty source.
    pub fn new() -> (s: Self)
        ensures
            s@ == Seq::<FrameView>::empty(),
    {
        let s = FrameSource { frames: Vec::new() };
        proof {
            assert(s@ =~= Seq::<FrameView>::empty());
        }
        s
    }

    /// Wrap a batch of frames, keeping their order.
    pub fn from_frames(frames: Vec<Frame>) -> (s: Self)
        ensures
            s@ == frames_view(frames@),
    {
        FrameSource { frames }
    }

    /// Append one frame at the back, as the transport yields it.
    pub fn push_frame(&mut self, f: Frame)
        ensures
            final(self)@ == old(self)@.push(f@),
    {
        let ghost pre = self@;
        self.frames.push(f);
        proof {
            assert(self@ =~= pre.push(f@));
        }
    }

    /// Take the frame that arrived earliest, or `None` if the source is
    /// exhausted.
    pub fn pop_frame(&mut self) -> (r: Option<Frame>)
        ensures
            match r {
                Some(f) => old(self)@.len() > 0 && f@ == old(self)@[0] && final(self)@ == old(
                    self)@.drop_first(),
                None => old(self)@.len() == 0 && final(self)@ == old(self)@,
            },
    {
        if self.frames.len() == 0 {
            None
        } else {
            let ghost pre = self@;
            let f = self.frames.remove(0);
            proof {
                assert(self@ =~= pre.drop_first());
            }
            Some(f)
        }
    }

    /// How many frames are buffered.
    pub fn len(&self) -> (n: usize)
        ensures
            n == self@.len(),
    {
        self.frames.len()
    }
}

impl Income for FrameSource {
    open spec fn frames(&self) -> Seq<FrameView> {
        self@
    }

    fn next_frame(&mut self) -> (r: Option<Frame>) {
        self.pop_frame()
    }
}

} // verus!
