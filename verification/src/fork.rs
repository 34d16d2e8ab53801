//! Forking one frame source into two order-preserving branches.
//!
//! A router looks at each frame of a source in arrival order and claims it or
//! leaves it; a claimed frame goes to the matched branch, any other to the
//! rest branch. Each frame lands on exactly one branch, and each branch keeps
//! the source's relative order. A router may carry state (the consume
//! sequencer does); a stateless one is a plain predicate, and forking by it
//! is exactly filtering.
//!
//! This is the mechanism that splits control traffic from a newly opened
//! channel's traffic, and a channel's general traffic from one consumer's
//! delivery traffic.

use vstd::prelude::*;

use crate::frame::{Frame, FrameView};
use crate::income::FrameSource;

verus! {

/// A per-frame routing decision, possibly stateful: `accepts` is the claim
/// the router makes on a frame in its current state, `advance` the state it
/// moves to after seeing that frame (a router that rejects a frame may well
/// stay put). The executable `route` must implement exactly those two spec
/// functions.
pub trait FrameRouter: Sized {
    /// Does the router, in its current state, claim this frame?
    spec fn accepts(&self, f: FrameView) -> bool;

    /// The router's state after it has seen this frame.
    spec fn advance(&self, f: FrameView) -> Self;

    /// Decide one frame and advance.
    fn route(&mut self, f: &Frame) -> (b: bool)
        ensures
            b == old(self).accepts(f@),
            *final(self) == old(self).advance(f@),
    ;
}

/// The stateless router that claims exactly the frames of one channel.
#[derive(Clone, Copy, PartialEq, Eq, Structural, Debug)]
pub struct ChannelFilter {
    pub channel: u16,
}

impl FrameRouter for ChannelFilter {
    open spec fn accepts(&self, f: FrameView) -> bool {
        f.channel == self.channel
    }

    open spec fn advance(&self, f: FrameView) -> Self {
        *self
    }

    fn route(&mut self, f: &Frame) -> (b: bool) {
        f.channel == self.channel
    }
}

/// The frames a router claims out of `frames`, in order, starting from state
/// `r`.
pub open spec fn fork_accepted<R: FrameRouter>(r: R, frames: Seq<FrameView>) -> Seq<FrameView>
    decreases frames.len(),
{
    if frames.len() == 0 {
        Seq::empty()
    } else {
        let rest = fork_accepted(r.advance(frames[0]), frames.drop_first());
        if r.accepts(frames[0]) {
            seq![frames[0]] + rest
        } else {
            rest
        }
    }
}

/// The frames a router leaves in `frames`, in order, starting from state `r`.
pub open spec fn fork_rejected<R: FrameRouter>(r: R, frames: Seq<FrameView>) -> Seq<FrameView>
    decreases frames.len(),
{
    if frames.len() == 0 {
        Seq::empty()
    } else {
        let rest = fork_rejected(r.advance(frames[0]), frames.drop_first());
        if r.accepts(frames[0]) {
            rest
        } else {
            seq![frames[0]] + rest
        }
    }
}

/// Split a source into the branch of frames the router claims and the branch
/// of the rest, each in the source's order.
#[verifier::loop_isolation(false)]
pub fn fork<R: FrameRouter>(source: FrameSource, router: R) -> (branches: (FrameSource,
    FrameSource))
    ensures
        branches.0@ == fork_accepted(router, source@),
        branches.1@ == fork_rejected(router, source@),
{
    let mut src = source;
    let mut r = router;
    let mut matched = FrameSource::new();
    let mut rest = FrameSource::new();
    let ghost all = src@;
    let ghost r0 = router;
    loop
        invariant
            fork_accepted(r0, all) == matched@ + fork_accepted(r, src@),
            fork_rejected(r0, all) == rest@ + fork_rejected(r, src@),
        decreases src@.len(),
    {
        let ghost pre_src = src@;
        let ghost pre_r = r;
        match src.pop_frame() {
            None => {
                proof {
                    assert(fork_accepted(pre_r, pre_src) == Seq::<FrameView>::empty());
                    assert(fork_rejected(pre_r, pre_src) == Seq::<FrameView>::empty());
                    assert(matched@ + fork_accepted(pre_r, pre_src) =~= matched@);
                    assert(rest@ + fork_rejected(pre_r, pre_src) =~= rest@);
                }
                return (matched, rest);
            },
            Some(f) => {
                let ghost pre_matched = matched@;
                let ghost pre_rest = rest@;
                let claimed = r.route(&f);
                proof {
                    assert(fork_accepted(pre_r, pre_src) == if pre_r.accepts(pre_src[0]) {
                        seq![pre_src[0]] + fork_accepted(r, src@)
                    } else {
                        fork_accepted(r, src@)
                    });
                    assert(fork_rejected(pre_r, pre_src) == if pre_r.accepts(pre_src[0]) {
                        fork_rejected(r, src@)
                    } else {
                        seq![pre_src[0]] + fork_rejected(r, src@)
                    });
                }
                if claimed {
                    matched.push_frame(f);
                    proof {
                        assert(matched@ =~= pre_matched + seq![f@]);
                        assert(pre_matched + (seq![f@] + fork_accepted(r, src@)) =~= (pre_matched
                            + seq![f@]) + fork_accepted(r, src@));
                    }
                } else {
                    rest.push_frame(f);
                    proof {
                        assert(rest@ =~= pre_rest + seq![f@]);
                        assert(pre_rest + (seq![f@] + fork_rejected(r, src@)) =~= (pre_rest
                            + seq![f@]) + fork_rejected(r, src@));
                    }
                }
            },
        }
    }
}

/// Fork correctness for a stateless predicate: forking is filtering. The
/// claimed branch is exactly the frames of the filter's channel, the rest
/// branch exactly the others, each in the source's relative order.
pub proof fn lemma_fork_by_channel(channel: u16, frames: Seq<FrameView>)
    ensures
        fork_accepted(ChannelFilter { channel }, frames) == frames.filter(
            |f: FrameView| f.channel == channel,
        ),
        fork_rejected(ChannelFilter { channel }, frames) == frames.filter(
            |f: FrameView| f.channel != channel,
        ),
    decreases frames.len(),
{
    let r = ChannelFilter { channel };
    let yes = |f: FrameView| f.channel == channel;
    let no = |f: FrameView| f.channel != channel;
    if frames.len() == 0 {
        assert(frames.filter(yes) =~= Seq::<FrameView>::empty()) by {
            reveal_with_fuel(Seq::filter, 1);
        }
        assert(frames.filter(no) =~= Seq::<FrameView>::empty()) by {
            reveal_with_fuel(Seq::filter, 1);
        }
    } else {
        let first = frames[0];
        let tail = frames.drop_first();
        lemma_fork_by_channel(channel, tail);
        assert(frames =~= seq![first] + tail);
        Seq::filter_distributes_over_add(seq![first], tail, yes);
        Seq::filter_distributes_over_add(seq![first], tail, no);
        lemma_filter_singleton(first, yes);
        lemma_filter_singleton(first, no);
        if yes(first) {
            assert(seq![first].filter(yes) + tail.filter(yes) =~= seq![first] + tail.filter(yes));
            assert(seq![first].filter(no) + tail.filter(no) =~= tail.filter(no));
        } else {
            assert(seq![first].filter(yes) + tail.filter(yes) =~= tail.filter(yes));
            assert(seq![first].filter(no) + tail.filter(no) =~= seq![first] + tail.filter(no));
        }
    }
}

proof fn lemma_filter_singleton(f: FrameView, pred: spec_fn(FrameView) -> bool)
    ensures
        seq![f].filter(pred) == if pred(f) {
            seq![f]
        } else {
            Seq::<FrameView>::empty()
        },
{
    reveal_with_fuel(Seq::filter, 2);
    assert(seq![f].drop_last() =~= Seq::<FrameView>::empty());
    assert(seq![f].last() == f);
    if pred(f) {
        assert(seq![f].filter(pred) =~= seq![f]);
    } else {
        assert(seq![f].filter(pred) =~= Seq::<FrameView>::empty());
    }
}

/// No frame is lost or invented by a fork, whatever the router: the two
/// branches together hold exactly the source's frames. A frame destined for
/// the branch nobody is polling sits buffered in that branch until it is
/// taken, in order.
pub proof fn lemma_fork_partitions<R: FrameRouter>(r: R, frames: Seq<FrameView>)
    ensures
        fork_accepted(r, frames).to_multiset().add(fork_rejected(r, frames).to_multiset())
            == frames.to_multiset(),
        fork_accepted(r, frames).len() + fork_rejected(r, frames).len() == frames.len(),
    decreases frames.len(),
{
    broadcast use vstd::seq_lib::group_to_multiset_ensures;
    broadcast use vstd::multiset::group_multiset_axioms;

    if frames.len() == 0 {
        assert(fork_accepted(r, frames).to_multiset().add(
            fork_rejected(r, frames).to_multiset(),
        ) =~= frames.to_multiset());
    } else {
        let first = frames[0];
        let tail = frames.drop_first();
        let r2 = r.advance(first);
        lemma_fork_partitions(r2, tail);
        assert(frames =~= seq![first] + tail);
        vstd::seq_lib::lemma_multiset_commutative(seq![first], tail);
        if r.accepts(first) {
            let acc = fork_accepted(r, frames);
            assert(acc == seq![first] + fork_accepted(r2, tail));
            vstd::seq_lib::lemma_multiset_commutative(seq![first], fork_accepted(r2, tail));
            assert(acc.to_multiset().add(fork_rejected(r2, tail).to_multiset())
                =~= frames.to_multiset());
        } else {
            let rej = fork_rejected(r, frames);
            assert(rej == seq![first] + fork_rejected(r2, tail));
            vstd::seq_lib::lemma_multiset_commutative(seq![first], fork_rejected(r2, tail));
            assert(fork_accepted(r2, tail).to_multiset().add(rej.to_multiset())
                =~= frames.to_multiset());
        }
    }
}

/// A property that holds of every frame of the source holds of every frame
/// of both branches: a fork routes frames, it never rewrites them.
pub proof fn lemma_fork_frames_from_source<R: FrameRouter>(
    r: R,
    frames: Seq<FrameView>,
    p: spec_fn(FrameView) -> bool,
)
    requires
        forall|i: int| 0 <= i < frames.len() ==> p(#[trigger] frames[i]),
    ensures
        forall|i: int|
            0 <= i < fork_accepted(r, frames).len() ==> p(#[trigger] fork_accepted(r, frames)[i]),
        forall|i: int|
            0 <= i < fork_rejected(r, frames).len() ==> p(#[trigger] fork_rejected(r, frames)[i]),
    decreases frames.len(),
{
    if frames.len() == 0 {
    } else {
        let first = frames[0];
        let tail = frames.drop_first();
        let r2 = r.advance(first);
        assert(forall|i: int| 0 <= i < tail.len() ==> p(#[trigger] tail[i])) by {
            assert(forall|i: int| 0 <= i < tail.len() ==> tail[i] == frames[i + 1]);
        }
        lemma_fork_frames_from_source(r2, tail, p);
        if r.accepts(first) {
            let acc = fork_accepted(r, frames);
            assert(acc == seq![first] + fork_accepted(r2, tail));
            assert(forall|i: int| 0 <= i < acc.len() ==> p(#[trigger] acc[i])) by {
                assert(acc[0] == first);
                assert(forall|i: int|
                    1 <= i < acc.len() ==> acc[i] == fork_accepted(r2, tail)[i - 1]);
            }
        } else {
            let rej = fork_rejected(r, frames);
            assert(rej == seq![first] + fork_rejected(r2, tail));
            assert(forall|i: int| 0 <= i < rej.len() ==> p(#[trigger] rej[i])) by {
                assert(rej[0] == first);
                assert(forall|i: int|
                    1 <= i < rej.len() ==> rej[i] == fork_rejected(r2, tail)[i - 1]);
            }
        }
    }
}

} // verus!
