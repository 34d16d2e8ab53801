//! The consume/delivery side of a channel.
//!
//! A subscription first awaits the server's consume acknowledgement, then
//! yields an unbounded sequence of message payloads, each carried by a
//! (deliver, content-header, content-body) frame triple. Because a channel's
//! frame stream may also carry unrelated traffic, the [`ItemChecker`]
//! sequencer claims, per consumer tag, exactly the frames of this
//! subscription in their protocol order; forking a channel's income by it
//! leaves every other frame to the channel.

use vstd::prelude::*;

use crate::errors::Error;
use crate::fork::{fork_accepted, FrameRouter};
use crate::frame::{Frame, FramePayload, FrameView, MethodPayload, MethodView, PayloadView,
    SubscribeOption};
use crate::income::FrameSource;
use crate::local_channel::{subscribe_stream_ensures, LocalChannel};

verus! {

/// Which frame kind the sequencer expects next for its consumer tag.
#[derive(Clone, Copy, PartialEq, Eq, Structural, Debug)]
pub enum Expect {
    ConsumeOk,
    Deliver,
    ContentHeader,
    ContentBody,
}

/// Does this frame match what the sequencer for `tag` expects in state
/// `expect`? A consume acknowledgement and a deliver notification must bear
/// the tag; a content header or body follows the deliver that announced it
/// and carries no tag of its own.
pub open spec fn matches_expected(tag: Seq<char>, expect: Expect, f: FrameView) -> bool {
    match expect {
        Expect::ConsumeOk => f.payload matches PayloadView::Method(
            MethodView::BasicConsumeOk { consumer_tag },
        ) && consumer_tag == tag,
        Expect::Deliver => f.payload matches PayloadView::Method(
            MethodView::BasicDeliver { consumer_tag },
        ) && consumer_tag == tag,
        Expect::ContentHeader => f.payload matches PayloadView::ContentHeader(_),
        Expect::ContentBody => f.payload matches PayloadView::ContentBody(_),
    }
}

/// The sequencer's next state after it accepted a frame in state `expect`:
/// the acknowledgement is consumed once, then deliveries cycle through
/// deliver, header, body.
pub open spec fn next_expect(expect: Expect) -> Expect {
    match expect {
        Expect::ConsumeOk => Expect::Deliver,
        Expect::Deliver => Expect::ContentHeader,
        Expect::ContentHeader => Expect::ContentBody,
        Expect::ContentBody => Expect::Deliver,
    }
}

/// The consumer tag a frame bears, if its kind carries one.
pub open spec fn frame_tag(f: FrameView) -> Option<Seq<char>> {
    match f.payload {
        PayloadView::Method(MethodView::BasicConsumeOk { consumer_tag }) => Some(consumer_tag),
        PayloadView::Method(MethodView::BasicDeliver { consumer_tag }) => Some(consumer_tag),
        _ => None,
    }
}

/// The per-consumer frame sequencer: accepts a frame only if it is of the
/// expected kind and, where the kind bears one, of this subscription's
/// consumer tag; any mismatch is rejected without advancing the state.
#[derive(Debug)]
pub struct ItemChecker {
    pub consumer_tag: String,
    pub expect: Expect,
}

impl ItemChecker {
    /// A fresh sequencer for one consumer tag, expecting the consume
    /// acknowledgement first.
    pub fn new(consumer_tag: String) -> (c: Self)
        ensures
            c == (ItemChecker { consumer_tag, expect: Expect::ConsumeOk }),
    {
        ItemChecker { consumer_tag, expect: Expect::ConsumeOk }
    }

    /// Decide one frame: claim it and advance if it is the expected kind for
    /// this tag, else leave it (for the other fork branch) and stay put.
    pub fn check(&mut self, frame: &Frame) -> (b: bool)
        ensures
            b == old(self).accepts(frame@),
            *final(self) == old(self).advance(frame@),
    {
        let accepted: bool = match self.expect {
            Expect::ConsumeOk => match &frame.payload {
                FramePayload::Method(
                    MethodPayload::BasicConsumeOk { consumer_tag },
                ) => *consumer_tag == self.consumer_tag,
                _ => false,
            },
            Expect::Deliver => match &frame.payload {
                FramePayload::Method(
                    MethodPayload::BasicDeliver { consumer_tag },
                ) => *consumer_tag == self.consumer_tag,
                _ => false,
            },
            Expect::ContentHeader => matches!(frame.payload, FramePayload::ContentHeader(_)),
            Expect::ContentBody => matches!(frame.payload, FramePayload::ContentBody(_)),
        };
        if accepted {
            self.expect = match self.expect {
                Expect::ConsumeOk => Expect::Deliver,
                Expect::Deliver => Expect::ContentHeader,
                Expect::ContentHeader => Expect::ContentBody,
                Expect::ContentBody => Expect::Deliver,
            };
        }
        accepted
    }
}

impl FrameRouter for ItemChecker {
    open spec fn accepts(&self, f: FrameView) -> bool {
        matches_expected(self.consumer_tag@, self.expect, f)
    }

    open spec fn advance(&self, f: FrameView) -> Self {
        if self.accepts(f) {
            ItemChecker { consumer_tag: self.consumer_tag, expect: next_expect(self.expect) }
        } else {
            *self
        }
    }

    fn route(&mut self, f: &Frame) -> (b: bool) {
        self.check(f)
    }
}

/// A frame that bears another subscription's consumer tag is never claimed,
/// in any state of the sequencer; and a rejected frame never advances the
/// sequencer. Deliveries for other consumers may interleave anywhere in the
/// source without this subscription observing them.
pub proof fn lemma_checker_ignores_other_tags(c: ItemChecker, f: FrameView)
    ensures
        (frame_tag(f) matches Some(u) && u != c.consumer_tag@) ==> !c.accepts(f),
        !c.accepts(f) ==> c.advance(f) == c,
{
}

/// Where the subscription's delivery state machine stands.
#[derive(Clone, Copy, PartialEq, Eq, Structural, Debug)]
pub enum SubscribeState {
    AwaitingConsumeAck,
    ReceivingDeliveries,
}

/// What one poll of the subscription does with the frames before it.
#[verifier::ext_equal]
pub enum DeliveryStep {
    /// The source was exhausted mid-step, after `consumed` frames.
    Closed { consumed: int },
    /// A frame of the wrong kind arrived; it is the last of the `consumed`.
    Unexpected { consumed: int },
    /// A whole delivery triple arrived; `payload` is its body.
    Delivered { payload: Seq<u8>, consumed: int },
}

/// How many frames the step consumed.
pub open spec fn step_consumed(s: DeliveryStep) -> int {
    match s {
        DeliveryStep::Closed { consumed } => consumed,
        DeliveryStep::Unexpected { consumed } => consumed,
        DeliveryStep::Delivered { consumed, .. } => consumed,
    }
}

/// The same step, with `k` more frames counted as consumed before it.
pub open spec fn step_after(s: DeliveryStep, k: int) -> DeliveryStep {
    match s {
        DeliveryStep::Closed { consumed } => DeliveryStep::Closed { consumed: consumed + k },
        DeliveryStep::Unexpected { consumed } => DeliveryStep::Unexpected {
            consumed: consumed + k,
        },
        DeliveryStep::Delivered { payload, consumed } => DeliveryStep::Delivered {
            payload,
            consumed: consumed + k,
        },
    }
}

/// The body bytes of a content-body frame (empty for any other kind).
pub open spec fn body_bytes(f: FrameView) -> Seq<u8> {
    match f.payload {
        PayloadView::ContentBody(b) => b,
        _ => Seq::empty(),
    }
}

/// One delivery: the next three frames must be a deliver notification for
/// `tag`, a content header, and a content body, in that order.
pub open spec fn delivery_step(tag: Seq<char>, frames: Seq<FrameView>) -> DeliveryStep {
    if frames.len() == 0 {
        DeliveryStep::Closed { consumed: 0 }
    } else if !matches_expected(tag, Expect::Deliver, frames[0]) {
        DeliveryStep::Unexpected { consumed: 1 }
    } else if frames.len() == 1 {
        DeliveryStep::Closed { consumed: 1 }
    } else if !matches_expected(tag, Expect::ContentHeader, frames[1]) {
        DeliveryStep::Unexpected { consumed: 2 }
    } else if frames.len() == 2 {
        DeliveryStep::Closed { consumed: 2 }
    } else if !matches_expected(tag, Expect::ContentBody, frames[2]) {
        DeliveryStep::Unexpected { consumed: 3 }
    } else {
        DeliveryStep::Delivered { payload: body_bytes(frames[2]), consumed: 3 }
    }
}

/// One poll of the subscription: in the acknowledgement phase the next frame
/// must be the consume acknowledgement for `tag`, and a delivery follows it;
/// afterwards each poll is one delivery.
pub open spec fn subscribe_step(tag: Seq<char>, state: SubscribeState, frames: Seq<FrameView>)
    -> DeliveryStep {
    match state {
        SubscribeState::ReceivingDeliveries => delivery_step(tag, frames),
        SubscribeState::AwaitingConsumeAck => if frames.len() == 0 {
            DeliveryStep::Closed { consumed: 0 }
        } else if !matches_expected(tag, Expect::ConsumeOk, frames[0]) {
            DeliveryStep::Unexpected { consumed: 1 }
        } else {
            step_after(delivery_step(tag, frames.drop_first()), 1)
        },
    }
}

/// The machine's state after one poll: the acknowledgement phase ends the
/// moment the acknowledgement frame is consumed.
pub open spec fn subscribe_next_state(
    tag: Seq<char>,
    state: SubscribeState,
    frames: Seq<FrameView>,
) -> SubscribeState {
    match state {
        SubscribeState::ReceivingDeliveries => SubscribeState::ReceivingDeliveries,
        SubscribeState::AwaitingConsumeAck => if frames.len() > 0 && matches_expected(
            tag,
            Expect::ConsumeOk,
            frames[0],
        ) {
            SubscribeState::ReceivingDeliveries
        } else {
            SubscribeState::AwaitingConsumeAck
        },
    }
}

/// The stream of payloads of one subscription: an income pre-filtered to
/// this consumer, the consumer tag, and where the machine stands.
#[derive(Debug)]
pub struct SubscribeStream {
    pub consumer_tag: String,
    pub state: SubscribeState,
    pub income: FrameSource,
}

impl SubscribeStream {
    /// A fresh subscription stream over `income`, still awaiting the consume
    /// acknowledgement for `consumer_tag`.
    pub fn new(consumer_tag: String, income: FrameSource) -> (s: Self)
        ensures
            s == (SubscribeStream {
                consumer_tag,
                state: SubscribeState::AwaitingConsumeAck,
                income,
            }),
    {
        SubscribeStream { consumer_tag, state: SubscribeState::AwaitingConsumeAck, income }
    }

    /// Yield the next delivered payload. The first successful poll consumes
    /// the consume acknowledgement; each later one consumes one (deliver,
    /// content-header, content-body) triple and yields the body. An
    /// exhausted income means the channel or connection closed; a frame out
    /// of protocol order is an error.
    pub fn next_delivery(&mut self) -> (r: Result<Vec<u8>, Error>)
        ensures
            final(self).consumer_tag@ == old(self).consumer_tag@,
            final(self).state == subscribe_next_state(
                old(self).consumer_tag@,
                old(self).state,
                old(self).income@,
            ),
            final(self).income@ == old(self).income@.skip(
                step_consumed(
                    subscribe_step(old(self).consumer_tag@, old(self).state, old(self).income@),
                ),
            ),
            match r {
                Ok(bytes) => subscribe_step(
                    old(self).consumer_tag@,
                    old(self).state,
                    old(self).income@,
                ) matches DeliveryStep::Delivered { payload, .. } && bytes@ == payload,
                Err(Error::ChannelClosed) => subscribe_step(
                    old(self).consumer_tag@,
                    old(self).state,
                    old(self).income@,
                ) matches DeliveryStep::Closed { .. },
                Err(Error::ProtocolError) => subscribe_step(
                    old(self).consumer_tag@,
                    old(self).state,
                    old(self).income@,
                ) matches DeliveryStep::Unexpected { .. },
                Err(_) => false,
            },
    {
        let ghost frames0 = self.income@;
        if matches!(self.state, SubscribeState::AwaitingConsumeAck) {
            match self.income.pop_frame() {
                None => {
                    proof {
                        assert(frames0.skip(0) =~= frames0);
                    }
                    return Err(Error::ChannelClosed);
                },
                Some(f) => {
                    let ack_ok: bool = match &f.payload {
                        FramePayload::Method(
                            MethodPayload::BasicConsumeOk { consumer_tag },
                        ) => *consumer_tag == self.consumer_tag,
                        _ => false,
                    };
                    proof {
                        assert(frames0.drop_first() =~= frames0.skip(1));
                    }
                    if !ack_ok {
                        return Err(Error::ProtocolError);
                    }
                    self.state = SubscribeState::ReceivingDeliveries;
                },
            }
        }
        let ghost consumed0 = frames0.len() - self.income@.len();
        let ghost frames1 = self.income@;
        // A deliver notification for this tag must come first.
        let deliver_ok: bool = match self.income.pop_frame() {
            None => {
                proof {
                    assert(frames0.skip(consumed0) =~= frames1);
                }
                return Err(Error::ChannelClosed);
            },
            Some(f) => match &f.payload {
                FramePayload::Method(
                    MethodPayload::BasicDeliver { consumer_tag },
                ) => *consumer_tag == self.consumer_tag,
                _ => false,
            },
        };
        proof {
            assert(frames1.drop_first() =~= frames0.skip(consumed0 + 1));
        }
        if !deliver_ok {
            return Err(Error::ProtocolError);
        }
        // Then its content header.
        let header_ok: bool = match self.income.pop_frame() {
            None => {
                return Err(Error::ChannelClosed);
            },
            Some(f) => matches!(f.payload, FramePayload::ContentHeader(_)),
        };
        proof {
            assert(frames1.drop_first().drop_first() =~= frames0.skip(consumed0 + 2));
        }
        if !header_ok {
            return Err(Error::ProtocolError);
        }
        // Then its content body, whose bytes are the payload.
        match self.income.pop_frame() {
            None => {
                return Err(Error::ChannelClosed);
            },
            Some(f) => {
                proof {
                    assert(frames1.drop_first().drop_first().drop_first() =~= frames0.skip(
                        consumed0 + 3,
                    ));
                }
                match f.payload {
                    FramePayload::ContentBody(b) => Ok(b.bytes),
                    _ => Err(Error::ProtocolError),
                }
            },
        }
    }
}

/// Is this frame sequence exactly in the order the sequencer for `tag`
/// admits, starting from state `e`?
pub open spec fn well_sequenced(tag: Seq<char>, e: Expect, frames: Seq<FrameView>) -> bool
    decreases frames.len(),
{
    frames.len() == 0 || (matches_expected(tag, e, frames[0]) && well_sequenced(
        tag,
        next_expect(e),
        frames.drop_first(),
    ))
}

/// Whatever a channel's income carries, the branch the sequencer claims is
/// well-sequenced: the consume acknowledgement first, then whole delivery
/// triples, in order — the frames a subscription's fork feeds it are never
/// out of protocol order.
pub proof fn lemma_fork_accepted_well_sequenced(c: ItemChecker, frames: Seq<FrameView>)
    ensures
        well_sequenced(c.consumer_tag@, c.expect, fork_accepted(c, frames)),
    decreases frames.len(),
{
    if frames.len() > 0 {
        let f = frames[0];
        let rest = frames.drop_first();
        let c2 = c.advance(f);
        lemma_fork_accepted_well_sequenced(c2, rest);
        if c.accepts(f) {
            let acc = fork_accepted(c, frames);
            assert(acc == seq![f] + fork_accepted(c2, rest));
            assert(acc[0] == f);
            assert(acc.drop_first() =~= fork_accepted(c2, rest));
        }
    }
}

/// Polling the delivery phase of a well-sequenced source never meets an
/// out-of-order frame: with a whole triple buffered it yields exactly that
/// triple's body and leaves a source that is again well-sequenced for the
/// next delivery; with less buffered, the source has closed.
pub proof fn lemma_well_sequenced_delivery(tag: Seq<char>, frames: Seq<FrameView>)
    requires
        well_sequenced(tag, Expect::Deliver, frames),
    ensures
        !(delivery_step(tag, frames) matches DeliveryStep::Unexpected { .. }),
        frames.len() >= 3 ==> delivery_step(tag, frames) == (DeliveryStep::Delivered {
            payload: body_bytes(frames[2]),
            consumed: 3,
        }),
        frames.len() >= 3 ==> well_sequenced(tag, Expect::Deliver, frames.skip(3)),
        frames.len() < 3 ==> delivery_step(tag, frames) matches DeliveryStep::Closed { .. },
{
    if frames.len() >= 1 {
        let d1 = frames.drop_first();
        assert(well_sequenced(tag, Expect::ContentHeader, d1));
        if frames.len() >= 2 {
            let d2 = d1.drop_first();
            assert(frames[1] == d1[0]);
            assert(well_sequenced(tag, Expect::ContentBody, d2));
            if frames.len() >= 3 {
                let d3 = d2.drop_first();
                assert(frames[2] == d2[0]);
                assert(well_sequenced(tag, Expect::Deliver, d3));
                assert(d3 =~= frames.skip(3));
            }
        }
    }
}

/// Polling the acknowledgement phase of a well-sequenced source never meets
/// an out-of-order frame either: the acknowledgement comes first, and what
/// follows it is well-sequenced for the deliveries.
pub proof fn lemma_well_sequenced_ack(tag: Seq<char>, frames: Seq<FrameView>)
    requires
        well_sequenced(tag, Expect::ConsumeOk, frames),
    ensures
        !(subscribe_step(tag, SubscribeState::AwaitingConsumeAck, frames)
            matches DeliveryStep::Unexpected { .. }),
        frames.len() >= 1 ==> well_sequenced(tag, Expect::Deliver, frames.drop_first()),
        frames.len() >= 1 ==> subscribe_next_state(
            tag,
            SubscribeState::AwaitingConsumeAck,
            frames,
        ) == SubscribeState::ReceivingDeliveries,
{
    if frames.len() >= 1 {
        let d1 = frames.drop_first();
        assert(well_sequenced(tag, Expect::Deliver, d1));
        lemma_well_sequenced_delivery(tag, d1);
    }
}

/// Split a subscription off a channel: fork the channel's income by the
/// consume sequencer for `consumer_tag`, queue the consume request —
/// `no_ack` on, no-wait off — on the channel's outbound handle, and return
/// the residual channel beside the stream of this consumer's payloads.
pub fn subscribe_stream(
    local_ch: LocalChannel,
    queue: String,
    consumer_tag: String,
    no_local: bool,
    exclusive: bool,
) -> (r: (LocalChannel, SubscribeStream))
    ensures
        subscribe_stream_ensures(local_ch, queue@, consumer_tag, no_local, exclusive, r),
        local_ch.wf() ==> r.0.wf(),
{
    let ghost pre = local_ch;
    let tag_for_checker = consumer_tag.clone();
    let tag_for_stream = consumer_tag.clone();
    let LocalChannel { channel_id, income, outgo } = local_ch;
    let mut outgo = outgo;
    let option = SubscribeOption::new(queue, consumer_tag, no_local, exclusive);
    let request = Frame {
        channel: channel_id,
        payload: FramePayload::Method(MethodPayload::BasicConsume(option)),
    };
    outgo.offer(request);
    let checker = ItemChecker::new(tag_for_checker);
    let ghost checker0 = checker;
    let (sub_income, rest_income) = crate::fork::fork(income, checker);
    let stream = SubscribeStream::new(tag_for_stream, sub_income);
    let ch = LocalChannel { channel_id, income: rest_income, outgo };
    proof {
        if pre.wf() {
            let keeps_id = |f: FrameView| f.channel == pre.channel_id;
            crate::fork::lemma_fork_frames_from_source(checker0, pre.income@, keeps_id);
            assert forall|i: int| 0 <= i < ch.income@.len() implies (#[trigger] ch.income@[i])
                .channel == ch.channel_id by {
                assert(keeps_id(ch.income@[i]));
            }
        }
    }
    (ch, stream)
}

} // verus!
