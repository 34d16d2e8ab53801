//! The publish side of a channel.
//!
//! One published payload becomes a fixed three-frame sequence — the publish
//! method, a content header carrying the body size, and the content body —
//! offered whole, in order, to one sink handle. A [`PublishSink`] is the
//! long-lived form: it owns its handle and drives one payload at a time to
//! completion, telling a caller who offers a second payload too early that it
//! must retry, so that no payload's frames are ever interleaved with
//! another's on this handle.

use vstd::prelude::*;

use crate::errors::Error;
use crate::frame::{
    ContentBodyPayload, ContentHeaderPayload, Frame, FramePayload, FrameView, MethodPayload,
    MethodView, PayloadView, PublishOption, PublishOptionView,
};
use crate::local_channel::LocalChannel;
use crate::sink::{flushed, SharedSink, SinkHandle};

verus! {

/// The three frames that publish one payload on one channel.
pub open spec fn publish_frames(channel: u16, option: PublishOptionView, payload: Seq<u8>)
    -> Seq<FrameView> {
    seq![
        FrameView { channel, payload: PayloadView::Method(MethodView::BasicPublish(option)) },
        FrameView { channel, payload: PayloadView::ContentHeader(payload.len() as u64) },
        FrameView { channel, payload: PayloadView::ContentBody(payload) },
    ]
}

/// Offer the publish frame sequence for `payload` on `outgo`.
fn offer_publish_frames(outgo: &mut SinkHandle, channel: u16, option: PublishOption, payload: Vec<
    u8,
>)
    ensures
        final(outgo)@ == old(outgo)@ + publish_frames(channel, option@, payload@),
{
    let ghost pre = outgo@;
    let ghost opt = option@;
    let ghost bytes = payload@;
    let size: u64 = payload.len() as u64;
    let method = Frame { channel, payload: FramePayload::Method(MethodPayload::BasicPublish(option)) };
    let header = Frame {
        channel,
        payload: FramePayload::ContentHeader(ContentHeaderPayload { body_size: size }),
    };
    let body = Frame {
        channel,
        payload: FramePayload::ContentBody(ContentBodyPayload { bytes: payload }),
    };
    outgo.offer(method);
    outgo.offer(header);
    outgo.offer(body);
    proof {
        assert(outgo@ =~= pre + publish_frames(channel, opt, bytes));
    }
}

/// One-shot publish: drive the whole frame sequence onto the channel's sink
/// handle and hand the channel back. The channel id, the inbound frames and
/// the channel's other pending writes are untouched.
pub fn publish(ch: LocalChannel, payload: Vec<u8>, option: PublishOption) -> (r: LocalChannel)
    ensures
        r.channel_id == ch.channel_id,
        r.income@ == ch.income@,
        r.outgo@ == ch.outgo@ + publish_frames(ch.channel_id, option@, payload@),
{
    let LocalChannel { channel_id, income, outgo } = ch;
    let mut outgo = outgo;
    offer_publish_frames(&mut outgo, channel_id, option, payload);
    LocalChannel { channel_id, income, outgo }
}

/// Whether the sink is between accepting a payload and completing its write.
#[derive(Clone, Copy, PartialEq, Eq, Structural, Debug)]
pub enum PublishState {
    Waiting,
    Processing,
}

/// What `start_send` did with an offered payload.
#[derive(Debug)]
pub enum SendOutcome {
    /// The payload was accepted whole; its frames are queued.
    Accepted,
    /// A previous payload is still in flight: the offered payload is handed
    /// back, to be retried after a flush.
    NotReady(Vec<u8>),
}

/// What `poll_complete` found.
#[derive(Clone, Copy, PartialEq, Eq, Structural, Debug)]
pub enum PollOutcome {
    /// Nothing is in flight any more.
    Ready,
    /// Frames of the accepted payload still wait to reach the writer.
    NotReady,
}

/// A long-lived outbound endpoint publishing payloads on one channel with
/// fixed options, one payload at a time.
#[derive(Debug)]
pub struct PublishSink {
    pub channel_id: u16,
    pub option: PublishOption,
    pub state: PublishState,
    pub outgo: SinkHandle,
}

/// Create a publish sink over its own sink handle.
pub fn publish_sink(channel: u16, option: PublishOption, sink: SinkHandle) -> (s: PublishSink)
    ensures
        s.channel_id == channel,
        s.option == option,
        s.state == PublishState::Waiting,
        s.outgo@ == sink@,
{
    PublishSink { channel_id: channel, option, state: PublishState::Waiting, outgo: sink }
}

impl PublishSink {
    /// Is a payload's write still in flight?
    pub open spec fn in_flight(&self) -> bool {
        self.state == PublishState::Processing && self.outgo@.len() > 0
    }

    /// Offer one payload. If the previous payload's frames have not all
    /// reached the writer yet, the offer is refused and the payload handed
    /// back unchanged — the caller retries the same payload after a flush.
    /// An accepted payload has its whole frame sequence queued at once, so
    /// two payloads' frames never interleave on this handle.
    pub fn start_send(&mut self, payload: Vec<u8>) -> (r: SendOutcome)
        ensures
            final(self).channel_id == old(self).channel_id,
            final(self).option == old(self).option,
            match r {
                SendOutcome::NotReady(ret) => old(self).in_flight() && ret@ == payload@ && final(
                    self).state == old(self).state && final(self).outgo == old(self).outgo,
                SendOutcome::Accepted => !old(self).in_flight() && final(self).state
                    == PublishState::Processing && final(self).outgo@ == old(self).outgo@
                    + publish_frames(old(self).channel_id, old(self).option@, payload@),
            },
    {
        match self.poll_complete() {
            PollOutcome::NotReady => SendOutcome::NotReady(payload),
            PollOutcome::Ready => {
                let channel = self.channel_id;
                let option = PublishOption {
                    exchange: self.option.exchange.clone(),
                    routing_key: self.option.routing_key.clone(),
                    is_mandatory: self.option.is_mandatory,
                    is_immediate: self.option.is_immediate,
                };
                offer_publish_frames(&mut self.outgo, channel, option, payload);
                self.state = PublishState::Processing;
                SendOutcome::Accepted
            },
        }
    }

    /// Advance the in-flight write: once every queued frame has reached the
    /// writer, the sink is waiting again. Idempotent when already waiting.
    pub fn poll_complete(&mut self) -> (r: PollOutcome)
        ensures
            final(self).channel_id == old(self).channel_id,
            final(self).option == old(self).option,
            final(self).outgo == old(self).outgo,
            r == (if old(self).in_flight() {
                PollOutcome::NotReady
            } else {
                PollOutcome::Ready
            }),
            final(self).state == (if old(self).in_flight() {
                PublishState::Processing
            } else {
                PublishState::Waiting
            }),
    {
        match self.state {
            PublishState::Waiting => PollOutcome::Ready,
            PublishState::Processing => {
                if self.outgo.queued_len() == 0 {
                    self.state = PublishState::Waiting;
                    PollOutcome::Ready
                } else {
                    PollOutcome::NotReady
                }
            },
        }
    }

    /// Move the queued frames of the accepted payload, whole and in order,
    /// onto the shared writer. On a failed writer nothing moves and the
    /// terminal error is returned.
    pub fn flush_into(&mut self, sink: &mut SharedSink) -> (r: Result<(), Error>)
        ensures
            final(self).channel_id == old(self).channel_id,
            final(self).option == old(self).option,
            final(self).state == old(self).state,
            match r {
                Ok(()) => old(sink).failure() is None && final(sink).written() == flushed(
                    old(sink).written(),
                    old(self).outgo@,
                ) && final(sink).failure() is None && final(self).outgo@ == Seq::<
                    FrameView,
                >::empty(),
                Err(e) => old(sink).failure() == Some(e) && *final(sink) == *old(sink) && final(
                    self).outgo@ == old(self).outgo@,
            },
    {
        self.outgo.flush_into(sink)
    }
}

} // verus!
