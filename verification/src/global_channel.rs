//! The connection-level channel: factory for logical channels, owner of the
//! heartbeat lifecycle.
//!
//! A [`GlobalChannel`] owns the connection's full inbound frame source and a
//! handle onto its shared outbound sink, from the end of the handshake on.
//! Opening a logical channel forks the inbound source by channel id — the
//! matching branch becomes the new channel's income, the rest stays with the
//! connection — and completes the open request/reply exchange on the new
//! branch. Starting the heartbeat splits off a background task with its own
//! sink handle, whose failure is reported once through the task and may be
//! ignored.

use vstd::prelude::*;

use crate::errors::Error;
use crate::fork::{fork, fork_accepted, fork_rejected, ChannelFilter};
use crate::frame::{
    channel_open_frame, heartbeat_frame, Frame, FramePayload, FrameView, MethodPayload,
    MethodView, PayloadView,
};
use crate::income::FrameSource;
use crate::local_channel::LocalChannel;
use crate::sink::{flushed, SharedSink, SinkHandle};

verus! {

/// Is this frame the reply that completes a channel-open request?
pub open spec fn is_channel_open_ok(f: FrameView) -> bool {
    f.payload matches PayloadView::Method(MethodView::ChannelOpenOk)
}

/// The connection before and alongside its logical channels: the full
/// inbound frame source and a handle onto the shared outbound sink.
#[derive(Debug)]
pub struct GlobalChannel {
    pub income: FrameSource,
    pub outgo: SinkHandle,
}

impl GlobalChannel {
    /// Wrap the transport capabilities handed over by a completed
    /// handshake.
    pub fn new(income: FrameSource, outgo: SinkHandle) -> (g: Self)
        ensures
            g == (GlobalChannel { income, outgo }),
    {
        GlobalChannel { income, outgo }
    }

    /// Feed one inbound frame of the connection, as the transport yields
    /// it.
    pub fn accept_frame(&mut self, f: Frame)
        ensures
            final(self).income@ == old(self).income@.push(f@),
            final(self).outgo == old(self).outgo,
    {
        self.income.push_frame(f);
    }

    /// Open the logical channel `channel_id`: fork the inbound source by
    /// that id, queue the open request on a fresh handle that the new
    /// channel will keep, and await the open acknowledgement as the first
    /// frame of the new channel's branch. The connection keeps the
    /// non-matching branch and its own handle, so further channels can be
    /// opened; on an error neither channel's capabilities are returned.
    pub fn open_channel(self, channel_id: u16) -> (r: Result<(GlobalChannel, LocalChannel), Error>)
        ensures
            ({
                let matched = fork_accepted(ChannelFilter { channel: channel_id }, self.income@);
                let rest = fork_rejected(ChannelFilter { channel: channel_id }, self.income@);
                match r {
                    Ok((g, l)) => matched.len() > 0 && is_channel_open_ok(matched[0]) && g.income@
                        == rest && g.outgo == self.outgo && l.channel_id == channel_id && l.income@
                        == matched.drop_first() && l.outgo@ == seq![channel_open_frame(channel_id)]
                        && l.wf(),
                    Err(Error::ChannelClosed) => matched.len() == 0,
                    Err(Error::ProtocolError) => matched.len() > 0 && !is_channel_open_ok(
                        matched[0],
                    ),
                    Err(_) => false,
                }
            }),
    {
        let ghost pre = self;
        let GlobalChannel { income, outgo } = self;
        let filter = ChannelFilter { channel: channel_id };
        let (matched, rest) = fork(income, filter);
        let mut matched = matched;
        let mut local_outgo = outgo.clone_handle();
        let request = Frame {
            channel: channel_id,
            payload: FramePayload::Method(MethodPayload::ChannelOpen),
        };
        local_outgo.offer(request);
        match matched.pop_frame() {
            None => Err(Error::ChannelClosed),
            Some(f) => match &f.payload {
                FramePayload::Method(MethodPayload::ChannelOpenOk) => {
                    let global = GlobalChannel { income: rest, outgo };
                    let local = LocalChannel {
                        channel_id,
                        income: matched,
                        outgo: local_outgo,
                    };
                    proof {
                        assert(local.outgo@ =~= seq![channel_open_frame(channel_id)]);
                        lemma_open_branch_wf(pre.income@, channel_id, local);
                    }
                    Ok((global, local))
                },
                _ => Err(Error::ProtocolError),
            },
        }
    }

    /// Start the heartbeat: the connection goes on unchanged, and the
    /// returned task owns its own fresh handle onto the shared sink plus
    /// the interval, in milliseconds, at which a driver should tick it.
    pub fn heartbeat(self, interval_ms: u64) -> (r: (GlobalChannel, HeartbeatTask))
        ensures
            r.0 == self,
            r.1.interval_ms == interval_ms,
            r.1.outgo@ == Seq::<FrameView>::empty(),
            r.1.failure is None,
            !r.1.failure_taken,
    {
        let handle = self.outgo.clone_handle();
        let task = HeartbeatTask {
            interval_ms,
            outgo: handle,
            failure: None,
            failure_taken: false,
        };
        (self, task)
    }
}

/// The branch of frames matching `channel_id` is well-formed for a channel
/// of that id, once its first frame is consumed.
proof fn lemma_open_branch_wf(frames: Seq<FrameView>, channel_id: u16, local: LocalChannel)
    requires
        local.channel_id == channel_id,
        local.income@ == fork_accepted(ChannelFilter { channel: channel_id }, frames).drop_first(),
        fork_accepted(ChannelFilter { channel: channel_id }, frames).len() > 0,
    ensures
        local.wf(),
{
    broadcast use vstd::seq_lib::group_filter_ensures;

    crate::fork::lemma_fork_by_channel(channel_id, frames);
    let matched = frames.filter(|f: FrameView| f.channel == channel_id);
    assert forall|i: int| 0 <= i < local.income@.len() implies (#[trigger] local.income@[i])
        .channel == local.channel_id by {
        assert(local.income@[i] == matched[i + 1]);
    }
}

/// The background heartbeat emitter: its own handle onto the shared sink,
/// the interval its driver should tick it at, and the one-shot failure
/// signal a terminal sink failure is reported through.
#[derive(Debug)]
pub struct HeartbeatTask {
    pub interval_ms: u64,
    pub outgo: SinkHandle,
    pub failure: Option<Error>,
    pub failure_taken: bool,
}

impl HeartbeatTask {
    /// One timer tick: queue one heartbeat frame on the control channel.
    /// A task that has already observed a terminal failure stops emitting.
    pub fn tick(&mut self)
        ensures
            final(self).interval_ms == old(self).interval_ms,
            final(self).failure == old(self).failure,
            final(self).failure_taken == old(self).failure_taken,
            final(self).outgo@ == (if old(self).failure is None {
                old(self).outgo@.push(heartbeat_frame())
            } else {
                old(self).outgo@
            }),
    {
        if self.failure.is_none() {
            let frame = Frame { channel: 0, payload: FramePayload::Heartbeat };
            self.outgo.offer(frame);
        }
    }

    /// Move the queued heartbeat frames, whole, onto the shared writer.
    /// When the writer has failed, its error is kept as the failure of this
    /// task (the first failure wins) rather than returned: the task reports
    /// only through its one-shot signal.
    pub fn flush_into(&mut self, sink: &mut SharedSink)
        ensures
            final(self).interval_ms == old(self).interval_ms,
            final(self).failure_taken == old(self).failure_taken,
            match old(sink).failure() {
                None => final(sink).written() == flushed(old(sink).written(), old(self).outgo@)
                    && final(sink).failure() is None && final(self).outgo@ == Seq::<
                    FrameView,
                >::empty() && final(self).failure == old(self).failure,
                Some(e) => *final(sink) == *old(sink) && final(self).outgo == old(self).outgo
                    && final(self).failure == (if old(self).failure is None {
                    Some(e)
                } else {
                    old(self).failure
                }),
            },
    {
        match self.outgo.flush_into(sink) {
            Ok(()) => (),
            Err(e) => {
                if self.failure.is_none() {
                    self.failure = Some(e);
                }
            },
        }
    }

    /// Take the terminal failure, at most once: the first call after a
    /// failure yields it, every later call yields nothing. Never calling
    /// this — ignoring the signal — is safe.
    pub fn take_failure(&mut self) -> (r: Option<Error>)
        ensures
            final(self).interval_ms == old(self).interval_ms,
            final(self).outgo == old(self).outgo,
            final(self).failure == old(self).failure,
            r == (if old(self).failure_taken {
                None::<Error>
            } else {
                old(self).failure
            }),
            final(self).failure_taken == (old(self).failure_taken || old(self).failure is Some),
    {
        if self.failure_taken {
            None
        } else {
            match self.failure {
                Some(e) => {
                    self.failure_taken = true;
                    Some(e)
                },
                None => None,
            }
        }
    }
}

} // verus!
