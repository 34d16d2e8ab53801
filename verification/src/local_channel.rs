//! One logical channel and its operations.
//!
//! A [`LocalChannel`] owns a channel id, an inbound frame source already
//! scoped to that id, and a handle onto the connection's shared outbound
//! sink. Every operation consumes the channel and returns a new one on
//! success — only one operation can be in flight on a channel, and the
//! capabilities move forward through the sequence of operations. On an error
//! the capabilities are not returned: the caller must re-open the channel.
//!
//! Each declare or bind operation sends its request frame and then awaits
//! the matching reply as the very next inbound frame; any other frame is a
//! protocol error, an exhausted source means the channel closed. A request
//! asking for no reply (`is_no_wait`) is still awaited — the one policy this
//! layer fixes, rather than switching to fire-and-forget.

use vstd::prelude::*;

use crate::errors::Error;
use crate::frame::{
    BindQueueOption, DeclareExchangeOption, DeclareQueueOption, ExchangeType, Frame, FramePayload,
    FrameView, MethodPayload, MethodView, PayloadView, PublishOption, SubscribeOptionView,
    bind_queue_frame, declare_exchange_frame, declare_queue_frame,
};
use crate::income::FrameSource;
use crate::publish::{publish_frames, PublishSink, PublishState};
use crate::sink::SinkHandle;
use crate::subscribe::{Expect, ItemChecker, SubscribeState, SubscribeStream};
use crate::fork::{fork_accepted, fork_rejected};

verus! {

/// Is this frame the reply that completes a declare-exchange request?
pub open spec fn is_exchange_declare_ok(f: FrameView) -> bool {
    f.payload matches PayloadView::Method(MethodView::ExchangeDeclareOk)
}

/// Is this frame the reply that completes a bind-queue request?
pub open spec fn is_queue_bind_ok(f: FrameView) -> bool {
    f.payload matches PayloadView::Method(MethodView::QueueBindOk)
}

/// The name a declare-queue reply must carry: the requested name where one
/// was requested, a non-empty server-assigned name where none was.
pub open spec fn queue_name_ok(requested: Seq<char>, assigned: Seq<char>) -> bool {
    if requested.len() == 0 {
        assigned.len() > 0
    } else {
        assigned == requested
    }
}

/// Is this frame a declare-queue reply acceptable for a request that asked
/// for `requested` as the name?
pub open spec fn is_queue_declare_ok(requested: Seq<char>, f: FrameView) -> bool {
    f.payload matches PayloadView::Method(MethodView::QueueDeclareOk { queue }) && queue_name_ok(
        requested,
        queue,
    )
}

/// What a single request/reply operation does: on success the request frame
/// is queued on the outbound handle, the reply is consumed from the income,
/// and the channel comes back with the same id; the source being exhausted
/// means the channel closed, and any reply but the expected one is a
/// protocol error — in those cases the capabilities are not returned.
pub open spec fn method_exchange_ensures(
    pre: LocalChannel,
    request: FrameView,
    reply_ok: spec_fn(FrameView) -> bool,
    r: Result<LocalChannel, Error>,
) -> bool {
    match r {
        Ok(ch) => pre.income@.len() > 0 && reply_ok(pre.income@[0]) && ch.channel_id
            == pre.channel_id && ch.income@ == pre.income@.drop_first() && ch.outgo@
            == pre.outgo@.push(request),
        Err(Error::ChannelClosed) => pre.income@.len() == 0,
        Err(Error::ProtocolError) => pre.income@.len() > 0 && !reply_ok(pre.income@[0]),
        Err(_) => false,
    }
}

/// One logical channel: its id, an income scoped to that id, and a handle
/// onto the shared outbound sink.
#[derive(Debug)]
pub struct LocalChannel {
    pub channel_id: u16,
    pub income: FrameSource,
    pub outgo: SinkHandle,
}

impl LocalChannel {
    /// Every inbound frame of this channel bears this channel's id.
    pub open spec fn wf(&self) -> bool {
        forall|i: int|
            0 <= i < self.income@.len() ==> (#[trigger] self.income@[i]).channel
                == self.channel_id
    }

    /// Feed one inbound frame of this channel, as the transport yields it.
    pub fn accept_frame(&mut self, f: Frame)
        requires
            f@.channel == old(self).channel_id,
        ensures
            final(self).channel_id == old(self).channel_id,
            final(self).income@ == old(self).income@.push(f@),
            final(self).outgo == old(self).outgo,
            old(self).wf() ==> final(self).wf(),
    {
        self.income.push_frame(f);
    }

    /// Declare an exchange with the default options: passive, durable,
    /// auto-delete, internal and no-wait all off.
    pub fn declare_exchange(self, exchange: String, typ: ExchangeType) -> (r: Result<
        LocalChannel,
        Error,
    >)
        ensures
            method_exchange_ensures(
                self,
                declare_exchange_frame(
                    self.channel_id,
                    (crate::frame::DeclareExchangeOptionView {
                        name: exchange@,
                        typ: typ,
                        is_passive: false,
                        is_durable: false,
                        is_auto_delete: false,
                        is_internal: false,
                        is_no_wait: false,
                    }),
                ),
                |f: FrameView| is_exchange_declare_ok(f),
                r,
            ),
            self.wf() ==> (r matches Ok(ch) ==> ch.wf()),
    {
        let option = DeclareExchangeOption::new(exchange, typ);
        self.declare_exchange_with_option(option)
    }

    /// Declare an exchange with the given options. The reply is awaited
    /// even when the options ask for no-wait.
    pub fn declare_exchange_with_option(self, option: DeclareExchangeOption) -> (r: Result<
        LocalChannel,
        Error,
    >)
        ensures
            method_exchange_ensures(
                self,
                declare_exchange_frame(self.channel_id, option@),
                |f: FrameView| is_exchange_declare_ok(f),
                r,
            ),
            self.wf() ==> (r matches Ok(ch) ==> ch.wf()),
    {
        let ghost pre = self;
        let LocalChannel { channel_id, income, outgo } = self;
        let mut income = income;
        let mut outgo = outgo;
        let request = Frame {
            channel: channel_id,
            payload: FramePayload::Method(MethodPayload::ExchangeDeclare(option)),
        };
        outgo.offer(request);
        match income.pop_frame() {
            None => Err(Error::ChannelClosed),
            Some(f) => match &f.payload {
                FramePayload::Method(MethodPayload::ExchangeDeclareOk) => {
                    let ch = LocalChannel { channel_id, income, outgo };
                    proof {
                        lemma_wf_after_reply(pre, ch);
                    }
                    Ok(ch)
                },
                _ => Err(Error::ProtocolError),
            },
        }
    }

    /// Declare a private queue: exclusive to this connection, other options
    /// off. An empty name asks the server to assign one; the assigned name
    /// is returned beside the channel.
    pub fn declare_private_queue(self, name: String) -> (r: Result<(String, LocalChannel), Error>)
        ensures
            declare_queue_ensures(
                self,
                (crate::frame::DeclareQueueOptionView {
                    name: name@,
                    is_passive: false,
                    is_durable: false,
                    is_exclusive: true,
                    is_auto_delete: false,
                    is_no_wait: false,
                }),
                r,
            ),
            self.wf() ==> (r matches Ok((_, ch)) ==> ch.wf()),
    {
        let option = DeclareQueueOption::new_private(name);
        self.declare_queue_with_option(option)
    }

    /// Declare a queue with the given options. The reply is awaited even
    /// when the options ask for no-wait, and its queue name is validated:
    /// a requested name must be echoed, an empty request must be answered
    /// with a non-empty server-assigned name.
    pub fn declare_queue_with_option(self, option: DeclareQueueOption) -> (r: Result<
        (String, LocalChannel),
        Error,
    >)
        ensures
            declare_queue_ensures(self, option@, r),
            self.wf() ==> (r matches Ok((_, ch)) ==> ch.wf()),
    {
        let ghost pre = self;
        let requested = option.name.clone();
        let LocalChannel { channel_id, income, outgo } = self;
        let mut income = income;
        let mut outgo = outgo;
        let request = Frame {
            channel: channel_id,
            payload: FramePayload::Method(MethodPayload::QueueDeclare(option)),
        };
        outgo.offer(request);
        match income.pop_frame() {
            None => Err(Error::ChannelClosed),
            Some(f) => match f.payload {
                FramePayload::Method(MethodPayload::QueueDeclareOk { queue }) => {
                    let name_ok: bool = if requested.as_str().is_empty() {
                        !queue.as_str().is_empty()
                    } else {
                        queue == requested
                    };
                    if name_ok {
                        let ch = LocalChannel { channel_id, income, outgo };
                        proof {
                            lemma_wf_after_reply(pre, ch);
                        }
                        Ok((queue, ch))
                    } else {
                        Err(Error::ProtocolError)
                    }
                },
                _ => Err(Error::ProtocolError),
            },
        }
    }

    /// Bind a queue to an exchange under a routing key, with no-wait off.
    pub fn bind_queue(self, queue: String, exchange: String, routing_key: String) -> (r: Result<
        LocalChannel,
        Error,
    >)
        ensures
            method_exchange_ensures(
                self,
                bind_queue_frame(
                    self.channel_id,
                    (crate::frame::BindQueueOptionView {
                        queue: queue@,
                        exchange: exchange@,
                        routing_key: routing_key@,
                        is_no_wait: false,
                    }),
                ),
                |f: FrameView| is_queue_bind_ok(f),
                r,
            ),
            self.wf() ==> (r matches Ok(ch) ==> ch.wf()),
    {
        let option = BindQueueOption::new(queue, exchange, routing_key);
        self.bind_queue_with_option(option)
    }

    /// Bind a queue with the given options. The reply is awaited even when
    /// the options ask for no-wait.
    pub fn bind_queue_with_option(self, option: BindQueueOption) -> (r: Result<
        LocalChannel,
        Error,
    >)
        ensures
            method_exchange_ensures(
                self,
                bind_queue_frame(self.channel_id, option@),
                |f: FrameView| is_queue_bind_ok(f),
                r,
            ),
            self.wf() ==> (r matches Ok(ch) ==> ch.wf()),
    {
        let ghost pre = self;
        let LocalChannel { channel_id, income, outgo } = self;
        let mut income = income;
        let mut outgo = outgo;
        let request = Frame {
            channel: channel_id,
            payload: FramePayload::Method(MethodPayload::QueueBind(option)),
        };
        outgo.offer(request);
        match income.pop_frame() {
            None => Err(Error::ChannelClosed),
            Some(f) => match &f.payload {
                FramePayload::Method(MethodPayload::QueueBindOk) => {
                    let ch = LocalChannel { channel_id, income, outgo };
                    proof {
                        lemma_wf_after_reply(pre, ch);
                    }
                    Ok(ch)
                },
                _ => Err(Error::ProtocolError),
            },
        }
    }

    /// Publish one payload with the default options: mandatory and
    /// immediate off. The whole frame sequence is queued before the channel
    /// comes back.
    pub fn publish(self, payload: Vec<u8>, exchange: String, routing_key: String) -> (r:
        LocalChannel)
        ensures
            r.channel_id == self.channel_id,
            r.income@ == self.income@,
            r.outgo@ == self.outgo@ + publish_frames(
                self.channel_id,
                (crate::frame::PublishOptionView {
                    exchange: exchange@,
                    routing_key: routing_key@,
                    is_mandatory: false,
                    is_immediate: false,
                }),
                payload@,
            ),
            self.wf() ==> r.wf(),
    {
        let option = PublishOption::new(exchange, routing_key);
        self.publish_with_option(payload, option)
    }

    /// Publish one payload with the given options.
    pub fn publish_with_option(self, payload: Vec<u8>, option: PublishOption) -> (r: LocalChannel)
        ensures
            r.channel_id == self.channel_id,
            r.income@ == self.income@,
            r.outgo@ == self.outgo@ + publish_frames(self.channel_id, option@, payload@),
            self.wf() ==> r.wf(),
    {
        crate::publish::publish(self, payload, option)
    }

    /// Split off a long-lived publish sink with the default options:
    /// mandatory and immediate off. The channel keeps its own handle onto
    /// the shared sink, so further operations can run beside the publishing.
    pub fn publish_sink(self, exchange: String, routing_key: String) -> (r: (
        LocalChannel,
        PublishSink,
    ))
        ensures
            r.0 == self,
            r.1.channel_id == self.channel_id,
            r.1.option@ == (crate::frame::PublishOptionView {
                exchange: exchange@,
                routing_key: routing_key@,
                is_mandatory: false,
                is_immediate: false,
            }),
            r.1.state == PublishState::Waiting,
            r.1.outgo@ == Seq::<FrameView>::empty(),
    {
        let option = PublishOption::new(exchange, routing_key);
        self.publish_sink_with_option(option)
    }

    /// Split off a long-lived publish sink with the given options.
    pub fn publish_sink_with_option(self, option: PublishOption) -> (r: (
        LocalChannel,
        PublishSink,
    ))
        ensures
            r.0 == self,
            r.1.channel_id == self.channel_id,
            r.1.option == option,
            r.1.state == PublishState::Waiting,
            r.1.outgo@ == Seq::<FrameView>::empty(),
    {
        let handle = self.outgo.clone_handle();
        let sink = crate::publish::publish_sink(self.channel_id, option, handle);
        (self, sink)
    }

    /// Subscribe to a queue as a private consumer (exclusive on): the
    /// channel's income is forked so that exactly this consumer's frames,
    /// in protocol order, feed the returned stream.
    pub fn subscribe_stream(self, queue: String, consumer_tag: String) -> (r: (
        LocalChannel,
        SubscribeStream,
    ))
        ensures
            subscribe_stream_ensures(self, queue@, consumer_tag, false, true, r),
            self.wf() ==> r.0.wf(),
    {
        crate::subscribe::subscribe_stream(self, queue, consumer_tag, false, true)
    }

    /// Subscribe to a queue as a shared consumer (exclusive off); many such
    /// streams may consume from one queue.
    pub fn subscribe_shared_stream(self, queue: String, consumer_tag: String) -> (r: (
        LocalChannel,
        SubscribeStream,
    ))
        ensures
            subscribe_stream_ensures(self, queue@, consumer_tag, false, false, r),
            self.wf() ==> r.0.wf(),
    {
        crate::subscribe::subscribe_stream(self, queue, consumer_tag, false, false)
    }
}

/// What a declare-queue operation does: beside the request/reply exchange,
/// the returned name is the reply's queue name, echoing a requested name and
/// never empty for an anonymous request.
pub open spec fn declare_queue_ensures(
    pre: LocalChannel,
    option: crate::frame::DeclareQueueOptionView,
    r: Result<(String, LocalChannel), Error>,
) -> bool {
    match r {
        Ok((name, ch)) => pre.income@.len() > 0 && is_queue_declare_ok(
            option.name,
            pre.income@[0],
        ) && (pre.income@[0].payload matches PayloadView::Method(
            MethodView::QueueDeclareOk { queue },
        ) && name@ == queue) && ch.channel_id == pre.channel_id && ch.income@
            == pre.income@.drop_first() && ch.outgo@ == pre.outgo@.push(
            declare_queue_frame(pre.channel_id, option),
        ),
        Err(Error::ChannelClosed) => pre.income@.len() == 0,
        Err(Error::ProtocolError) => pre.income@.len() > 0 && !is_queue_declare_ok(
            option.name,
            pre.income@[0],
        ),
        Err(_) => false,
    }
}

/// What a subscribe operation does: the income is forked by the consume
/// sequencer for the consumer tag, the claimed branch feeds the stream, the
/// rest stays with the channel, and the consume request — `no_ack` on,
/// `no_local` and no-wait off, exclusivity as asked — is queued outbound.
pub open spec fn subscribe_stream_ensures(
    pre: LocalChannel,
    queue: Seq<char>,
    consumer_tag: String,
    no_local: bool,
    exclusive: bool,
    r: (LocalChannel, SubscribeStream),
) -> bool {
    let checker = (ItemChecker { consumer_tag: consumer_tag, expect: Expect::ConsumeOk });
    let opt = (SubscribeOptionView {
        queue: queue,
        consumer_tag: consumer_tag@,
        is_no_local: no_local,
        is_no_ack: true,
        is_exclusive: exclusive,
        is_no_wait: false,
    });
    &&& r.0.channel_id == pre.channel_id
    &&& r.0.income@ == fork_rejected(checker, pre.income@)
    &&& r.0.outgo@ == pre.outgo@.push(crate::frame::consume_frame(pre.channel_id, opt))
    &&& r.1.consumer_tag@ == consumer_tag@
    &&& r.1.state == SubscribeState::AwaitingConsumeAck
    &&& r.1.income@ == fork_accepted(checker, pre.income@)
}

/// Consuming the first inbound frame keeps the channel well-formed.
proof fn lemma_wf_after_reply(pre: LocalChannel, post: LocalChannel)
    requires
        post.channel_id == pre.channel_id,
        post.income@ == pre.income@.drop_first(),
        pre.income@.len() > 0,
    ensures
        pre.wf() ==> post.wf(),
{
    if pre.wf() {
        assert forall|i: int| 0 <= i < post.income@.len() implies (#[trigger] post.income@[i])
            .channel == post.channel_id by {
            assert(post.income@[i] == pre.income@[i + 1]);
        }
    }
}

} // verus!

