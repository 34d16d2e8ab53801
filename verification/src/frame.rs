//! The frame model: the unit exchanged with the transport.
//!
//! A frame carries a channel identifier and a typed payload (a method call, a
//! content header, a content body, or a heartbeat). The session layer never
//! interprets payload internals beyond classifying the payload kind and
//! reading the fields that routing needs (the channel id, a consumer tag, a
//! server-assigned queue name); byte-level encoding and decoding belong to the
//! wire codec outside this crate.
//!
//! Every executable type here has a deep view (`FrameView` and friends) over
//! plain mathematical values, which all contracts in this crate speak of.

use vstd::prelude::*;

verus! {

/// The exchange kinds a declare-exchange request can name.
#[derive(Clone, Copy, PartialEq, Eq, Structural, Debug)]
pub enum ExchangeType {
    Direct,
    Fanout,
    Topic,
    Headers,
}

/// Options of a declare-exchange request.
#[derive(Debug, PartialEq, Eq)]
pub struct DeclareExchangeOption {
    pub name: String,
    pub typ: ExchangeType,
    pub is_passive: bool,
    pub is_durable: bool,
    pub is_auto_delete: bool,
    pub is_internal: bool,
    pub is_no_wait: bool,
}

#[verifier::ext_equal]
pub struct DeclareExchangeOptionView {
    pub name: Seq<char>,
    pub typ: ExchangeType,
    pub is_passive: bool,
    pub is_durable: bool,
    pub is_auto_delete: bool,
    pub is_internal: bool,
    pub is_no_wait: bool,
}

impl View for DeclareExchangeOption {
    type V = DeclareExchangeOptionView;

    open spec fn view(&self) -> DeclareExchangeOptionView {
        DeclareExchangeOptionView {
            name: self.name@,
            typ: self.typ,
            is_passive: self.is_passive,
            is_durable: self.is_durable,
            is_auto_delete: self.is_auto_delete,
            is_internal: self.is_internal,
            is_no_wait: self.is_no_wait,
        }
    }
}

impl DeclareExchangeOption {
    /// The default declare-exchange options: passive, durable, auto-delete,
    /// internal and no-wait are all off.
    pub fn new(name: String, typ: ExchangeType) -> (opt: Self)
        ensures
            opt@ == (DeclareExchangeOptionView {
                name: name@,
                typ: typ,
                is_passive: false,
                is_durable: false,
                is_auto_delete: false,
                is_internal: false,
                is_no_wait: false,
            }),
    {
        DeclareExchangeOption {
            name,
            typ,
            is_passive: false,
            is_durable: false,
            is_auto_delete: false,
            is_internal: false,
            is_no_wait: false,
        }
    }
}

/// Options of a declare-queue request.
#[derive(Debug, PartialEq, Eq)]
pub struct DeclareQueueOption {
    pub name: String,
    pub is_passive: bool,
    pub is_durable: bool,
    pub is_exclusive: bool,
    pub is_auto_delete: bool,
    pub is_no_wait: bool,
}

#[verifier::ext_equal]
pub struct DeclareQueueOptionView {
    pub name: Seq<char>,
    pub is_passive: bool,
    pub is_durable: bool,
    pub is_exclusive: bool,
    pub is_auto_delete: bool,
    pub is_no_wait: bool,
}

impl View for DeclareQueueOption {
    type V = DeclareQueueOptionView;

    open spec fn view(&self) -> DeclareQueueOptionView {
        DeclareQueueOptionView {
            name: self.name@,
            is_passive: self.is_passive,
            is_durable: self.is_durable,
            is_exclusive: self.is_exclusive,
            is_auto_delete: self.is_auto_delete,
            is_no_wait: self.is_no_wait,
        }
    }
}

impl DeclareQueueOption {
    /// The default options of a private queue: exclusive to this connection,
    /// with passive, durable, auto-delete and no-wait off.
    pub fn new_private(name: String) -> (opt: Self)
        ensures
            opt@ == (DeclareQueueOptionView {
                name: name@,
                is_passive: false,
                is_durable: false,
                is_exclusive: true,
                is_auto_delete: false,
                is_no_wait: false,
            }),
    {
        DeclareQueueOption {
            name,
            is_passive: false,
            is_durable: false,
            is_exclusive: true,
            is_auto_delete: false,
            is_no_wait: false,
        }
    }
}

/// Options of a bind-queue request.
#[derive(Debug, PartialEq, Eq)]
pub struct BindQueueOption {
    pub queue: String,
    pub exchange: String,
    pub routing_key: String,
    pub is_no_wait: bool,
}

#[verifier::ext_equal]
pub struct BindQueueOptionView {
    pub queue: Seq<char>,
    pub exchange: Seq<char>,
    pub routing_key: Seq<char>,
    pub is_no_wait: bool,
}

impl View for BindQueueOption {
    type V = BindQueueOptionView;

    open spec fn view(&self) -> BindQueueOptionView {
        BindQueueOptionView {
            queue: self.queue@,
            exchange: self.exchange@,
            routing_key: self.routing_key@,
            is_no_wait: self.is_no_wait,
        }
    }
}

impl BindQueueOption {
    /// The default bind-queue options: no-wait off.
    pub fn new(queue: String, exchange: String, routing_key: String) -> (opt: Self)
        ensures
            opt@ == (BindQueueOptionView {
                queue: queue@,
                exchange: exchange@,
                routing_key: routing_key@,
                is_no_wait: false,
            }),
    {
        BindQueueOption { queue, exchange, routing_key, is_no_wait: false }
    }
}

/// Options of a publish request.
#[derive(Debug, PartialEq, Eq)]
pub struct PublishOption {
    pub exchange: String,
    pub routing_key: String,
    pub is_mandatory: bool,
    pub is_immediate: bool,
}

#[verifier::ext_equal]
pub struct PublishOptionView {
    pub exchange: Seq<char>,
    pub routing_key: Seq<char>,
    pub is_mandatory: bool,
    pub is_immediate: bool,
}

impl View for PublishOption {
    type V = PublishOptionView;

    open spec fn view(&self) -> PublishOptionView {
        PublishOptionView {
            exchange: self.exchange@,
            routing_key: self.routing_key@,
            is_mandatory: self.is_mandatory,
            is_immediate: self.is_immediate,
        }
    }
}

impl PublishOption {
    /// The default publish options: mandatory and immediate are off.
    pub fn new(exchange: String, routing_key: String) -> (opt: Self)
        ensures
            opt@ == (PublishOptionView {
                exchange: exchange@,
                routing_key: routing_key@,
                is_mandatory: false,
                is_immediate: false,
            }),
    {
        PublishOption { exchange, routing_key, is_mandatory: false, is_immediate: false }
    }
}

/// Options of a start-consume request.
#[derive(Debug, PartialEq, Eq)]
pub struct SubscribeOption {
    pub queue: String,
    pub consumer_tag: String,
    pub is_no_local: bool,
    pub is_no_ack: bool,
    pub is_exclusive: bool,
    pub is_no_wait: bool,
}

#[verifier::ext_equal]
pub struct SubscribeOptionView {
    pub queue: Seq<char>,
    pub consumer_tag: Seq<char>,
    pub is_no_local: bool,
    pub is_no_ack: bool,
    pub is_exclusive: bool,
    pub is_no_wait: bool,
}

impl View for SubscribeOption {
    type V = SubscribeOptionView;

    open spec fn view(&self) -> SubscribeOptionView {
        SubscribeOptionView {
            queue: self.queue@,
            consumer_tag: self.consumer_tag@,
            is_no_local: self.is_no_local,
            is_no_ack: self.is_no_ack,
            is_exclusive: self.is_exclusive,
            is_no_wait: self.is_no_wait,
        }
    }
}

impl SubscribeOption {
    /// The default subscribe options: acknowledgements off (`no_ack` on),
    /// `no_local` and no-wait off, exclusivity as requested.
    pub fn new(queue: String, consumer_tag: String, no_local: bool, exclusive: bool) -> (opt:
        Self)
        ensures
            opt@ == (SubscribeOptionView {
                queue: queue@,
                consumer_tag: consumer_tag@,
                is_no_local: no_local,
                is_no_ack: true,
                is_exclusive: exclusive,
                is_no_wait: false,
            }),
    {
        SubscribeOption {
            queue,
            consumer_tag,
            is_no_local: no_local,
            is_no_ack: true,
            is_exclusive: exclusive,
            is_no_wait: false,
        }
    }
}

/// A method payload: one protocol method call or reply. Only the methods the
/// session layer itself sends or recognizes are distinguished; every other
/// method a transport may yield is classified `Other`.
#[derive(Debug, PartialEq, Eq)]
pub enum MethodPayload {
    ChannelOpen,
    ChannelOpenOk,
    ExchangeDeclare(DeclareExchangeOption),
    ExchangeDeclareOk,
    QueueDeclare(DeclareQueueOption),
    QueueDeclareOk { queue: String },
    QueueBind(BindQueueOption),
    QueueBindOk,
    BasicPublish(PublishOption),
    BasicConsume(SubscribeOption),
    BasicConsumeOk { consumer_tag: String },
    BasicDeliver { consumer_tag: String },
    Other,
}

#[verifier::ext_equal]
pub enum MethodView {
    ChannelOpen,
    ChannelOpenOk,
    ExchangeDeclare(DeclareExchangeOptionView),
    ExchangeDeclareOk,
    QueueDeclare(DeclareQueueOptionView),
    QueueDeclareOk { queue: Seq<char> },
    QueueBind(BindQueueOptionView),
    QueueBindOk,
    BasicPublish(PublishOptionView),
    BasicConsume(SubscribeOptionView),
    BasicConsumeOk { consumer_tag: Seq<char> },
    BasicDeliver { consumer_tag: Seq<char> },
    Other,
}

impl View for MethodPayload {
    type V = MethodView;

    open spec fn view(&self) -> MethodView {
        match self {
            MethodPayload::ChannelOpen => MethodView::ChannelOpen,
            MethodPayload::ChannelOpenOk => MethodView::ChannelOpenOk,
            MethodPayload::ExchangeDeclare(opt) => MethodView::ExchangeDeclare(opt@),
            MethodPayload::ExchangeDeclareOk => MethodView::ExchangeDeclareOk,
            MethodPayload::QueueDeclare(opt) => MethodView::QueueDeclare(opt@),
            MethodPayload::QueueDeclareOk { queue } => MethodView::QueueDeclareOk {
                queue: queue@,
            },
            MethodPayload::QueueBind(opt) => MethodView::QueueBind(opt@),
            MethodPayload::QueueBindOk => MethodView::QueueBindOk,
            MethodPayload::BasicPublish(opt) => MethodView::BasicPublish(opt@),
            MethodPayload::BasicConsume(opt) => MethodView::BasicConsume(opt@),
            MethodPayload::BasicConsumeOk { consumer_tag } => MethodView::BasicConsumeOk {
                consumer_tag: consumer_tag@,
            },
            MethodPayload::BasicDeliver { consumer_tag } => MethodView::BasicDeliver {
                consumer_tag: consumer_tag@,
            },
            MethodPayload::Other => MethodView::Other,
        }
    }
}

/// The header frame that precedes a message body, carrying the body size.
#[derive(Clone, Copy, PartialEq, Eq, Structural, Debug)]
pub struct ContentHeaderPayload {
    pub body_size: u64,
}

/// One message body.
#[derive(Debug, PartialEq, Eq)]
pub struct ContentBodyPayload {
    pub bytes: Vec<u8>,
}

/// The four payload kinds of a frame.
#[derive(Debug, PartialEq, Eq)]
pub enum FramePayload {
    Method(MethodPayload),
    ContentHeader(ContentHeaderPayload),
    ContentBody(ContentBodyPayload),
    Heartbeat,
}

#[verifier::ext_equal]
pub enum PayloadView {
    Method(MethodView),
    ContentHeader(u64),
    ContentBody(Seq<u8>),
    Heartbeat,
}

impl View for FramePayload {
    type V = PayloadView;

    open spec fn view(&self) -> PayloadView {
        match self {
            FramePayload::Method(m) => PayloadView::Method(m@),
            FramePayload::ContentHeader(h) => PayloadView::ContentHeader(h.body_size),
            FramePayload::ContentBody(b) => PayloadView::ContentBody(b.bytes@),
            FramePayload::Heartbeat => PayloadView::Heartbeat,
        }
    }
}

/// One frame: a channel identifier and a typed payload.
#[derive(Debug, PartialEq, Eq)]
pub struct Frame {
    pub channel: u16,
    pub payload: FramePayload,
}

#[verifier::ext_equal]
pub struct FrameView {
    pub channel: u16,
    pub payload: PayloadView,
}

impl View for Frame {
    type V = FrameView;

    open spec fn view(&self) -> FrameView {
        FrameView { channel: self.channel, payload: self.payload@ }
    }
}

/// The view of a whole sequence of frames.
pub open spec fn frames_view(frames: Seq<Frame>) -> Seq<FrameView> {
    frames.map_values(|f: Frame| f@)
}

/// The heartbeat frame, always sent on the control channel (channel 0).
pub open spec fn heartbeat_frame() -> FrameView {
    FrameView { channel: 0, payload: PayloadView::Heartbeat }
}

/// The request frame that opens a channel.
pub open spec fn channel_open_frame(channel: u16) -> FrameView {
    FrameView { channel, payload: PayloadView::Method(MethodView::ChannelOpen) }
}

/// The request frame of a declare-exchange operation.
pub open spec fn declare_exchange_frame(channel: u16, opt: DeclareExchangeOptionView) -> FrameView {
    FrameView { channel, payload: PayloadView::Method(MethodView::ExchangeDeclare(opt)) }
}

/// The request frame of a declare-queue operation.
pub open spec fn declare_queue_frame(channel: u16, opt: DeclareQueueOptionView) -> FrameView {
    FrameView { channel, payload: PayloadView::Method(MethodView::QueueDeclare(opt)) }
}

/// The request frame of a bind-queue operation.
pub open spec fn bind_queue_frame(channel: u16, opt: BindQueueOptionView) -> FrameView {
    FrameView { channel, payload: PayloadView::Method(MethodView::QueueBind(opt)) }
}

/// The request frame of a start-consume operation.
pub open spec fn consume_frame(channel: u16, opt: SubscribeOptionView) -> FrameView {
    FrameView { channel, payload: PayloadView::Method(MethodView::BasicConsume(opt)) }
}

} // verus!
