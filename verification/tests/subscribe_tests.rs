use amqpr::errors::Error;
use amqpr::frame::{
    ContentBodyPayload, ContentHeaderPayload, Frame, FramePayload, MethodPayload,
};
use amqpr::income::FrameSource;
use amqpr::local_channel::LocalChannel;
use amqpr::sink::SinkHandle;
use amqpr::subscribe::{Expect, ItemChecker};

const CH: u16 = 11;

fn consume_ok(tag: &str) -> Frame {
    Frame {
        channel: CH,
        payload: FramePayload::Method(MethodPayload::BasicConsumeOk {
            consumer_tag: tag.to_string(),
        }),
    }
}

fn deliver(tag: &str) -> Frame {
    Frame {
        channel: CH,
        payload: FramePayload::Method(MethodPayload::BasicDeliver {
            consumer_tag: tag.to_string(),
        }),
    }
}

fn header(size: u64) -> Frame {
    Frame {
        channel: CH,
        payload: FramePayload::ContentHeader(ContentHeaderPayload { body_size: size }),
    }
}

fn body(bytes: &[u8]) -> Frame {
    Frame {
        channel: CH,
        payload: FramePayload::ContentBody(ContentBodyPayload { bytes: bytes.to_vec() }),
    }
}

#[test]
fn checker_walks_consume_deliver_header_body_cycle() {
    let mut c = ItemChecker::new("t".to_string());
    assert_eq!(c.expect, Expect::ConsumeOk);
    assert!(c.check(&consume_ok("t")));
    assert_eq!(c.expect, Expect::Deliver);
    assert!(c.check(&deliver("t")));
    assert_eq!(c.expect, Expect::ContentHeader);
    assert!(c.check(&header(1)));
    assert_eq!(c.expect, Expect::ContentBody);
    assert!(c.check(&body(b"x")));
    assert_eq!(c.expect, Expect::Deliver);
}

#[test]
fn checker_rejects_other_tags_and_out_of_order_frames_without_advancing() {
    let mut c = ItemChecker::new("t".to_string());
    assert!(!c.check(&consume_ok("u")));
    assert_eq!(c.expect, Expect::ConsumeOk);
    assert!(!c.check(&deliver("t")));
    assert_eq!(c.expect, Expect::ConsumeOk);
    assert!(!c.check(&header(4)));
    assert!(!c.check(&body(b"z")));
    assert_eq!(c.expect, Expect::ConsumeOk);

    assert!(c.check(&consume_ok("t")));
    assert!(!c.check(&deliver("u")));
    assert_eq!(c.expect, Expect::Deliver);
}

#[test]
fn subscribe_yields_payloads_in_order_ignoring_other_tags() {
    // The synthetic channel traffic: this subscription's frames for tag
    // "t", with another consumer's delivery interleaved.
    let frames = vec![
        consume_ok("t"),
        deliver("u"),
        header(3),
        body(b"zzz"),
        deliver("t"),
        header(1),
        body(b"X"),
        consume_ok("u"),
        deliver("t"),
        header(1),
        body(b"Y"),
    ];
    let ch = LocalChannel {
        channel_id: CH,
        income: FrameSource::from_frames(frames),
        outgo: SinkHandle::new(),
    };
    let (mut rest_ch, mut stream) = ch.subscribe_stream("q".to_string(), "t".to_string());

    assert_eq!(stream.next_delivery().unwrap(), b"X".to_vec());
    assert_eq!(stream.next_delivery().unwrap(), b"Y".to_vec());
    assert_eq!(stream.next_delivery(), Err(Error::ChannelClosed));

    // The foreign consumer's frames were left to the channel, in order.
    // (The header and body of the foreign delivery only stay out of the
    // subscription because the sequencer was not expecting content there.)
    assert_eq!(rest_ch.channel_id, CH);
    assert_eq!(rest_ch.income.pop_frame().unwrap(), deliver("u"));
    assert_eq!(rest_ch.income.pop_frame().unwrap(), header(3));
    assert_eq!(rest_ch.income.pop_frame().unwrap(), body(b"zzz"));
    assert_eq!(rest_ch.income.pop_frame().unwrap(), consume_ok("u"));
    assert!(rest_ch.income.pop_frame().is_none());
}

#[test]
fn subscribe_sends_consume_request_with_private_defaults() {
    let ch = LocalChannel {
        channel_id: CH,
        income: FrameSource::new(),
        outgo: SinkHandle::new(),
    };
    let (mut rest_ch, _stream) = ch.subscribe_stream("jobs".to_string(), "t1".to_string());
    let queued = rest_ch.outgo.take_queued();
    assert_eq!(queued.len(), 1);
    match &queued[0].payload {
        FramePayload::Method(MethodPayload::BasicConsume(opt)) => {
            assert_eq!(queued[0].channel, CH);
            assert_eq!(opt.queue, "jobs");
            assert_eq!(opt.consumer_tag, "t1");
            assert!(!opt.is_no_local);
            assert!(opt.is_no_ack);
            assert!(opt.is_exclusive);
            assert!(!opt.is_no_wait);
        }
        other => panic!("expected a consume request, got {:?}", other),
    }
}

#[test]
fn shared_subscribe_is_not_exclusive() {
    let ch = LocalChannel {
        channel_id: CH,
        income: FrameSource::new(),
        outgo: SinkHandle::new(),
    };
    let (mut rest_ch, _stream) = ch.subscribe_shared_stream("jobs".to_string(), "t2".to_string());
    let queued = rest_ch.outgo.take_queued();
    assert_eq!(queued.len(), 1);
    match &queued[0].payload {
        FramePayload::Method(MethodPayload::BasicConsume(opt)) => {
            assert!(!opt.is_exclusive);
            assert!(opt.is_no_ack);
        }
        other => panic!("expected a consume request, got {:?}", other),
    }
}

#[test]
fn subscribe_reports_protocol_error_on_unexpected_frame() {
    // The stream polls an income that was not pre-filtered: a frame that is
    // not the expected acknowledgement is a protocol error.
    let frames = vec![deliver("t")];
    let mut stream = amqpr::subscribe::SubscribeStream::new(
        "t".to_string(),
        FrameSource::from_frames(frames),
    );
    assert_eq!(stream.next_delivery(), Err(Error::ProtocolError));
}

#[test]
fn subscribe_reports_closed_on_exhausted_income() {
    let mut stream =
        amqpr::subscribe::SubscribeStream::new("t".to_string(), FrameSource::new());
    assert_eq!(stream.next_delivery(), Err(Error::ChannelClosed));
}

#[test]
fn subscribe_reports_protocol_error_mid_delivery() {
    let frames = vec![consume_ok("t"), deliver("t"), deliver("t")];
    let mut stream = amqpr::subscribe::SubscribeStream::new(
        "t".to_string(),
        FrameSource::from_frames(frames),
    );
    assert_eq!(stream.next_delivery(), Err(Error::ProtocolError));
}

#[test]
fn subscribe_reports_closed_mid_delivery() {
    let frames = vec![consume_ok("t"), deliver("t"), header(1)];
    let mut stream = amqpr::subscribe::SubscribeStream::new(
        "t".to_string(),
        FrameSource::from_frames(frames),
    );
    assert_eq!(stream.next_delivery(), Err(Error::ChannelClosed));
}
