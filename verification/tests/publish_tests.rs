use amqpr::frame::{Frame, FramePayload, MethodPayload, PublishOption};
use amqpr::income::FrameSource;
use amqpr::local_channel::LocalChannel;
use amqpr::publish::{publish_sink, PollOutcome, SendOutcome};
use amqpr::sink::{SharedSink, SinkHandle};

fn assert_publish_triple(frames: &[Frame], channel: u16, exchange: &str, key: &str, body: &[u8]) {
    assert_eq!(frames.len(), 3);
    match &frames[0].payload {
        FramePayload::Method(MethodPayload::BasicPublish(opt)) => {
            assert_eq!(frames[0].channel, channel);
            assert_eq!(opt.exchange, exchange);
            assert_eq!(opt.routing_key, key);
            assert!(!opt.is_mandatory);
            assert!(!opt.is_immediate);
        }
        other => panic!("expected a publish method frame, got {:?}", other),
    }
    match &frames[1].payload {
        FramePayload::ContentHeader(h) => {
            assert_eq!(frames[1].channel, channel);
            assert_eq!(h.body_size, body.len() as u64);
        }
        other => panic!("expected a content header frame, got {:?}", other),
    }
    match &frames[2].payload {
        FramePayload::ContentBody(b) => {
            assert_eq!(frames[2].channel, channel);
            assert_eq!(b.bytes, body);
        }
        other => panic!("expected a content body frame, got {:?}", other),
    }
}

#[test]
fn publish_emits_method_header_body_with_defaults() {
    let ch = LocalChannel {
        channel_id: 7,
        income: FrameSource::new(),
        outgo: SinkHandle::new(),
    };
    let mut ch = ch.publish(b"hello".to_vec(), "logs".to_string(), "".to_string());
    assert_eq!(ch.channel_id, 7);
    let queued = ch.outgo.take_queued();
    assert_publish_triple(&queued, 7, "logs", "", b"hello");
}

#[test]
fn publish_sink_rejects_second_payload_until_flushed() {
    let mut sink = SharedSink::new();
    let option = PublishOption::new("logs".to_string(), "key".to_string());
    let mut ps = publish_sink(3, option, SinkHandle::new());

    match ps.start_send(b"first".to_vec()) {
        SendOutcome::Accepted => {}
        SendOutcome::NotReady(_) => panic!("an idle sink must accept a payload"),
    }

    // A second payload before the first is flushed is handed back whole.
    match ps.start_send(b"second".to_vec()) {
        SendOutcome::NotReady(ret) => assert_eq!(ret, b"second".to_vec()),
        SendOutcome::Accepted => panic!("a busy sink must refuse a payload"),
    }
    assert_eq!(ps.poll_complete(), PollOutcome::NotReady);

    // After the flush the first payload is fully written and the sink is
    // ready again.
    ps.flush_into(&mut sink).unwrap();
    assert_eq!(ps.poll_complete(), PollOutcome::Ready);
    match ps.start_send(b"second".to_vec()) {
        SendOutcome::Accepted => {}
        SendOutcome::NotReady(_) => panic!("a flushed sink must accept the retried payload"),
    }
    ps.flush_into(&mut sink).unwrap();

    let written = sink.written_frames();
    assert_eq!(written.len(), 6);
    assert_publish_triple(&written[0..3], 3, "logs", "key", b"first");
    assert_publish_triple(&written[3..6], 3, "logs", "key", b"second");
}

#[test]
fn poll_complete_is_idempotent_when_waiting() {
    let option = PublishOption::new("x".to_string(), "y".to_string());
    let mut ps = publish_sink(1, option, SinkHandle::new());
    assert_eq!(ps.poll_complete(), PollOutcome::Ready);
    assert_eq!(ps.poll_complete(), PollOutcome::Ready);
}

#[test]
fn publish_sink_split_keeps_channel_usable() {
    let ch = LocalChannel {
        channel_id: 4,
        income: FrameSource::new(),
        outgo: SinkHandle::new(),
    };
    let (ch, mut ps) = ch.publish_sink("bus".to_string(), "r1".to_string());
    assert_eq!(ch.channel_id, 4);

    match ps.start_send(vec![1, 2, 3]) {
        SendOutcome::Accepted => {}
        SendOutcome::NotReady(_) => panic!("fresh publish sink must be ready"),
    }
    let queued = ps.outgo.take_queued();
    assert_publish_triple(&queued, 4, "bus", "r1", &[1, 2, 3]);
}
