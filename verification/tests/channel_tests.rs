use amqpr::errors::Error;
use amqpr::frame::{
    ExchangeType, Frame, FramePayload, MethodPayload, PublishOption,
};
use amqpr::global_channel::GlobalChannel;
use amqpr::income::FrameSource;
use amqpr::local_channel::LocalChannel;
use amqpr::publish::{publish_sink, PollOutcome, SendOutcome};
use amqpr::sink::{SharedSink, SinkHandle};

fn method(channel: u16, payload: MethodPayload) -> Frame {
    Frame { channel, payload: FramePayload::Method(payload) }
}

#[test]
fn open_channel_forks_and_completes_the_open_exchange() {
    let frames = vec![
        method(0, MethodPayload::Other),
        method(42, MethodPayload::ChannelOpenOk),
        Frame { channel: 0, payload: FramePayload::Heartbeat },
    ];
    let global = GlobalChannel::new(FrameSource::from_frames(frames), SinkHandle::new());
    let (mut global, mut local) = global.open_channel(42).unwrap();

    assert_eq!(local.channel_id, 42);
    // The open request went out on the new channel's handle.
    let queued = local.outgo.take_queued();
    assert_eq!(queued.len(), 1);
    assert_eq!(queued[0], method(42, MethodPayload::ChannelOpen));
    // The acknowledgement was consumed; nothing else was on channel 42.
    assert!(local.income.pop_frame().is_none());
    // The connection keeps everything that was not channel 42's.
    assert_eq!(
        global.income.pop_frame().unwrap(),
        method(0, MethodPayload::Other)
    );
    assert_eq!(
        global.income.pop_frame().unwrap(),
        Frame { channel: 0, payload: FramePayload::Heartbeat }
    );
}

#[test]
fn open_channel_without_reply_is_channel_closed() {
    let frames = vec![method(0, MethodPayload::Other)];
    let global = GlobalChannel::new(FrameSource::from_frames(frames), SinkHandle::new());
    match global.open_channel(42) {
        Err(Error::ChannelClosed) => {}
        other => panic!("expected the channel-closed error, got {:?}", other.is_ok()),
    }
}

#[test]
fn open_channel_with_wrong_reply_is_protocol_error() {
    let frames = vec![method(42, MethodPayload::ExchangeDeclareOk)];
    let global = GlobalChannel::new(FrameSource::from_frames(frames), SinkHandle::new());
    match global.open_channel(42) {
        Err(Error::ProtocolError) => {}
        other => panic!("expected the protocol error, got {:?}", other.is_ok()),
    }
}

#[test]
fn ownership_forwards_through_declare_bind_publish() {
    // The server's replies, in the order the operations will ask for them.
    let frames = vec![
        method(7, MethodPayload::ExchangeDeclareOk),
        method(
            7,
            MethodPayload::QueueDeclareOk { queue: "box".to_string() },
        ),
        method(7, MethodPayload::QueueBindOk),
    ];
    let ch = LocalChannel {
        channel_id: 7,
        income: FrameSource::from_frames(frames),
        outgo: SinkHandle::new(),
    };

    let ch = ch
        .declare_exchange("logs".to_string(), ExchangeType::Fanout)
        .unwrap();
    assert_eq!(ch.channel_id, 7);
    let (name, ch) = ch.declare_private_queue("box".to_string()).unwrap();
    assert_eq!(name, "box");
    assert_eq!(ch.channel_id, 7);
    let ch = ch
        .bind_queue("box".to_string(), "logs".to_string(), "".to_string())
        .unwrap();
    assert_eq!(ch.channel_id, 7);
    let mut ch = ch.publish(b"payload".to_vec(), "logs".to_string(), "".to_string());
    assert_eq!(ch.channel_id, 7);

    // Every request went out, in operation order, on the channel's handle.
    let queued = ch.outgo.take_queued();
    assert_eq!(queued.len(), 6);
    match &queued[0].payload {
        FramePayload::Method(MethodPayload::ExchangeDeclare(opt)) => {
            assert_eq!(opt.name, "logs");
            assert_eq!(opt.typ, ExchangeType::Fanout);
            assert!(!opt.is_passive);
            assert!(!opt.is_durable);
            assert!(!opt.is_auto_delete);
            assert!(!opt.is_internal);
            assert!(!opt.is_no_wait);
        }
        other => panic!("expected a declare-exchange request, got {:?}", other),
    }
    match &queued[1].payload {
        FramePayload::Method(MethodPayload::QueueDeclare(opt)) => {
            assert_eq!(opt.name, "box");
            assert!(opt.is_exclusive);
            assert!(!opt.is_passive);
            assert!(!opt.is_durable);
            assert!(!opt.is_auto_delete);
            assert!(!opt.is_no_wait);
        }
        other => panic!("expected a declare-queue request, got {:?}", other),
    }
    match &queued[2].payload {
        FramePayload::Method(MethodPayload::QueueBind(opt)) => {
            assert_eq!(opt.queue, "box");
            assert_eq!(opt.exchange, "logs");
            assert_eq!(opt.routing_key, "");
            assert!(!opt.is_no_wait);
        }
        other => panic!("expected a bind-queue request, got {:?}", other),
    }
    assert!(matches!(
        queued[3].payload,
        FramePayload::Method(MethodPayload::BasicPublish(_))
    ));
    assert!(matches!(queued[4].payload, FramePayload::ContentHeader(_)));
    assert!(matches!(queued[5].payload, FramePayload::ContentBody(_)));
}

#[test]
fn declaring_an_anonymous_queue_returns_the_server_assigned_name() {
    let frames = vec![method(
        3,
        MethodPayload::QueueDeclareOk { queue: "amq.gen-abc".to_string() },
    )];
    let ch = LocalChannel {
        channel_id: 3,
        income: FrameSource::from_frames(frames),
        outgo: SinkHandle::new(),
    };
    let (name, _ch) = ch.declare_private_queue("".to_string()).unwrap();
    assert!(!name.is_empty());
    assert_eq!(name, "amq.gen-abc");
}

#[test]
fn declaring_a_named_queue_returns_that_same_name() {
    let frames = vec![method(
        3,
        MethodPayload::QueueDeclareOk { queue: "work".to_string() },
    )];
    let ch = LocalChannel {
        channel_id: 3,
        income: FrameSource::from_frames(frames),
        outgo: SinkHandle::new(),
    };
    let (name, _ch) = ch.declare_private_queue("work".to_string()).unwrap();
    assert_eq!(name, "work");
}

#[test]
fn a_reply_naming_a_different_queue_is_a_protocol_error() {
    let frames = vec![method(
        3,
        MethodPayload::QueueDeclareOk { queue: "other".to_string() },
    )];
    let ch = LocalChannel {
        channel_id: 3,
        income: FrameSource::from_frames(frames),
        outgo: SinkHandle::new(),
    };
    match ch.declare_private_queue("work".to_string()) {
        Err(Error::ProtocolError) => {}
        other => panic!("expected the protocol error, got {:?}", other.is_ok()),
    }
}

#[test]
fn an_empty_assigned_name_for_an_anonymous_queue_is_a_protocol_error() {
    let frames = vec![method(
        3,
        MethodPayload::QueueDeclareOk { queue: "".to_string() },
    )];
    let ch = LocalChannel {
        channel_id: 3,
        income: FrameSource::from_frames(frames),
        outgo: SinkHandle::new(),
    };
    match ch.declare_private_queue("".to_string()) {
        Err(Error::ProtocolError) => {}
        other => panic!("expected the protocol error, got {:?}", other.is_ok()),
    }
}

#[test]
fn declare_on_an_exhausted_income_is_channel_closed() {
    let ch = LocalChannel {
        channel_id: 3,
        income: FrameSource::new(),
        outgo: SinkHandle::new(),
    };
    match ch.declare_exchange("e".to_string(), ExchangeType::Direct) {
        Err(Error::ChannelClosed) => {}
        other => panic!("expected the channel-closed error, got {:?}", other.is_ok()),
    }
}

#[test]
fn a_wrong_reply_to_declare_exchange_is_a_protocol_error() {
    let frames = vec![method(3, MethodPayload::QueueBindOk)];
    let ch = LocalChannel {
        channel_id: 3,
        income: FrameSource::from_frames(frames),
        outgo: SinkHandle::new(),
    };
    match ch.declare_exchange("e".to_string(), ExchangeType::Topic) {
        Err(Error::ProtocolError) => {}
        other => panic!("expected the protocol error, got {:?}", other.is_ok()),
    }
}

#[test]
fn heartbeat_task_queues_heartbeat_frames_on_the_control_channel() {
    let global = GlobalChannel::new(FrameSource::new(), SinkHandle::new());
    let (_global, mut task) = global.heartbeat(60_000);
    assert_eq!(task.interval_ms, 60_000);
    task.tick();
    task.tick();

    let mut sink = SharedSink::new();
    task.flush_into(&mut sink);
    let written = sink.written_frames();
    assert_eq!(written.len(), 2);
    for f in written {
        assert_eq!(f.channel, 0);
        assert!(matches!(f.payload, FramePayload::Heartbeat));
    }
    assert_eq!(task.take_failure(), None);
}

#[test]
fn a_publish_in_flight_completes_beside_a_ticking_heartbeat() {
    let mut sink = SharedSink::new();
    let global = GlobalChannel::new(FrameSource::new(), SinkHandle::new());
    let (_global, mut task) = global.heartbeat(1_000);

    let option = PublishOption::new("logs".to_string(), "".to_string());
    let mut ps = publish_sink(9, option, SinkHandle::new());
    match ps.start_send(b"data".to_vec()) {
        SendOutcome::Accepted => {}
        SendOutcome::NotReady(_) => panic!("fresh publish sink must be ready"),
    }

    // The heartbeat writes to the same connection while the publish is in
    // flight.
    task.tick();
    task.flush_into(&mut sink);

    ps.flush_into(&mut sink).unwrap();
    assert_eq!(ps.poll_complete(), PollOutcome::Ready);

    // The heartbeat frame went first, and the publish triple is whole and
    // contiguous after it.
    let written = sink.written_frames();
    assert_eq!(written.len(), 4);
    assert!(matches!(written[0].payload, FramePayload::Heartbeat));
    assert!(matches!(
        written[1].payload,
        FramePayload::Method(MethodPayload::BasicPublish(_))
    ));
    assert!(matches!(written[2].payload, FramePayload::ContentHeader(_)));
    assert!(matches!(written[3].payload, FramePayload::ContentBody(_)));
}

#[test]
fn heartbeat_failure_is_reported_once_and_may_be_ignored() {
    let mut sink = SharedSink::new();
    let global = GlobalChannel::new(FrameSource::new(), SinkHandle::new());
    let (_global, mut task) = global.heartbeat(1_000);

    sink.fail(Error::ConnectionError);
    task.tick();
    task.flush_into(&mut sink);
    // After the failure the task stops emitting.
    task.tick();

    assert_eq!(task.take_failure(), Some(Error::ConnectionError));
    assert_eq!(task.take_failure(), None);
    assert_eq!(sink.written_frames().len(), 0);
}
