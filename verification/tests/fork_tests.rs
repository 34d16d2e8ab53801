use amqpr::fork::{fork, ChannelFilter};
use amqpr::frame::{ContentBodyPayload, Frame, FramePayload};
use amqpr::income::FrameSource;

fn tagged(channel: u16, mark: u8) -> Frame {
    Frame {
        channel,
        payload: FramePayload::ContentBody(ContentBodyPayload { bytes: vec![mark] }),
    }
}

fn mark_of(f: &Frame) -> u8 {
    match &f.payload {
        FramePayload::ContentBody(b) => b.bytes[0],
        _ => panic!("expected a content body frame"),
    }
}

#[test]
fn fork_routes_each_frame_to_one_branch_in_order() {
    let frames = vec![
        tagged(1, 10),
        tagged(2, 20),
        tagged(1, 11),
        tagged(2, 21),
        tagged(1, 12),
    ];
    let source = FrameSource::from_frames(frames);
    let (mut matched, mut rest) = fork(source, ChannelFilter { channel: 1 });

    assert_eq!(matched.len(), 3);
    assert_eq!(rest.len(), 2);
    assert_eq!(mark_of(&matched.pop_frame().unwrap()), 10);
    assert_eq!(mark_of(&matched.pop_frame().unwrap()), 11);
    assert_eq!(mark_of(&matched.pop_frame().unwrap()), 12);
    assert!(matched.pop_frame().is_none());
    assert_eq!(mark_of(&rest.pop_frame().unwrap()), 20);
    assert_eq!(mark_of(&rest.pop_frame().unwrap()), 21);
    assert!(rest.pop_frame().is_none());
}

#[test]
fn fork_keeps_unpolled_branch_buffered() {
    let frames = vec![tagged(5, 1), tagged(9, 2), tagged(5, 3), tagged(9, 4)];
    let source = FrameSource::from_frames(frames);
    let (mut matched, mut rest) = fork(source, ChannelFilter { channel: 5 });

    // Drain the matched branch completely first; nothing destined for the
    // other branch is lost meanwhile.
    assert_eq!(mark_of(&matched.pop_frame().unwrap()), 1);
    assert_eq!(mark_of(&matched.pop_frame().unwrap()), 3);
    assert!(matched.pop_frame().is_none());

    assert_eq!(mark_of(&rest.pop_frame().unwrap()), 2);
    assert_eq!(mark_of(&rest.pop_frame().unwrap()), 4);
    assert!(rest.pop_frame().is_none());
}

#[test]
fn fork_of_empty_source_gives_two_empty_branches() {
    let source = FrameSource::new();
    let (mut matched, mut rest) = fork(source, ChannelFilter { channel: 1 });
    assert!(matched.pop_frame().is_none());
    assert!(rest.pop_frame().is_none());
}

#[test]
fn fork_with_no_matching_frames_leaves_everything_to_rest() {
    let frames = vec![tagged(3, 7), tagged(4, 8)];
    let source = FrameSource::from_frames(frames);
    let (mut matched, mut rest) = fork(source, ChannelFilter { channel: 1 });
    assert!(matched.pop_frame().is_none());
    assert_eq!(mark_of(&rest.pop_frame().unwrap()), 7);
    assert_eq!(mark_of(&rest.pop_frame().unwrap()), 8);
}
