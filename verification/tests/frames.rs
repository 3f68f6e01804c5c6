use bytes::BytesMut;
use media_pipeline::capture::{appsink_launch, on_new_sample, FlowReturn, SampleAccess};
use media_pipeline::capture::{NOT_READABLE, NO_BUFFER};
use media_pipeline::frame::Frame;
use media_pipeline::relay::{FrameRelay, Received};

#[test]
fn frame_from_samples_copies_the_bytes() {
    let memory = [0u8, 1, 2, 3, 254, 255];
    let frame = Frame::from_samples(&memory).ok().expect("bytes always read as bytes");
    assert_eq!(frame.to_vec(), memory.to_vec());
}

#[test]
fn frame_from_samples_takes_an_empty_sample() {
    let frame = Frame::from_samples(&[]).ok().expect("bytes always read as bytes");
    assert_eq!(frame.to_vec(), Vec::<u8>::new());
}

#[test]
fn frame_wraps_a_buffer_and_gives_it_back() {
    let buffer = BytesMut::from(&b"payload"[..]);
    let frame = Frame::new(buffer);
    assert_eq!(frame.to_vec(), b"payload".to_vec());
    let buffer = frame.into_buffer();
    assert_eq!(&buffer[..], b"payload");
}

#[test]
fn readable_sample_is_sent_into_the_relay() {
    let mut relay = FrameRelay::new();
    let memory = [7u8; 188];
    assert_eq!(on_new_sample(&mut relay, SampleAccess::Readable(&memory)), FlowReturn::Taken);
    assert_eq!(relay.pending(), 1);
    match relay.recv() {
        Received::Frame(frame) => assert_eq!(frame.to_vec(), memory.to_vec()),
        _ => panic!("a frame was sent"),
    }
}

#[test]
fn unreachable_samples_are_flow_errors_and_send_nothing() {
    let mut relay = FrameRelay::new();
    assert_eq!(on_new_sample(&mut relay, SampleAccess::NoSample), FlowReturn::Eos);
    assert_eq!(on_new_sample(&mut relay, SampleAccess::NoBuffer), FlowReturn::Error(NO_BUFFER));
    assert_eq!(
        on_new_sample(&mut relay, SampleAccess::NotReadable),
        FlowReturn::Error(NOT_READABLE)
    );
    assert_eq!(
        on_new_sample(&mut relay, SampleAccess::NoBuffer),
        FlowReturn::Error("Failed to get buffer from appsink")
    );
    assert_eq!(
        on_new_sample(&mut relay, SampleAccess::NotReadable),
        FlowReturn::Error("Failed to map buffer readable")
    );
    assert_eq!(relay.pending(), 0);
}

#[test]
fn capture_goes_on_when_the_consumer_is_gone() {
    let mut relay = FrameRelay::new();
    relay.disconnect();
    for n in 0u8..50 {
        let memory = [n; 16];
        assert_eq!(
            on_new_sample(&mut relay, SampleAccess::Readable(&memory)),
            FlowReturn::Taken
        );
    }
    assert_eq!(relay.pending(), 0);
}

#[test]
fn appsink_launch_appends_the_sink() {
    assert_eq!(appsink_launch("videotestsrc"), "videotestsrc ! appsink name=sink");
    assert_eq!(appsink_launch(""), " ! appsink name=sink");
}
