use media_pipeline::frame::Frame;
use media_pipeline::relay::{FrameRelay, Received};

fn frame(bytes: &[u8]) -> Frame {
    Frame::from_samples(bytes).ok().expect("bytes always read as bytes")
}

fn take(relay: &mut FrameRelay) -> Option<Vec<u8>> {
    match relay.recv() {
        Received::Frame(frame) => Some(frame.to_vec()),
        _ => None,
    }
}

#[test]
fn frames_leave_in_the_order_they_entered() {
    let mut relay = FrameRelay::new();
    let sent: Vec<Vec<u8>> = (0u8..20).map(|n| vec![n, n.wrapping_mul(7), 255 - n]).collect();
    for bytes in &sent {
        assert!(relay.send(frame(bytes)));
    }
    relay.close();
    let mut received = Vec::new();
    while let Some(bytes) = take(&mut relay) {
        received.push(bytes);
    }
    assert_eq!(received, sent);
    assert!(matches!(relay.recv(), Received::Closed));
}

#[test]
fn interleaved_sends_and_receives_keep_order() {
    let mut relay = FrameRelay::new();
    assert!(relay.send(frame(&[1])));
    assert!(relay.send(frame(&[2, 2])));
    assert_eq!(take(&mut relay), Some(vec![1]));
    assert!(relay.send(frame(&[3, 3, 3])));
    assert_eq!(relay.pending(), 2);
    assert_eq!(take(&mut relay), Some(vec![2, 2]));
    assert_eq!(take(&mut relay), Some(vec![3, 3, 3]));
    assert_eq!(relay.pending(), 0);
}

#[test]
fn empty_relay_is_pending_while_open_and_closed_after_hang_up() {
    let mut relay = FrameRelay::new();
    assert!(relay.is_open());
    assert!(relay.is_connected());
    assert!(matches!(relay.recv(), Received::Pending));
    relay.close();
    assert!(!relay.is_open());
    assert!(matches!(relay.recv(), Received::Closed));
}

#[test]
fn frames_in_flight_survive_the_hang_up() {
    let mut relay = FrameRelay::new();
    assert!(relay.send(frame(&[9, 8, 7])));
    relay.close();
    assert_eq!(take(&mut relay), Some(vec![9, 8, 7]));
    assert!(matches!(relay.recv(), Received::Closed));
}

#[test]
fn sending_after_the_consumer_left_is_silent() {
    let mut relay = FrameRelay::new();
    assert!(relay.send(frame(&[1, 2, 3])));
    relay.disconnect();
    assert!(!relay.is_connected());
    assert_eq!(relay.pending(), 0);
    for n in 0u8..100 {
        assert!(!relay.send(frame(&[n])));
    }
    assert_eq!(relay.pending(), 0);
    assert!(matches!(relay.recv(), Received::Closed));
}

#[test]
fn sending_after_the_hang_up_is_dropped() {
    let mut relay = FrameRelay::new();
    relay.close();
    assert!(!relay.send(frame(&[5])));
    assert_eq!(relay.pending(), 0);
}

#[test]
fn empty_frame_round_trips() {
    let mut relay = FrameRelay::new();
    assert!(relay.send(frame(&[])));
    assert_eq!(take(&mut relay), Some(Vec::new()));
}
