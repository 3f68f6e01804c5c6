use media_pipeline::frame::Frame;
use media_pipeline::relay::Received;
use media_pipeline::rtp_stream_record::{Writer, WriterAction, WriterEvent, FRAME_INTERVAL};

fn delivered(bytes: &[u8]) -> WriterEvent {
    let frame = Frame::from_samples(bytes).ok().expect("bytes always read as bytes");
    WriterEvent::Received(Received::Frame(frame))
}

fn pushed(action: WriterAction) -> (Vec<u8>, u64) {
    match action {
        WriterAction::Push(timed) => (timed.frame.to_vec(), timed.pts),
        _ => panic!("expected a push"),
    }
}

#[test]
fn interval_is_2500_microseconds() {
    assert_eq!(FRAME_INTERVAL, 2_500_000);
}

#[test]
fn frames_are_stamped_with_multiples_of_the_interval() {
    let mut writer = Writer::new();
    assert!(writer.is_active());
    assert_eq!(writer.sequence(), 1);
    assert_eq!(pushed(writer.step(delivered(&[1]))), (vec![1], 2_500_000));
    assert_eq!(pushed(writer.step(delivered(&[2]))), (vec![2], 5_000_000));
    assert_eq!(pushed(writer.step(delivered(&[3]))), (vec![3], 7_500_000));
    assert_eq!(writer.sequence(), 4);
}

#[test]
fn pending_relay_makes_the_writer_wait() {
    let mut writer = Writer::new();
    assert!(matches!(writer.step(WriterEvent::Received(Received::Pending)), WriterAction::Wait));
    assert!(writer.is_active());
    assert_eq!(writer.sequence(), 1);
    assert_eq!(pushed(writer.step(delivered(&[4, 4]))), (vec![4, 4], 2_500_000));
}

#[test]
fn closed_relay_ends_the_writer_without_end_of_stream() {
    let mut writer = Writer::new();
    let _ = writer.step(delivered(&[1]));
    assert!(matches!(writer.step(WriterEvent::Received(Received::Closed)), WriterAction::Finish));
    assert!(!writer.is_active());
    assert!(matches!(writer.step(delivered(&[2])), WriterAction::Finish));
    assert!(matches!(writer.step(WriterEvent::PushRefused), WriterAction::Finish));
}

#[test]
fn refused_push_injects_end_of_stream_and_is_terminal() {
    let mut writer = Writer::new();
    let _ = writer.step(delivered(&[1]));
    assert!(matches!(writer.step(WriterEvent::PushRefused), WriterAction::EndOfStream));
    assert!(!writer.is_active());
    assert!(matches!(writer.step(delivered(&[2])), WriterAction::Finish));
    assert!(matches!(writer.step(WriterEvent::PushRefused), WriterAction::Finish));
    assert!(matches!(writer.step(WriterEvent::Received(Received::Pending)), WriterAction::Finish));
}
