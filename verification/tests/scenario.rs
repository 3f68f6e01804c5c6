use media_pipeline::capture::{on_new_sample, FlowReturn, SampleAccess};
use media_pipeline::main_loop::{Action, BusMessage, Command, Event};
use media_pipeline::main_loop::{Session, SessionState, StopPolicy};
use media_pipeline::relay::FrameRelay;
use media_pipeline::rtp_stream_record::{Writer, WriterAction, WriterEvent};

fn record_ten_frames(policy: StopPolicy) {
    let mut session = Session::new(policy);
    let mut relay = FrameRelay::new();
    let mut writer = Writer::new();
    let mut actions = Vec::new();
    actions.extend(session.step(Event::Started));
    assert_eq!(session.state(), SessionState::Playing);

    let frames: Vec<Vec<u8>> = (0u8..10).map(|n| vec![n; 188]).collect();
    for memory in &frames {
        assert_eq!(on_new_sample(&mut relay, SampleAccess::Readable(memory)), FlowReturn::Taken);
    }
    assert_eq!(relay.pending(), 10);

    let mut written: Vec<(Vec<u8>, u64)> = Vec::new();
    loop {
        match writer.step(WriterEvent::Received(relay.recv())) {
            WriterAction::Push(timed) => written.push((timed.frame.to_vec(), timed.pts)),
            WriterAction::Wait => break,
            WriterAction::EndOfStream | WriterAction::Finish => panic!("the relay is open"),
        }
    }
    assert_eq!(written.len(), 10);
    for (index, (bytes, pts)) in written.iter().enumerate() {
        assert_eq!(bytes.len(), 188);
        assert_eq!(bytes, &frames[index]);
        assert_eq!(*pts, (index as u64 + 1) * 2500 * 1000);
    }

    actions.extend(session.step(Event::Command(Command::Stop)));
    assert_eq!(session.state(), SessionState::Stopping);
    actions.extend(session.step(Event::Bus(BusMessage::EndOfStream)));
    actions.extend(session.step(Event::TornDown));
    assert_eq!(session.state(), SessionState::Stopped);

    let stopped = actions.iter().filter(|action| **action == Action::SendStopped).count();
    assert_eq!(stopped, 1);
    let injected = actions.iter().position(|action| *action == Action::InjectEos);
    let answered = actions.iter().position(|action| *action == Action::SendStopped);
    let torn_down = actions.iter().position(|action| *action == Action::Teardown);
    assert!(injected < answered);
    assert!(injected < torn_down);
    assert_eq!(session.into_result(), Some(Ok(())));

    relay.close();
    assert!(matches!(
        writer.step(WriterEvent::Received(relay.recv())),
        WriterAction::Finish
    ));
}

#[test]
fn ten_frames_then_stop_with_immediate_answer() {
    record_ten_frames(StopPolicy::Immediate);
}

#[test]
fn ten_frames_then_stop_with_confirmed_answer() {
    record_ten_frames(StopPolicy::Confirmed);
}
