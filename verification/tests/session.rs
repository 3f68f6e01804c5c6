use media_pipeline::error::MediaPipelineError;
use media_pipeline::main_loop::{Action, BusError, BusMessage, Command, Event};
use media_pipeline::main_loop::{Session, SessionState, StopPolicy};

fn bus_error(message: &str) -> BusError {
    BusError {
        source: Some(String::from("/GstPipeline:pipeline0/GstFileSink:filesink0")),
        message: String::from(message),
        debug: None,
    }
}

fn playing(policy: StopPolicy) -> Session {
    let mut session = Session::new(policy);
    assert_eq!(session.step(Event::Started), vec![]);
    session
}

fn count(actions: &[Action], wanted: &Action) -> usize {
    actions.iter().filter(|action| *action == wanted).count()
}

#[test]
fn new_session_is_idle() {
    let session = Session::new(StopPolicy::Immediate);
    assert_eq!(session.state(), SessionState::Idle);
    assert_eq!(session.policy(), StopPolicy::Immediate);
    assert!(!session.is_alive());
    assert!(!session.is_finished());
    assert_eq!(session.into_result(), None);
}

#[test]
fn start_moves_to_playing() {
    let session = playing(StopPolicy::Confirmed);
    assert_eq!(session.state(), SessionState::Playing);
    assert!(session.is_alive());
    assert_eq!(session.policy(), StopPolicy::Confirmed);
}

#[test]
fn immediate_stop_injects_eos_then_sends_stopped() {
    let mut session = playing(StopPolicy::Immediate);
    assert_eq!(
        session.step(Event::Command(Command::Stop)),
        vec![Action::InjectEos, Action::SendStopped]
    );
    assert_eq!(session.state(), SessionState::Stopping);
    assert_eq!(
        session.step(Event::Bus(BusMessage::EndOfStream)),
        vec![Action::QuitLoop, Action::Teardown]
    );
    assert_eq!(session.state(), SessionState::Stopping);
    assert!(!session.is_alive());
    assert_eq!(session.step(Event::TornDown), vec![]);
    assert_eq!(session.state(), SessionState::Stopped);
    assert!(session.is_finished());
    assert_eq!(session.into_result(), Some(Ok(())));
}

#[test]
fn confirmed_stop_sends_stopped_only_at_end_of_stream() {
    let mut session = playing(StopPolicy::Confirmed);
    assert_eq!(session.step(Event::Command(Command::Stop)), vec![Action::InjectEos]);
    assert_eq!(session.state(), SessionState::Stopping);
    assert_eq!(session.step(Event::Bus(BusMessage::Other)), vec![]);
    assert_eq!(session.step(Event::Command(Command::Stop)), vec![]);
    assert_eq!(
        session.step(Event::Bus(BusMessage::EndOfStream)),
        vec![Action::SendStopped, Action::QuitLoop, Action::Teardown]
    );
    assert_eq!(session.step(Event::TornDown), vec![]);
    assert_eq!(session.into_result(), Some(Ok(())));
}

#[test]
fn every_immediate_stop_is_answered_while_alive() {
    let mut session = playing(StopPolicy::Immediate);
    for _ in 0..3 {
        assert_eq!(
            session.step(Event::Command(Command::Stop)),
            vec![Action::InjectEos, Action::SendStopped]
        );
    }
    assert_eq!(session.state(), SessionState::Stopping);
}

#[test]
fn stop_after_teardown_began_is_a_no_op() {
    for policy in [StopPolicy::Immediate, StopPolicy::Confirmed] {
        let mut session = playing(policy);
        let _ = session.step(Event::Bus(BusMessage::EndOfStream));
        assert_eq!(session.step(Event::Command(Command::Stop)), vec![Action::StopListening]);
        assert_eq!(session.step(Event::Timeout), vec![]);
        let _ = session.step(Event::TornDown);
        assert_eq!(session.step(Event::Command(Command::Stop)), vec![Action::StopListening]);
        assert_eq!(session.state(), SessionState::Stopped);
    }
}

#[test]
fn stop_before_start_is_a_no_op() {
    let mut session = Session::new(StopPolicy::Immediate);
    assert_eq!(session.step(Event::Command(Command::Stop)), vec![Action::StopListening]);
    assert_eq!(session.step(Event::Timeout), vec![]);
    assert_eq!(session.step(Event::Bus(BusMessage::EndOfStream)), vec![]);
    assert_eq!(session.state(), SessionState::Idle);
}

#[test]
fn inbound_stopped_is_ignored() {
    let mut session = playing(StopPolicy::Immediate);
    assert_eq!(session.step(Event::Command(Command::Stopped)), vec![]);
    assert_eq!(session.state(), SessionState::Playing);
}

#[test]
fn timeout_injects_eos_without_an_answer() {
    let mut session = playing(StopPolicy::Confirmed);
    assert_eq!(session.step(Event::Timeout), vec![Action::InjectEos]);
    assert_eq!(session.state(), SessionState::Stopping);
    assert_eq!(
        session.step(Event::Bus(BusMessage::EndOfStream)),
        vec![Action::QuitLoop, Action::Teardown]
    );
}

#[test]
fn end_of_stream_without_stop_ends_the_session_cleanly() {
    let mut session = playing(StopPolicy::Immediate);
    assert_eq!(
        session.step(Event::Bus(BusMessage::EndOfStream)),
        vec![Action::QuitLoop, Action::Teardown]
    );
    assert_eq!(session.step(Event::TornDown), vec![]);
    assert_eq!(session.state(), SessionState::Stopped);
}

#[test]
fn bus_error_fails_the_session_and_tears_down_once() {
    for policy in [StopPolicy::Immediate, StopPolicy::Confirmed] {
        let mut session = playing(policy);
        let mut trace = Vec::new();
        trace.extend(session.step(Event::Command(Command::Stop)));
        trace.extend(session.step(Event::Bus(BusMessage::Error(bus_error("disk full")))));
        assert_eq!(session.state(), SessionState::Failed);
        assert!(!session.is_alive());
        trace.extend(session.step(Event::Bus(BusMessage::Error(bus_error("again")))));
        trace.extend(session.step(Event::Bus(BusMessage::EndOfStream)));
        trace.extend(session.step(Event::TornDown));
        trace.extend(session.step(Event::TornDown));
        assert_eq!(count(&trace, &Action::Teardown), 1);
        assert_eq!(count(&trace, &Action::QuitLoop), 1);
        assert_eq!(count(&trace, &Action::Report(bus_error("disk full"))), 1);
        assert_eq!(count(&trace, &Action::Report(bus_error("again"))), 0);
        assert!(session.is_finished());
        assert_eq!(
            session.into_result(),
            Some(Err(MediaPipelineError::GlibError(String::from("disk full"))))
        );
    }
}

#[test]
fn bus_error_in_playing_reports_quits_and_tears_down() {
    let mut session = playing(StopPolicy::Immediate);
    let error = bus_error("no such device");
    assert_eq!(
        session.step(Event::Bus(BusMessage::Error(error.clone()))),
        vec![Action::Report(error), Action::QuitLoop, Action::Teardown]
    );
    assert_eq!(session.state(), SessionState::Failed);
    assert_eq!(session.into_result(), None);
}

#[test]
fn confirmed_stop_is_not_answered_after_an_error() {
    let mut session = playing(StopPolicy::Confirmed);
    let mut trace = Vec::new();
    trace.extend(session.step(Event::Command(Command::Stop)));
    trace.extend(session.step(Event::Bus(BusMessage::Error(bus_error("broken")))));
    trace.extend(session.step(Event::Bus(BusMessage::EndOfStream)));
    trace.extend(session.step(Event::TornDown));
    assert_eq!(count(&trace, &Action::SendStopped), 0);
}

#[test]
fn refused_start_fails_the_session() {
    let mut session = Session::new(StopPolicy::Immediate);
    assert_eq!(session.step(Event::StateChangeFailed(String::from("no clock"))), vec![]);
    assert_eq!(session.state(), SessionState::Failed);
    assert_eq!(
        session.into_result(),
        Some(Err(MediaPipelineError::StateChangeError(String::from("no clock"))))
    );
}

#[test]
fn refused_teardown_fails_the_session() {
    let mut session = playing(StopPolicy::Immediate);
    let _ = session.step(Event::Bus(BusMessage::EndOfStream));
    assert_eq!(session.step(Event::StateChangeFailed(String::from("stuck"))), vec![]);
    assert_eq!(
        session.into_result(),
        Some(Err(MediaPipelineError::StateChangeError(String::from("stuck"))))
    );
}

#[test]
fn refused_teardown_after_an_error_keeps_the_error() {
    let mut session = playing(StopPolicy::Immediate);
    let _ = session.step(Event::Bus(BusMessage::Error(bus_error("first"))));
    let _ = session.step(Event::StateChangeFailed(String::from("second")));
    assert_eq!(
        session.into_result(),
        Some(Err(MediaPipelineError::GlibError(String::from("first"))))
    );
}

#[test]
fn state_change_failure_while_playing_is_ignored() {
    let mut session = playing(StopPolicy::Immediate);
    assert_eq!(session.step(Event::StateChangeFailed(String::from("late"))), vec![]);
    assert_eq!(session.step(Event::TornDown), vec![]);
    assert_eq!(session.step(Event::Started), vec![]);
    assert_eq!(session.state(), SessionState::Playing);
}

#[test]
fn stopped_never_outnumbers_stops() {
    let scripts: Vec<Vec<Event>> = vec![
        vec![
            Event::Command(Command::Stop),
            Event::Started,
            Event::Command(Command::Stop),
            Event::Command(Command::Stop),
            Event::Bus(BusMessage::EndOfStream),
            Event::Command(Command::Stop),
            Event::TornDown,
        ],
        vec![
            Event::Started,
            Event::Timeout,
            Event::Bus(BusMessage::EndOfStream),
            Event::Bus(BusMessage::EndOfStream),
            Event::TornDown,
        ],
        vec![
            Event::Started,
            Event::Command(Command::Stop),
            Event::Bus(BusMessage::Error(bus_error("x"))),
            Event::Command(Command::Stop),
        ],
    ];
    for policy in [StopPolicy::Immediate, StopPolicy::Confirmed] {
        for script in &scripts {
            let mut session = Session::new(policy);
            let mut trace = Vec::new();
            let mut stops = 0;
            for event in script {
                if *event == Event::Command(Command::Stop) {
                    stops += 1;
                }
                trace.extend(session.step(event.clone()));
            }
            assert!(count(&trace, &Action::SendStopped) <= stops);
            assert!(count(&trace, &Action::Teardown) <= 1);
            if let Some(first) = trace.iter().position(|a| *a == Action::SendStopped) {
                assert!(trace[..first].contains(&Action::InjectEos));
            }
        }
    }
}
