//! The session controller: what a session does in answer to each thing that happens to it.
//!
//! A session is driven by events: the pipeline reached its active state, a command came in,
//! a timeout fired, the bus delivered a message, the pipeline was torn down. For each event
//! the controller moves to its next state and names the actions to perform, in order. The
//! threads that wait for events perform the actions; the controller only decides.

use crate::error::MediaPipelineError;
use vstd::prelude::*;

verus! {

/// Commands sent to and from the controller.
#[derive(Debug, Clone, Copy, PartialEq, Eq)]
pub enum Command {
    /// Stop recording. Flows from the caller to the controller.
    Stop,
    /// Recording has stopped. Flows from the controller to the caller.
    Stopped,
}

/// When the controller answers a `Stop` with `Stopped`.
#[derive(Debug, Clone, Copy, PartialEq, Eq)]
pub enum StopPolicy {
    /// At once, right after end-of-stream was injected. The pipeline may still be flushing
    /// when the caller sees `Stopped`.
    Immediate,
    /// Only when the bus has delivered the end-of-stream message.
    Confirmed,
}

/// The state of a session as its caller sees it.
#[derive(Debug, Clone, Copy, PartialEq, Eq)]
pub enum SessionState {
    /// Not started yet.
    Idle,
    /// The pipeline is in its active state.
    Playing,
    /// End-of-stream is on its way through the pipeline.
    Stopping,
    /// End-of-stream was seen on the bus and the pipeline is back in its inactive state.
    Stopped,
    /// A bus error or a refused state change ended the session.
    Failed,
}

/// What an error message on the bus carries.
#[derive(Debug, Clone, PartialEq, Eq)]
pub struct BusError {
    /// The path of the element that raised the error, if it is known.
    pub source: Option<String>,
    /// The error in words.
    pub message: String,
    /// Further detail for whoever debugs the pipeline, if there is any.
    pub debug: Option<String>,
}

/// A message from the pipeline's bus, reduced to what the controller acts on.
#[derive(Debug, Clone, PartialEq, Eq)]
pub enum BusMessage {
    /// Every sink has seen the end of the stream.
    EndOfStream,
    /// An element failed.
    Error(BusError),
    /// Any other message. The controller ignores it.
    Other,
}

/// Something that happens to a session.
#[derive(Debug, Clone, PartialEq, Eq)]
pub enum Event {
    /// The pipeline reached its active state.
    Started,
    /// The pipeline refused the state change asked of it; the text says why.
    StateChangeFailed(String),
    /// A command arrived on the inbound channel.
    Command(Command),
    /// The wall-clock limit of the session ran out.
    Timeout,
    /// The bus delivered a message.
    Bus(BusMessage),
    /// The pipeline reached its inactive state.
    TornDown,
}

/// Something the controller asks to be done.
#[derive(Debug, Clone, PartialEq, Eq)]
pub enum Action {
    /// Inject end-of-stream into the pipeline.
    InjectEos,
    /// Send `Command::Stopped` on the outbound channel.
    SendStopped,
    /// Log the bus error.
    Report(BusError),
    /// Leave the run loop.
    QuitLoop,
    /// Force the pipeline to its inactive state.
    Teardown,
    /// Leave the command listener: the pipeline is gone and no command can be honoured.
    StopListening,
}

/// Where a session stands, in more detail than its caller needs.
#[derive(Debug, Clone, Copy, PartialEq, Eq)]
pub enum Phase {
    /// Not started yet.
    Idle,
    /// The run loop is active and nobody asked for the end.
    Playing,
    /// The run loop is active and end-of-stream was injected.
    Stopping,
    /// End-of-stream was seen; the teardown was asked for and has not been confirmed.
    Draining,
    /// A bus error was seen; the teardown was asked for and has not been confirmed.
    Failing,
    /// Torn down after end-of-stream.
    Stopped,
    /// Ended by a failure.
    Failed,
}

/// A session as mathematics.
pub struct SessionModel {
    /// When `Stopped` is sent.
    pub policy: StopPolicy,
    /// Where the session stands.
    pub phase: Phase,
    /// Whether a `Stop` was honoured and still waits for its `Stopped`.
    pub stop_pending: bool,
    /// The failure that ended the session, if one did.
    pub failure: Option<MediaPipelineError>,
}

impl SessionModel {
    /// A session that has not been started.
    pub open spec fn fresh(policy: StopPolicy) -> SessionModel {
        SessionModel { policy, phase: Phase::Idle, stop_pending: false, failure: None }
    }

    /// Whether the pipeline may be touched: the run loop is active and the teardown has not
    /// begun. Holds from the start of the pipeline until the first terminal bus message.
    pub open spec fn alive(self) -> bool {
        self.phase == Phase::Playing || self.phase == Phase::Stopping
    }

    /// What holds of every session that events have moved on from a fresh one.
    pub open spec fn wf(self) -> bool {
        &&& self.stop_pending ==> self.phase == Phase::Stopping && self.policy
            == StopPolicy::Confirmed
        &&& self.phase == Phase::Failing || self.phase == Phase::Failed ==> self.failure is Some
    }

    /// The state that the caller sees.
    pub open spec fn state(self) -> SessionState {
        match self.phase {
            Phase::Idle => SessionState::Idle,
            Phase::Playing => SessionState::Playing,
            Phase::Stopping => SessionState::Stopping,
            Phase::Draining => SessionState::Stopping,
            Phase::Failing => SessionState::Failed,
            Phase::Stopped => SessionState::Stopped,
            Phase::Failed => SessionState::Failed,
        }
    }

    /// Whether the session is over.
    pub open spec fn finished(self) -> bool {
        self.phase == Phase::Stopped || self.phase == Phase::Failed
    }

    /// The session after the event.
    pub open spec fn next(self, event: Event) -> SessionModel {
        match event {
            Event::Started => if self.phase == Phase::Idle {
                SessionModel { phase: Phase::Playing, ..self }
            } else {
                self
            },
            Event::StateChangeFailed(reason) => match self.phase {
                Phase::Idle | Phase::Draining => SessionModel {
                    phase: Phase::Failed,
                    failure: Some(MediaPipelineError::StateChangeError(reason)),
                    ..self
                },
                Phase::Failing => SessionModel { phase: Phase::Failed, ..self },
                _ => self,
            },
            Event::Command(Command::Stop) => if self.alive() {
                SessionModel {
                    phase: Phase::Stopping,
                    stop_pending: self.policy == StopPolicy::Confirmed,
                    ..self
                }
            } else {
                self
            },
            Event::Command(Command::Stopped) => self,
            Event::Timeout => if self.alive() {
                SessionModel { phase: Phase::Stopping, ..self }
            } else {
                self
            },
            Event::Bus(BusMessage::EndOfStream) => if self.alive() {
                SessionModel { phase: Phase::Draining, stop_pending: false, ..self }
            } else {
                self
            },
            Event::Bus(BusMessage::Error(error)) => if self.alive() {
                SessionModel {
                    phase: Phase::Failing,
                    stop_pending: false,
                    failure: Some(MediaPipelineError::GlibError(error.message)),
                    ..self
                }
            } else {
                self
            },
            Event::Bus(BusMessage::Other) => self,
            Event::TornDown => match self.phase {
                Phase::Draining => SessionModel { phase: Phase::Stopped, ..self },
                Phase::Failing => SessionModel { phase: Phase::Failed, ..self },
                _ => self,
            },
        }
    }

    /// The actions that the event calls for, in the order in which they are to be performed.
    pub open spec fn reaction(self, event: Event) -> Seq<Action> {
        match event {
            Event::Command(Command::Stop) => if !self.alive() {
                seq![Action::StopListening]
            } else if self.policy == StopPolicy::Immediate {
                seq![Action::InjectEos, Action::SendStopped]
            } else if self.stop_pending {
                Seq::empty()
            } else {
                seq![Action::InjectEos]
            },
            Event::Timeout => if self.alive() {
                seq![Action::InjectEos]
            } else {
                Seq::empty()
            },
            Event::Bus(BusMessage::EndOfStream) => if !self.alive() {
                Seq::empty()
            } else if self.stop_pending {
                seq![Action::SendStopped, Action::QuitLoop, Action::Teardown]
            } else {
                seq![Action::QuitLoop, Action::Teardown]
            },
            Event::Bus(BusMessage::Error(error)) => if self.alive() {
                seq![Action::Report(error), Action::QuitLoop, Action::Teardown]
            } else {
                Seq::empty()
            },
            _ => Seq::empty(),
        }
    }

    /// How the session ended: nothing while it is not over, `Ok` after a clean stop, the
    /// failure otherwise.
    pub open spec fn result(self) -> Option<Result<(), MediaPipelineError>> {
        match self.phase {
            Phase::Stopped => Some(Ok(())),
            Phase::Failed => match self.failure {
                Some(failure) => Some(Err(failure)),
                None => None,
            },
            _ => None,
        }
    }
}

/// The controller of one session.
pub struct Session {
    policy: StopPolicy,
    phase: Phase,
    stop_pending: bool,
    failure: Option<MediaPipelineError>,
}

impl View for Session {
    type V = SessionModel;

    closed spec fn view(&self) -> SessionModel {
        SessionModel {
            policy: self.policy,
            phase: self.phase,
            stop_pending: self.stop_pending,
            failure: self.failure,
        }
    }
}

impl Session {
    #[verifier::type_invariant]
    spec fn well_formed(self) -> bool {
        self@.wf()
    }

    /// A session that has not been started, with the policy by which it answers `Stop`.
    pub fn new(policy: StopPolicy) -> (session: Session)
        ensures
            session@ == SessionModel::fresh(policy),
            session@.wf(),
    {
        Session { policy, phase: Phase::Idle, stop_pending: false, failure: None }
    }

    /// The policy by which the session answers `Stop`.
    pub fn policy(&self) -> (policy: StopPolicy)
        ensures
            policy == self@.policy,
    {
        self.policy
    }

    /// The state that the caller sees.
    pub fn state(&self) -> (state: SessionState)
        ensures
            state == self@.state(),
    {
        match self.phase {
            Phase::Idle => SessionState::Idle,
            Phase::Playing => SessionState::Playing,
            Phase::Stopping => SessionState::Stopping,
            Phase::Draining => SessionState::Stopping,
            Phase::Failing => SessionState::Failed,
            Phase::Stopped => SessionState::Stopped,
            Phase::Failed => SessionState::Failed,
        }
    }

    /// Whether the pipeline may be touched. Threads other than the run loop ask this before
    /// they request anything of the pipeline.
    pub fn is_alive(&self) -> (alive: bool)
        ensures
            alive == self@.alive(),
    {
        match self.phase {
            Phase::Playing | Phase::Stopping => true,
            _ => false,
        }
    }

    /// Whether the session is over.
    pub fn is_finished(&self) -> (finished: bool)
        ensures
            finished == self@.finished(),
    {
        match self.phase {
            Phase::Stopped | Phase::Failed => true,
            _ => false,
        }
    }

    /// Takes in one event: moves the session on and returns the actions to perform, in
    /// order.
    pub fn step(&mut self, event: Event) -> (actions: Vec<Action>)
        ensures
            final(self)@ == old(self)@.next(event),
            actions@ == old(self)@.reaction(event),
            old(self)@.wf(),
            final(self)@.wf(),
    {
        proof {
            use_type_invariant(&*self);
        }
        let mut actions: Vec<Action> = Vec::new();
        let alive = self.is_alive();
        match event {
            Event::Started => {
                if let Phase::Idle = self.phase {
                    self.phase = Phase::Playing;
                }
            },
            Event::StateChangeFailed(reason) => {
                match self.phase {
                    Phase::Idle | Phase::Draining => {
                        self.failure = Some(MediaPipelineError::StateChangeError(reason));
                        self.phase = Phase::Failed;
                    },
                    Phase::Failing => {
                        self.phase = Phase::Failed;
                    },
                    _ => {},
                }
            },
            Event::Command(Command::Stop) => {
                if !alive {
                    actions.push(Action::StopListening);
                } else {
                    self.phase = Phase::Stopping;
                    match self.policy {
                        StopPolicy::Immediate => {
                            actions.push(Action::InjectEos);
                            actions.push(Action::SendStopped);
                        },
                        StopPolicy::Confirmed => {
                            if !self.stop_pending {
                                actions.push(Action::InjectEos);
                            }
                            self.stop_pending = true;
                        },
                    }
                }
            },
            Event::Command(Command::Stopped) => {},
            Event::Timeout => {
                if alive {
                    actions.push(Action::InjectEos);
                    self.phase = Phase::Stopping;
                }
            },
            Event::Bus(BusMessage::EndOfStream) => {
                if alive {
                    if self.stop_pending {
                        actions.push(Action::SendStopped);
                    }
                    actions.push(Action::QuitLoop);
                    actions.push(Action::Teardown);
                    self.stop_pending = false;
                    self.phase = Phase::Draining;
                }
            },
            Event::Bus(BusMessage::Error(error)) => {
                if alive {
                    let message = error.message.clone();
                    actions.push(Action::Report(error));
                    actions.push(Action::QuitLoop);
                    actions.push(Action::Teardown);
                    self.stop_pending = false;
                    self.failure = Some(MediaPipelineError::GlibError(message));
                    self.phase = Phase::Failing;
                }
            },
            Event::Bus(BusMessage::Other) => {},
            Event::TornDown => {
                match self.phase {
                    Phase::Draining => {
                        self.phase = Phase::Stopped;
                    },
                    Phase::Failing => {
                        self.phase = Phase::Failed;
                    },
                    _ => {},
                }
            },
        }
        assert(actions@ =~= old(self)@.reaction(event));
        actions
    }

    /// Ends the session's bookkeeping and says how the session ended: nothing while it is
    /// not over, `Ok` after a clean stop, the failure otherwise.
    pub fn into_result(self) -> (result: Option<Result<(), MediaPipelineError>>)
        ensures
            result == self@.result(),
            self@.wf(),
    {
        proof {
            use_type_invariant(&self);
        }
        match self.phase {
            Phase::Stopped => Some(Ok(())),
            Phase::Failed => match self.failure {
                Some(failure) => Some(Err(failure)),
                None => None,
            },
            _ => None,
        }
    }
}

} // verus!
