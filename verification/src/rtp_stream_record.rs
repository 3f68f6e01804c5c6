//! Recording of captured frames into a file: the pipeline description, and the writer that
//! stamps each frame and feeds it to the pipeline.
//!
//! The writer is driven by what its thread meets: what the relay delivered, and a push that
//! the pipeline refused. For each it names the next thing to do. It pushes every frame once,
//! in the order of arrival, and stops for good at the first refusal or when the relay is
//! closed.

use crate::frame::Frame;
use crate::relay::{Delivery, Received};
use vstd::prelude::*;
use vstd::string::StringExecFns;

verus! {

/// The pipeline description up to the file name: frames enter at the source named `src`
/// and are unpacked, parsed, multiplexed and written out.
pub const LAUNCH_STAGES: &'static str =
    "appsrc name=src  ! application/x-rtp, media=(string)video, clock-rate=(int)90000, encoding-name=(string)H264, payload=(int)96\n        ! queue ! rtph264depay name=pay0 ! h264parse config-interval=-1 ! mp4mux ! filesink location=";

/// The pipeline description for a recording, as mathematics.
pub open spec fn launch_spec(filename: Seq<char>) -> Seq<char> {
    LAUNCH_STAGES@ + filename
}

/// The description to hand to the pipeline builder: what is pushed into the source ends up
/// in the file. The file name is not looked into.
pub fn launch(filename: &str) -> (description: String)
    ensures
        description@ == launch_spec(filename@),
{
    String::from_str(LAUNCH_STAGES).concat(filename)
}

/// The time between two frames, in nanoseconds: 2500 microseconds.
pub const FRAME_INTERVAL: u64 = 2_500_000;

/// The presentation time of the frame with the given sequence number, in nanoseconds.
/// Sequence numbers start at one.
pub open spec fn presentation_time(sequence: nat) -> nat {
    sequence * (FRAME_INTERVAL as nat)
}

/// A frame together with the time at which it is to be presented.
pub struct TimedFrame {
    /// The frame.
    pub frame: Frame,
    /// Its presentation time, in nanoseconds from the start of the stream.
    pub pts: u64,
}

/// What the writer's thread meets.
pub enum WriterEvent {
    /// What a receive on the relay found.
    Received(Received),
    /// The pipeline refused the frame pushed last.
    PushRefused,
}

/// What the writer's thread meets, as mathematics.
pub enum WriterInput {
    /// What a receive on the relay found.
    Received(Delivery),
    /// The pipeline refused the frame pushed last.
    PushRefused,
}

impl View for WriterEvent {
    type V = WriterInput;

    open spec fn view(&self) -> WriterInput {
        match self {
            WriterEvent::Received(received) => WriterInput::Received(received@),
            WriterEvent::PushRefused => WriterInput::PushRefused,
        }
    }
}

/// What the writer's thread is to do next.
pub enum WriterAction {
    /// Push the frame, stamped with its presentation time, into the pipeline; then receive
    /// again.
    Push(TimedFrame),
    /// Nothing to push: wait for the relay and receive again.
    Wait,
    /// Inject end-of-stream into the pipeline and leave the loop.
    EndOfStream,
    /// Leave the loop.
    Finish,
}

/// What the writer's thread is to do next, as mathematics.
pub enum WriterOutput {
    /// Push these bytes with this presentation time.
    Push { bytes: Seq<u8>, pts: nat },
    /// Wait for the relay and receive again.
    Wait,
    /// Inject end-of-stream and leave the loop.
    EndOfStream,
    /// Leave the loop.
    Finish,
}

impl View for WriterAction {
    type V = WriterOutput;

    open spec fn view(&self) -> WriterOutput {
        match self {
            WriterAction::Push(timed) => WriterOutput::Push {
                bytes: timed.frame@,
                pts: timed.pts as nat,
            },
            WriterAction::Wait => WriterOutput::Wait,
            WriterAction::EndOfStream => WriterOutput::EndOfStream,
            WriterAction::Finish => WriterOutput::Finish,
        }
    }
}

/// The writer as mathematics.
pub struct WriterModel {
    /// The sequence number that the next frame gets.
    pub sequence: nat,
    /// Whether the writer still pushes frames.
    pub active: bool,
}

impl WriterModel {
    /// A writer that has pushed nothing yet.
    pub open spec fn fresh() -> WriterModel {
        WriterModel { sequence: 1, active: true }
    }

    /// Whether the next frame's presentation time can be held in 64 bits.
    pub open spec fn can_stamp(self) -> bool {
        presentation_time(self.sequence) <= u64::MAX
    }

    /// What the writer does about the input.
    pub open spec fn reaction(self, input: WriterInput) -> WriterOutput {
        if !self.active {
            WriterOutput::Finish
        } else {
            match input {
                WriterInput::Received(Delivery::Frame(bytes)) => if self.can_stamp() {
                    WriterOutput::Push { bytes, pts: presentation_time(self.sequence) }
                } else {
                    WriterOutput::EndOfStream
                },
                WriterInput::Received(Delivery::Pending) => WriterOutput::Wait,
                WriterInput::Received(Delivery::Closed) => WriterOutput::Finish,
                WriterInput::PushRefused => WriterOutput::EndOfStream,
            }
        }
    }

    /// The writer after the input.
    pub open spec fn next(self, input: WriterInput) -> WriterModel {
        if !self.active {
            self
        } else {
            match input {
                WriterInput::Received(Delivery::Frame(_)) => if self.can_stamp() {
                    WriterModel { sequence: self.sequence + 1, ..self }
                } else {
                    WriterModel { active: false, ..self }
                },
                WriterInput::Received(Delivery::Pending) => self,
                WriterInput::Received(Delivery::Closed) => WriterModel { active: false, ..self },
                WriterInput::PushRefused => WriterModel { active: false, ..self },
            }
        }
    }
}

/// The writer: stamps the frames that the relay delivers and says what to do with them.
pub struct Writer {
    sequence: u64,
    active: bool,
}

impl View for Writer {
    type V = WriterModel;

    closed spec fn view(&self) -> WriterModel {
        WriterModel { sequence: self.sequence as nat, active: self.active }
    }
}

impl Writer {
    /// A writer that has pushed nothing yet. Its first frame gets sequence number one.
    pub fn new() -> (writer: Writer)
        ensures
            writer@ == WriterModel::fresh(),
    {
        Writer { sequence: 1, active: true }
    }

    /// Whether the writer still pushes frames.
    pub fn is_active(&self) -> (active: bool)
        ensures
            active == self@.active,
    {
        self.active
    }

    /// The sequence number that the next frame gets.
    pub fn sequence(&self) -> (sequence: u64)
        ensures
            sequence == self@.sequence,
    {
        self.sequence
    }

    /// Takes in what the writer's thread met and says what to do next.
    ///
    /// A delivered frame is stamped with its sequence number times the frame interval and
    /// handed back for pushing. A refused push ends the stream: end-of-stream is to be
    /// injected and the writer pushes nothing more, and so does a frame whose presentation
    /// time no longer fits in 64 bits. A closed relay ends the writer without end-of-stream.
    /// Once ended, the writer answers everything with `Finish`.
    pub fn step(&mut self, event: WriterEvent) -> (action: WriterAction)
        ensures
            action@ == old(self)@.reaction(event@),
            final(self)@ == old(self)@.next(event@),
    {
        if !self.active {
            return WriterAction::Finish;
        }
        match event {
            WriterEvent::Received(Received::Frame(frame)) => {
                match self.sequence.checked_mul(FRAME_INTERVAL) {
                    Some(pts) => {
                        assert(self.sequence < u64::MAX) by (nonlinear_arith)
                            requires
                                self.sequence * 2_500_000 <= u64::MAX,
                        ;
                        self.sequence = self.sequence + 1;
                        WriterAction::Push(TimedFrame { frame, pts })
                    },
                    None => {
                        self.active = false;
                        WriterAction::EndOfStream
                    },
                }
            },
            WriterEvent::Received(Received::Pending) => WriterAction::Wait,
            WriterEvent::Received(Received::Closed) => {
                self.active = false;
                WriterAction::Finish
            },
            WriterEvent::PushRefused => {
                self.active = false;
                WriterAction::EndOfStream
            },
        }
    }
}

impl WriterModel {
    /// The writer after the inputs, first to last.
    pub open spec fn after(self, inputs: Seq<WriterInput>) -> WriterModel
        decreases inputs.len(),
    {
        if inputs.len() == 0 {
            self
        } else {
            self.next(inputs[0]).after(inputs.drop_first())
        }
    }

    /// The pushes that the inputs lead to, in the order in which they are made.
    pub open spec fn pushed(self, inputs: Seq<WriterInput>) -> Seq<WriterOutput>
        decreases inputs.len(),
    {
        if inputs.len() == 0 {
            Seq::empty()
        } else {
            let rest = self.next(inputs[0]).pushed(inputs.drop_first());
            match self.reaction(inputs[0]) {
                WriterOutput::Push { bytes, pts } => seq![WriterOutput::Push { bytes, pts }] + rest,
                _ => rest,
            }
        }
    }
}

/// The frames that the relay delivered among the inputs, in the order of their arrival.
pub open spec fn offered(inputs: Seq<WriterInput>) -> Seq<Seq<u8>>
    decreases inputs.len(),
{
    if inputs.len() == 0 {
        Seq::empty()
    } else {
        let rest = offered(inputs.drop_first());
        match inputs[0] {
            WriterInput::Received(Delivery::Frame(bytes)) => seq![bytes] + rest,
            _ => rest,
        }
    }
}

/// A writer that has ended stays ended and pushes nothing, whatever it is given: no frame
/// is written after the relay was seen closed, and a refused push is never tried again.
pub proof fn law_ended_writer_pushes_nothing(model: WriterModel, inputs: Seq<WriterInput>)
    requires
        !model.active,
    ensures
        !model.after(inputs).active,
        model.pushed(inputs) == Seq::<WriterOutput>::empty(),
    decreases inputs.len(),
{
    if inputs.len() > 0 {
        law_ended_writer_pushes_nothing(model.next(inputs[0]), inputs.drop_first());
    }
}

/// A refused push and a closed relay each end the writer at once.
pub proof fn law_refusal_and_closure_end_writer(model: WriterModel)
    ensures
        !model.next(WriterInput::PushRefused).active,
        !model.next(WriterInput::Received(Delivery::Closed)).active,
        model.active ==> model.reaction(WriterInput::PushRefused) == WriterOutput::EndOfStream,
        model.reaction(WriterInput::Received(Delivery::Closed)) == WriterOutput::Finish,
{
}

/// Presentation times count up with the frames: the pushes of a run carry the sequence
/// numbers that follow on the writer's own, one after the other, each times the frame
/// interval. From a fresh writer the first push is stamped with one interval, the second
/// with two, and so on.
pub proof fn law_stamps_count_up(model: WriterModel, inputs: Seq<WriterInput>)
    ensures
        forall|k: int|
            0 <= k < model.pushed(inputs).len() ==> (#[trigger] model.pushed(inputs)[k]
                matches WriterOutput::Push { pts, .. } && pts == presentation_time(
                (model.sequence + k) as nat,
            )),
    decreases inputs.len(),
{
    if inputs.len() > 0 {
        let next = model.next(inputs[0]);
        let rest = next.pushed(inputs.drop_first());
        law_stamps_count_up(next, inputs.drop_first());
        if !model.active {
            law_ended_writer_pushes_nothing(model, inputs);
        } else if !next.active {
            law_ended_writer_pushes_nothing(next, inputs.drop_first());
        } else {
            assert forall|k: int| 0 <= k < model.pushed(inputs).len() implies (
            #[trigger] model.pushed(inputs)[k] matches WriterOutput::Push { pts, .. } && pts
                == presentation_time((model.sequence + k) as nat)) by {
                if model.reaction(inputs[0]) is Push {
                    if k > 0 {
                        assert(model.pushed(inputs)[k] == rest[k - 1]);
                    }
                } else {
                    assert(model.pushed(inputs)[k] == rest[k]);
                }
            }
        }
    }
}

/// The writer pushes what arrives, as it arrives: the frames pushed over a run are the
/// frames that the relay delivered, in the same order and with the same bytes, up to the
/// point at which the writer ended.
pub proof fn law_pushes_keep_arrival_order(model: WriterModel, inputs: Seq<WriterInput>)
    ensures
        model.pushed(inputs).len() <= offered(inputs).len(),
        forall|k: int|
            0 <= k < model.pushed(inputs).len() ==> (#[trigger] model.pushed(inputs)[k]
                matches WriterOutput::Push { bytes, .. } && bytes == offered(inputs)[k]),
    decreases inputs.len(),
{
    if inputs.len() > 0 {
        let next = model.next(inputs[0]);
        let rest = next.pushed(inputs.drop_first());
        let rest_offered = offered(inputs.drop_first());
        law_pushes_keep_arrival_order(next, inputs.drop_first());
        if !model.active {
            law_ended_writer_pushes_nothing(model, inputs);
        } else if !next.active {
            law_ended_writer_pushes_nothing(next, inputs.drop_first());
        } else {
            assert forall|k: int| 0 <= k < model.pushed(inputs).len() implies (
            #[trigger] model.pushed(inputs)[k] matches WriterOutput::Push { bytes, .. } && bytes
                == offered(inputs)[k]) by {
                if model.reaction(inputs[0]) is Push {
                    if k > 0 {
                        assert(model.pushed(inputs)[k] == rest[k - 1]);
                        assert(offered(inputs)[k] == rest_offered[k - 1]);
                    }
                } else {
                    assert(model.pushed(inputs)[k] == rest[k]);
                    assert(offered(inputs) == rest_offered);
                }
            }
        }
    }
}

} // verus!
