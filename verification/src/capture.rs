//! The capture side: the pipeline description that ends in a capturing sink, and what the
//! sink's callback does with each sample that the pipeline announces.

use crate::frame::Frame;
use crate::relay::FrameRelay;
use vstd::prelude::*;
use vstd::string::StringExecFns;

verus! {

/// What is appended to a pipeline description to end it in the sink named `sink`.
pub const SINK_STAGE: &'static str = " ! appsink name=sink";

/// The text posted on the bus when a sample carries no buffer.
pub const NO_BUFFER: &'static str = "Failed to get buffer from appsink";

/// The text posted on the bus when a buffer cannot be mapped for reading.
pub const NOT_READABLE: &'static str = "Failed to map buffer readable";

/// The text posted on the bus when mapped memory cannot be read as samples.
pub const NOT_SAMPLES: &'static str = "Failed to interprete buffer as S16 PCM";

/// The description of a pipeline whose output is captured: the given stages, followed by
/// the capturing sink. The stages are not looked into.
pub fn appsink_launch(launch: &str) -> (description: String)
    ensures
        description@ == launch@ + SINK_STAGE@,
{
    String::from_str(launch).concat(SINK_STAGE)
}

/// How far the callback got in reaching the bytes of the sample that the sink announced.
pub enum SampleAccess<'a> {
    /// The sink had no sample to pull.
    NoSample,
    /// The sample carries no buffer.
    NoBuffer,
    /// The buffer could not be mapped for reading.
    NotReadable,
    /// The buffer is mapped; these are its bytes.
    Readable(&'a [u8]),
}

/// What the callback reports back to the pipeline.
#[derive(Debug, Clone, Copy, PartialEq, Eq)]
pub enum FlowReturn {
    /// The sample was taken care of.
    Taken,
    /// The stream is at its end.
    Eos,
    /// The sample could not be read. The text is to be posted on the bus as an error of the
    /// sink.
    Error(&'static str),
}

/// What the callback reports for each outcome of reaching the sample's bytes.
pub open spec fn flow_for(access: SampleAccess<'_>) -> FlowReturn {
    match access {
        SampleAccess::NoSample => FlowReturn::Eos,
        SampleAccess::NoBuffer => FlowReturn::Error(NO_BUFFER),
        SampleAccess::NotReadable => FlowReturn::Error(NOT_READABLE),
        SampleAccess::Readable(_) => FlowReturn::Taken,
    }
}

/// The callback for a new sample.
///
/// Readable bytes are copied into a frame and sent into the relay; the callback reports
/// success whether or not anybody still receives, since a missing receiver only means that
/// the writer has left already. A sample that cannot be reached is reported to the pipeline
/// as a flow error and leaves the relay untouched. The callback neither waits nor fails.
pub fn on_new_sample(relay: &mut FrameRelay, access: SampleAccess<'_>) -> (flow: FlowReturn)
    ensures
        flow == flow_for(access),
        final(relay)@ == (match access {
            SampleAccess::Readable(memory) => old(relay)@.send(memory@),
            _ => old(relay)@,
        }),
{
    match access {
        SampleAccess::NoSample => FlowReturn::Eos,
        SampleAccess::NoBuffer => FlowReturn::Error(NO_BUFFER),
        SampleAccess::NotReadable => FlowReturn::Error(NOT_READABLE),
        SampleAccess::Readable(memory) => {
            match Frame::from_samples(memory) {
                Ok(frame) => {
                    let _ = relay.send(frame);
                    FlowReturn::Taken
                },
                Err(_) => FlowReturn::Error(NOT_SAMPLES),
            }
        },
    }
}

} // verus!
