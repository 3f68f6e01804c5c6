//! A test source whose encoded video stream is handed out frame by frame.

use vstd::prelude::*;
use vstd::string::StringExecFns;

verus! {

/// The pipeline description of the stream: a test picture, encoded, packed as RTP and
/// ending in the sink named `sink`, from which the frames are captured.
pub const LAUNCH: &'static str =
    "videotestsrc ! video/x-raw,format=I420,framerate=30/1,width=1280,height=720 ! x264enc tune=zerolatency ! rtph264pay ! appsink name=sink";

/// The description to hand to the pipeline builder.
pub fn launch() -> (description: String)
    ensures
        description@ == LAUNCH@,
{
    String::from_str(LAUNCH)
}

} // verus!
