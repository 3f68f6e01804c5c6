//! A test source that serves an encoded video stream as RTP over UDP on the local host.

use vstd::prelude::*;
use vstd::string::StringExecFns;

verus! {

/// The pipeline description of the server: a test picture, encoded and sent to port 5000.
pub const LAUNCH: &'static str =
    "videotestsrc ! video/x-raw,format=I420,framerate=30/1,width=1280,height=720 ! x264enc tune=zerolatency ! rtph264pay ! udpsink port=5000 host=127.0.0.1";

/// The description to hand to the pipeline builder.
pub fn launch() -> (description: String)
    ensures
        description@ == LAUNCH@,
{
    String::from_str(LAUNCH)
}

} // verus!
