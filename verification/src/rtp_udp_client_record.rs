//! Recording of an RTP stream that arrives over UDP into a file.

use vstd::prelude::*;
use vstd::string::StringExecFns;

verus! {

/// What the pipeline description starts with, up to the port.
pub const LAUNCH_SOURCE: &'static str = "udpsrc port=";

/// What stands between the port and the file name: the stream's format and the stages that
/// unpack, parse and multiplex it.
pub const LAUNCH_STAGES: &'static str =
    "  ! application/x-rtp, media=(string)video, clock-rate=(int)90000, encoding-name=(string)H264, payload=(int)96\n            ! queue  ! rtph264depay name=pay0 ! h264parse config-interval=-1 ! mp4mux ! filesink location=";

/// The pipeline description for a recording, as mathematics.
pub open spec fn launch_spec(port: Seq<char>, filename: Seq<char>) -> Seq<char> {
    LAUNCH_SOURCE@ + port + LAUNCH_STAGES@ + filename
}

/// The description to hand to the pipeline builder: the stream is taken from the UDP port
/// and written to the file. Neither the port nor the file name is looked into.
pub fn launch(port: &str, filename: &str) -> (description: String)
    ensures
        description@ == launch_spec(port@, filename@),
{
    String::from_str(LAUNCH_SOURCE).concat(port).concat(LAUNCH_STAGES).concat(filename)
}

} // verus!
