//! The frame-extraction boundary: what one invocation of the external
//! frame-capture capability is asked to do, and what it can report.
//!
//! The capability itself is a blocking external process the caller launches;
//! this module fixes the exact argument list of an invocation — seek one
//! second into the source, capture one frame, scale it to 222x124, write it as
//! a PNG to the output path — and the three outcomes a launch can have.

use vstd::prelude::*;
use crate::paths::views_of;

verus! {

/// What the external frame-capture capability reported for one invocation.
#[derive(Debug, Clone, Copy)]
pub enum ExtractOutcome {
    /// It ran and exited cleanly; nothing beyond the clean exit is claimed of
    /// the written image.
    Success,
    /// It ran and exited with a failure.
    Failed,
    /// It could not be launched at all — a recoverable error of the request,
    /// never a fault of the whole process.
    Unavailable,
}

/// The fixed arguments of one frame-capture invocation: input `video`, seek
/// offset of one second, one frame, a 222x124 output, written to `output`.
pub open spec fn extractor_args_spec(video: Seq<char>, output: Seq<char>) -> Seq<Seq<char>> {
    seq![
        "-i"@,
        video,
        "-ss"@,
        "00:00:01.000"@,
        "-vframes"@,
        "1"@,
        "-s"@,
        "222x124"@,
        output,
    ]
}

/// The argument list to hand the external capability for extracting one frame
/// of `video` into `output`.
pub fn extractor_args(video: &str, output: &str) -> (args: Vec<String>)
    ensures
        views_of(args@) == extractor_args_spec(video@, output@),
{
    let mut args: Vec<String> = Vec::new();
    args.push("-i".to_owned());
    args.push(video.to_owned());
    args.push("-ss".to_owned());
    args.push("00:00:01.000".to_owned());
    args.push("-vframes".to_owned());
    args.push("1".to_owned());
    args.push("-s".to_owned());
    args.push("222x124".to_owned());
    args.push(output.to_owned());
    proof {
        assert(views_of(args@) =~= extractor_args_spec(video@, output@));
    }
    args
}

} // verus!
