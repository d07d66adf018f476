//! The external transcoder: how it is invoked, and what its run comes to.

use crate::error::AcquisitionError;
use crate::metadata::texts;
use vstd::prelude::*;
use vstd::string::StringExecFns;

verus! {

/// Name of the transcoder program.
pub const TRANSCODER: &'static str = "ffmpeg";

/// The arguments of the transcoder for a given speed: read from standard
/// input, change the tempo by the speed, write MP3 to standard output.
pub open spec fn invocation(speed: Seq<char>) -> Seq<Seq<char>> {
    seq![
        "-hide_banner"@,
        "-i"@,
        "-"@,
        "-filter:a"@,
        "atempo="@ + speed,
        "-f"@,
        "mp3"@,
        "-"@,
    ]
}

/// Builds the arguments with which the transcoder is started. `speed` is
/// the speed multiplier as it is to be written out.
pub fn transcoder_args(speed: &str) -> (args: Vec<String>)
    ensures
        texts(args@) == invocation(speed@),
{
    let mut filter = "atempo=".to_owned();
    filter.append(speed);
    let mut args: Vec<String> = Vec::new();
    args.push("-hide_banner".to_owned());
    args.push("-i".to_owned());
    args.push("-".to_owned());
    args.push("-filter:a".to_owned());
    args.push(filter);
    args.push("-f".to_owned());
    args.push("mp3".to_owned());
    args.push("-".to_owned());
    assert(texts(args@) =~= invocation(speed@));
    args
}

/// How a run of the transcoder ended, with all that it wrote to its output.
#[derive(Clone, Debug, PartialEq, Eq)]
pub enum TranscoderRun {
    /// The process could not be started.
    NotStarted,
    /// The process ended; `code` is its exit code, `None` where it was ended
    /// from outside.
    Exited { code: Option<i32>, output: Vec<u8> },
}

/// The transcoded bytes of a run, or nothing where the run failed: only an
/// exit with code 0 counts, whatever was written.
pub open spec fn transcoded(run: TranscoderRun) -> Option<Seq<u8>> {
    match run {
        TranscoderRun::Exited { code: Some(code), output } if code == 0 => Some(output@),
        _ => None,
    }
}

/// Accepts or rejects the output of a run of the transcoder.
pub fn transcode_result(run: TranscoderRun) -> (result: Result<Vec<u8>, AcquisitionError>)
    ensures
        match result {
            Ok(audio) => transcoded(run) == Some(audio@),
            Err(error) => transcoded(run) is None && error
                == AcquisitionError::TranscodeProcessFailed,
        },
{
    match run {
        TranscoderRun::NotStarted => Err(AcquisitionError::TranscodeProcessFailed),
        TranscoderRun::Exited { code, output } => match code {
            Some(0) => Ok(output),
            _ => Err(AcquisitionError::TranscodeProcessFailed),
        },
    }
}

} // verus!
