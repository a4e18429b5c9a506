//! The errors that the library reports.
use vstd::prelude::*;

use crate::utils::text::{ParseIntFailure, concat, failure_message};

verus! {

broadcast use vstd::string::group_string_axioms;

/// A refused request or an input that cannot be used.
#[derive(Debug, Clone, PartialEq, Eq)]
pub enum FfxError {
    /// Both `--output` and `--output-dir` were given.
    OutputAndOutputDir,
    /// `--output` was given with more than one input file.
    OutputWithManyInputs,
    /// `--output` was given for more than one cut segment.
    OutputWithManySegments,
    /// The number of concurrent jobs was zero.
    NoJobs,
    /// The audio bitrate does not read as `<kbps>` or `<kbps>k`, and why.
    InvalidAudioBitrate(String, ParseIntFailure),
    /// The video bitrate does not read as `<kbps>` or `<kbps>k`, and why.
    InvalidVideoBitrate(String, ParseIntFailure),
    /// The target file size leaves no room for video next to the audio.
    TargetSizeTooSmall,
    /// A segment range has no `-` between its start and end.
    InvalidSegment(String),
    /// A timestamp has more than three `:`-separated fields.
    InvalidTimestamp(String),
    /// Neither segments nor both ends of a range were given.
    MissingRange,
    /// The input has audio but the written output has none.
    OutputMissingAudio,
    /// Some inputs failed; one line per failure.
    Failures(String),
}

/// The message of an error, as the command line prints it.
pub open spec fn error_message(e: FfxError) -> Seq<char> {
    match e {
        FfxError::OutputAndOutputDir => "use either --output or --output-dir, not both"@,
        FfxError::OutputWithManyInputs => "--output can only be used with a single input file"@,
        FfxError::OutputWithManySegments => "--output can only be used with a single cut segment"@,
        FfxError::NoJobs => "jobs must be at least 1"@,
        FfxError::InvalidAudioBitrate(v, f) => "invalid audio bitrate '"@ + v@ + "': "@
            + failure_message(f),
        FfxError::InvalidVideoBitrate(_, f) => failure_message(f),
        FfxError::TargetSizeTooSmall => "target file size is too small for the selected audio bitrate"@,
        FfxError::InvalidSegment(v) => "invalid segment '"@ + v@ + "'; expected START-END"@,
        FfxError::InvalidTimestamp(v) => "invalid timestamp '"@ + v@ + "'"@,
        FfxError::MissingRange => "either --segment or --from/--to is required"@,
        FfxError::OutputMissingAudio => "output is missing audio"@,
        FfxError::Failures(lines) => lines@,
    }
}

fn quoted(prefix: &str, value: &str, suffix: &str) -> (r: String)
    ensures
        r@ == prefix@ + value@ + suffix@,
{
    let mut r = concat(prefix, value);
    r.append(suffix);
    r
}

impl FfxError {
    /// The message of the error.
    pub fn message(&self) -> (r: String)
        ensures
            r@ == error_message(*self),
    {
        match self {
            FfxError::OutputAndOutputDir => "use either --output or --output-dir, not both".to_string(),
            FfxError::OutputWithManyInputs => "--output can only be used with a single input file".to_string(),
            FfxError::OutputWithManySegments => "--output can only be used with a single cut segment".to_string(),
            FfxError::NoJobs => "jobs must be at least 1".to_string(),
            FfxError::InvalidAudioBitrate(v, f) => {
                let mut r = quoted("invalid audio bitrate '", v.as_str(), "': ");
                r.append(f.message());
                r
            },
            FfxError::InvalidVideoBitrate(_, f) => f.message().to_string(),
            FfxError::TargetSizeTooSmall => "target file size is too small for the selected audio bitrate".to_string(),
            FfxError::InvalidSegment(v) => quoted("invalid segment '", v.as_str(), "'; expected START-END"),
            FfxError::InvalidTimestamp(v) => quoted("invalid timestamp '", v.as_str(), "'"),
            FfxError::MissingRange => "either --segment or --from/--to is required".to_string(),
            FfxError::OutputMissingAudio => "output is missing audio".to_string(),
            FfxError::Failures(lines) => lines.clone(),
        }
    }
}

} // verus!
