//! The error taxonomy shared by every stage of the pipeline.

use vstd::prelude::*;

verus! {

/// Which constraint of the mono / 16-bit integer PCM container was broken.
#[derive(Clone, Copy, Debug, PartialEq, Eq, Structural)]
pub enum FormatViolation {
    /// The channel count is not accepted.
    ChannelCount,
    /// The samples are not integer PCM.
    SampleEncoding,
    /// The samples are not 16 bits wide.
    BitDepth,
    /// The sample rate is not the one the caller asked for, or is unusable.
    SampleRate,
    /// The container is ill-formed.
    Malformed,
    /// The container uses an encoding that cannot be read.
    Unsupported,
}

/// Every way in which a pipeline operation can fail.
#[derive(Clone, Copy, Debug, PartialEq, Eq, Structural)]
pub enum PipelineError {
    /// The container could not be read or written.
    Io,
    /// The container violates the accepted audio format.
    Format(FormatViolation),
    /// No usable capture device or configuration.
    Device,
    /// A handle was used after it was finalized.
    State,
    /// The resampling request or its result is degenerate.
    Resampler,
    /// The inference model is missing or cannot be loaded.
    Model,
    /// The engine call failed or a segment could not be retrieved.
    Inference,
}

/// The user-readable text of an error.
pub open spec fn message_text(e: PipelineError) -> Seq<char> {
    match e {
        PipelineError::Io => "audio container could not be read or written"@,
        PipelineError::Format(FormatViolation::ChannelCount) => "expected mono audio file"@,
        PipelineError::Format(FormatViolation::SampleEncoding) => "expected integer sample format"@,
        PipelineError::Format(FormatViolation::BitDepth) => "expected 16 bits per sample"@,
        PipelineError::Format(FormatViolation::SampleRate) => "unexpected sample rate"@,
        PipelineError::Format(FormatViolation::Malformed) => "ill-formed audio container"@,
        PipelineError::Format(FormatViolation::Unsupported) => "unsupported audio encoding"@,
        PipelineError::Device => "no usable input device"@,
        PipelineError::State => "writer already finalized"@,
        PipelineError::Resampler => "resampling request rejected"@,
        PipelineError::Model => "failed to open model"@,
        PipelineError::Inference => "failed to transcribe audio"@,
    }
}

impl PipelineError {
    /// Renders the error as the message shown across the command boundary.
    pub fn message(&self) -> (text: String)
        ensures
            text@ == message_text(*self),
    {
        match self {
            PipelineError::Io => String::from_str("audio container could not be read or written"),
            PipelineError::Format(FormatViolation::ChannelCount) => String::from_str(
                "expected mono audio file",
            ),
            PipelineError::Format(FormatViolation::SampleEncoding) => String::from_str(
                "expected integer sample format",
            ),
            PipelineError::Format(FormatViolation::BitDepth) => String::from_str(
                "expected 16 bits per sample",
            ),
            PipelineError::Format(FormatViolation::SampleRate) => String::from_str(
                "unexpected sample rate",
            ),
            PipelineError::Format(FormatViolation::Malformed) => String::from_str(
                "ill-formed audio container",
            ),
            PipelineError::Format(FormatViolation::Unsupported) => String::from_str(
                "unsupported audio encoding",
            ),
            PipelineError::Device => String::from_str("no usable input device"),
            PipelineError::State => String::from_str("writer already finalized"),
            PipelineError::Resampler => String::from_str("resampling request rejected"),
            PipelineError::Model => String::from_str("failed to open model"),
            PipelineError::Inference => String::from_str("failed to transcribe audio"),
        }
    }
}

} // verus!
