use voice_pipeline::error::{FormatViolation, PipelineError};

#[test]
fn every_error_has_its_message() {
    assert_eq!(PipelineError::Io.message(), "audio container could not be read or written");
    assert_eq!(
        PipelineError::Format(FormatViolation::ChannelCount).message(),
        "expected mono audio file"
    );
    assert_eq!(
        PipelineError::Format(FormatViolation::SampleEncoding).message(),
        "expected integer sample format"
    );
    assert_eq!(
        PipelineError::Format(FormatViolation::BitDepth).message(),
        "expected 16 bits per sample"
    );
    assert_eq!(
        PipelineError::Format(FormatViolation::SampleRate).message(),
        "unexpected sample rate"
    );
    assert_eq!(
        PipelineError::Format(FormatViolation::Malformed).message(),
        "ill-formed audio container"
    );
    assert_eq!(
        PipelineError::Format(FormatViolation::Unsupported).message(),
        "unsupported audio encoding"
    );
    assert_eq!(PipelineError::Device.message(), "no usable input device");
    assert_eq!(PipelineError::State.message(), "writer already finalized");
    assert_eq!(PipelineError::Resampler.message(), "resampling request rejected");
    assert_eq!(PipelineError::Model.message(), "failed to open model");
    assert_eq!(PipelineError::Inference.message(), "failed to transcribe audio");
}
