use voice_pipeline::error::{FormatViolation, PipelineError};
use voice_pipeline::orchestrator::{
    prepare, Outcome, Request, Stage, Transcription, DETECT_SPEAKER_TURNS, ENGINE_RATE,
    INITIAL_PROMPT,
};
use voice_pipeline::resample::ResamplePlan;
use voice_pipeline::transcript::EngineSegment;
use voice_pipeline::wav::WriterHandle;

fn recording(channels: u16, rate: u32, samples: &[i16]) -> Vec<u8> {
    let mut writer = WriterHandle::create(channels, rate).expect("writable format");
    for s in samples {
        writer.write_sample(*s).expect("open writer");
    }
    writer.finalize().expect("container")
}

fn seg(text: &str, start: i64, end: i64, turn: bool) -> Option<EngineSegment> {
    Some(EngineSegment { text: text.to_string(), start, end, speaker_turn_next: turn })
}

fn failed(request: &Request, e: PipelineError) -> bool {
    matches!(request, Request::Fail(found) if *found == e)
}

#[test]
fn audio_at_the_engine_rate_skips_the_filter() {
    assert_eq!(ENGINE_RATE, 16000);
    let t = Transcription::new(ENGINE_RATE);
    assert_eq!(t.current_stage(), Stage::AwaitAudio);
    let (t, request) = t.advance(Outcome::Audio(Some(recording(1, 16000, &[1, 2, 3]))));
    assert!(matches!(request, Request::LoadModel));
    assert_eq!(t.current_stage(), Stage::AwaitModel);
    assert_eq!(t.held_samples(), &vec![1i16, 2, 3]);
    let (t, request) = t.advance(Outcome::Model(true));
    match request {
        Request::RunInference(options) => {
            assert_eq!(options.initial_prompt, INITIAL_PROMPT);
            assert_eq!(options.initial_prompt, "experience");
            assert!(options.detect_speaker_turns);
            assert!(DETECT_SPEAKER_TURNS);
        }
        other => panic!("expected an inference run, got {:?}", other),
    }
    assert_eq!(t.held_samples(), &vec![1i16, 2, 3]);
    let (t, request) = t.advance(Outcome::Inference(true));
    assert!(matches!(request, Request::FetchSegments));
    let (t, request) =
        t.advance(Outcome::Segments(Some(vec![seg("first", 0, 10, true), seg("second", 10, 30, false)])));
    assert_eq!(t.current_stage(), Stage::Finished);
    match request {
        Request::Deliver(transcript) => {
            assert_eq!(transcript.len(), 2);
            assert_eq!(transcript.text(), "first -second");
        }
        other => panic!("expected a transcript, got {:?}", other),
    }
}

#[test]
fn audio_at_another_rate_goes_through_the_filter() {
    let t = Transcription::new(16000);
    let (t, request) = t.advance(Outcome::Audio(Some(recording(1, 32000, &[4, 4, 8, 8]))));
    match request {
        Request::RunFilter(setup) => {
            assert_eq!(setup.source_rate, 32000);
            assert_eq!(setup.target_rate, 16000);
            assert_eq!(setup.chunk_len, 4);
        }
        other => panic!("expected a filter run, got {:?}", other),
    }
    assert_eq!(t.current_stage(), Stage::AwaitFilter);
    assert_eq!(t.held_samples(), &vec![4i16, 4, 8, 8]);
    let (t, request) = t.advance(Outcome::Filtered(Some(vec![4, 8])));
    assert!(matches!(request, Request::LoadModel));
    assert_eq!(t.held_samples(), &vec![4i16, 8]);
    assert_eq!(t.current_stage(), Stage::AwaitModel);
}

#[test]
fn a_failed_filter_fails_the_transcription() {
    let t = Transcription::new(16000);
    let (t, _) = t.advance(Outcome::Audio(Some(recording(1, 32000, &[4, 4, 8, 8]))));
    let (t, request) = t.advance(Outcome::Filtered(None));
    assert!(failed(&request, PipelineError::Resampler));
    assert_eq!(t.current_stage(), Stage::Failed);
    let t = Transcription::new(16000);
    let (t, _) = t.advance(Outcome::Audio(Some(recording(1, 32000, &[4, 4, 8, 8]))));
    let (_, request) = t.advance(Outcome::Filtered(Some(Vec::new())));
    assert!(failed(&request, PipelineError::Resampler));
}

#[test]
fn unreadable_or_unsupported_audio_fails_the_transcription() {
    let (t, request) = Transcription::new(16000).advance(Outcome::Audio(None));
    assert!(failed(&request, PipelineError::Io));
    assert_eq!(t.current_stage(), Stage::Failed);
    let (_, request) = Transcription::new(16000).advance(Outcome::Audio(Some(vec![1, 2, 3])));
    assert!(failed(&request, PipelineError::Io));
    let (_, request) =
        Transcription::new(16000).advance(Outcome::Audio(Some(recording(2, 16000, &[1, 2]))));
    assert!(failed(&request, PipelineError::Format(FormatViolation::ChannelCount)));
    let (_, request) =
        Transcription::new(16000).advance(Outcome::Audio(Some(recording(1, 44100, &[]))));
    assert!(failed(&request, PipelineError::Resampler));
}

#[test]
fn a_missing_model_fails_before_any_inference() {
    let t = Transcription::new(16000);
    let (t, _) = t.advance(Outcome::Audio(Some(recording(1, 16000, &[1, 2, 3]))));
    let (t, request) = t.advance(Outcome::Model(false));
    assert!(failed(&request, PipelineError::Model));
    assert_eq!(t.current_stage(), Stage::Failed);
    let (t, request) = t.advance(Outcome::Model(true));
    assert!(failed(&request, PipelineError::State));
    let (t, request) = t.advance(Outcome::Inference(true));
    assert!(failed(&request, PipelineError::State));
    assert_eq!(t.current_stage(), Stage::Failed);
}

#[test]
fn a_failed_inference_or_segment_gives_no_transcript() {
    let t = Transcription::new(16000);
    let (t, _) = t.advance(Outcome::Audio(Some(recording(1, 16000, &[1]))));
    let (t, _) = t.advance(Outcome::Model(true));
    let (_, request) = t.advance(Outcome::Inference(false));
    assert!(failed(&request, PipelineError::Inference));

    let t = Transcription::new(16000);
    let (t, _) = t.advance(Outcome::Audio(Some(recording(1, 16000, &[1]))));
    let (t, _) = t.advance(Outcome::Model(true));
    let (t, _) = t.advance(Outcome::Inference(true));
    let (t, request) = t.advance(Outcome::Segments(Some(vec![seg("a", 0, 1, false), None])));
    assert!(failed(&request, PipelineError::Inference));
    assert_eq!(t.current_stage(), Stage::Failed);
}

#[test]
fn an_outcome_nobody_asked_for_is_a_state_error() {
    let (t, request) = Transcription::new(16000).advance(Outcome::Model(true));
    assert!(failed(&request, PipelineError::State));
    assert_eq!(t.current_stage(), Stage::Failed);
    let t = Transcription::new(16000);
    let (t, _) = t.advance(Outcome::Audio(Some(recording(1, 16000, &[1]))));
    let (t, _) = t.advance(Outcome::Model(true));
    let (t, _) = t.advance(Outcome::Inference(true));
    let (t, _) = t.advance(Outcome::Segments(Some(Vec::new())));
    assert_eq!(t.current_stage(), Stage::Finished);
    let (t, request) = t.advance(Outcome::Segments(Some(Vec::new())));
    assert!(failed(&request, PipelineError::State));
    assert_eq!(t.current_stage(), Stage::Failed);
}

#[test]
fn prepare_decodes_leniently_and_plans() {
    let (buffer, plan) = prepare(&recording(1, 16000, &[5, 6]), 16000).expect("prepared");
    assert_eq!(buffer.samples, vec![5, 6]);
    assert_eq!(buffer.sample_rate, 16000);
    assert_eq!(plan, ResamplePlan::PassThrough);
    let (buffer, plan) = prepare(&recording(1, 48000, &[5, 6, 7]), 16000).expect("prepared");
    assert_eq!(buffer.sample_rate, 48000);
    match plan {
        ResamplePlan::Filter(setup) => assert_eq!(setup.chunk_len, 3),
        other => panic!("expected a filter run, got {:?}", other),
    }
    assert_eq!(prepare(&Vec::new(), 16000).err(), Some(PipelineError::Io));
}

#[test]
fn an_empty_buffer_is_never_handed_to_the_engine() {
    let t = Transcription::new(16000);
    let (t, request) = t.advance(Outcome::Audio(Some(recording(1, 16000, &[]))));
    assert!(matches!(request, Request::LoadModel));
    assert!(t.held_samples().is_empty());
    let (t, request) = t.advance(Outcome::Model(true));
    assert!(failed(&request, PipelineError::Inference));
    assert_eq!(t.current_stage(), Stage::Failed);
}

#[test]
fn one_emitted_segment_gives_its_text_alone() {
    let t = Transcription::new(16000);
    let (t, _) = t.advance(Outcome::Audio(Some(recording(1, 16000, &[1, 2, 3]))));
    let (t, _) = t.advance(Outcome::Model(true));
    let (t, _) = t.advance(Outcome::Inference(true));
    let (_, request) = t.advance(Outcome::Segments(Some(vec![seg("hi", 0, 50, false)])));
    match request {
        Request::Deliver(transcript) => {
            assert_eq!(transcript.len(), 1);
            assert_eq!(transcript.text(), "hi");
        }
        other => panic!("expected a transcript, got {:?}", other),
    }
}

#[test]
fn an_unknown_segment_count_gives_no_transcript() {
    let t = Transcription::new(16000);
    let (t, _) = t.advance(Outcome::Audio(Some(recording(1, 16000, &[1]))));
    let (t, _) = t.advance(Outcome::Model(true));
    let (t, _) = t.advance(Outcome::Inference(true));
    let (t, request) = t.advance(Outcome::Segments(None));
    assert!(failed(&request, PipelineError::Inference));
    assert_eq!(t.current_stage(), Stage::Failed);
}

#[test]
fn prepare_keeps_the_rate_of_the_header() {
    for rate in [8000u32, 16000, 22050, 48000] {
        let (buffer, _) = prepare(&recording(1, rate, &[1, 2, 3]), 16000).expect("prepared");
        assert_eq!(buffer.sample_rate, rate);
    }
}
