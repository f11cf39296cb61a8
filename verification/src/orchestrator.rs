//! The transcription call as a sequence of decisions: each outcome of work
//! done outside (reading the audio, filtering, loading the model, running the
//! engine, fetching its segments) gives the next stage and the next request.

use crate::error::PipelineError;
use crate::resample::{complete, completed, plan, planned, FilterSetup, ResamplePlan};
use crate::transcript::{assemble, delivered, flattened, usable, EngineSegment, Transcript};
use crate::wav::{decode, decoded, AudioBuffer};
use vstd::prelude::*;

verus! {

/// The sample rate that the inference engine expects, in Hz.
pub const ENGINE_RATE: u32 = 16000;

/// The textual hint that biases the engine towards the expected vocabulary.
pub const INITIAL_PROMPT: &'static str = "experience";

/// Whether the engine is asked to flag speaker turns.
pub const DETECT_SPEAKER_TURNS: bool = true;

/// What a transcription is waiting for.
#[derive(Clone, Copy, Debug, PartialEq, Eq, Structural)]
pub enum Stage {
    /// The bytes of the audio container.
    AwaitAudio,
    /// The output of the resampling filter.
    AwaitFilter,
    /// The result of loading the model.
    AwaitModel,
    /// The result of the single inference call.
    AwaitInference,
    /// The segments that the engine emitted.
    AwaitSegments,
    /// Nothing: the transcript was delivered.
    Finished,
    /// Nothing: the transcription failed.
    Failed,
}

/// What the engine is configured with for the one inference call.
#[derive(Debug)]
pub struct InferenceOptions {
    /// The textual hint that biases decoding.
    pub initial_prompt: String,
    /// Whether the engine flags, for each segment, that a new speaker
    /// follows.
    pub detect_speaker_turns: bool,
}

/// The result of a piece of work done outside the library.
#[derive(Debug)]
pub enum Outcome {
    /// The container's bytes, `None` where the file could not be read.
    Audio(Option<Vec<u8>>),
    /// The filter's output, `None` where the filter failed.
    Filtered(Option<Vec<i16>>),
    /// Whether the model was loaded.
    Model(bool),
    /// Whether the inference call succeeded.
    Inference(bool),
    /// One entry per emitted segment, `None` where it could not be fetched;
    /// `None` for the whole where the engine could not tell how many
    /// segments it emitted.
    Segments(Option<Vec<Option<EngineSegment>>>),
}

/// The next thing to do for a transcription.
#[derive(Debug)]
pub enum Request {
    /// Run the resampling filter over the held samples.
    RunFilter(FilterSetup),
    /// Load the model.
    LoadModel,
    /// Run the engine once over all held samples, configured as given.
    RunInference(InferenceOptions),
    /// Fetch every emitted segment, in order.
    FetchSegments,
    /// Hand the transcript to the caller.
    Deliver(Transcript),
    /// Hand the error to the caller.
    Fail(PipelineError),
}

/// One transcription call in progress.
#[derive(Debug)]
pub struct Transcription {
    stage: Stage,
    target_rate: u32,
    samples: Vec<i16>,
    plan: ResamplePlan,
}

/// The samples, their rate and the resampling plan that the bytes of a
/// container give in lenient-rate mode.
pub open spec fn prepared(bytes: Seq<u8>, target_rate: u32) -> Result<
    (Seq<i16>, u32, ResamplePlan),
    PipelineError,
> {
    match decoded(bytes, None) {
        Err(e) => Err(e),
        Ok((samples, rate)) => match planned(samples.len(), rate, target_rate) {
            Err(e) => Err(e),
            Ok(p) => Ok((samples, rate, p)),
        },
    }
}

/// The view of an optional buffer.
pub open spec fn samples_of(filtered: Option<Vec<i16>>) -> Option<Seq<i16>> {
    match filtered {
        Some(v) => Some(v@),
        None => None,
    }
}

/// Whether the engine delivered every segment well formed.
pub open spec fn all_usable(fetched: Seq<Option<EngineSegment>>) -> bool {
    forall|i: int| 0 <= i < fetched.len() ==> usable(#[trigger] fetched[i])
}

/// Decodes a container in lenient-rate mode and plans its conversion to
/// `target_rate`.
pub fn prepare(bytes: &Vec<u8>, target_rate: u32) -> (r: Result<
    (AudioBuffer, ResamplePlan),
    PipelineError,
>)
    ensures
        match prepared(bytes@, target_rate) {
            Ok((samples, rate, p)) => r is Ok && r->Ok_0.0.samples@ == samples
                && r->Ok_0.0.sample_rate == rate && r->Ok_0.1 == p,
            Err(e) => r is Err && r->Err_0 == e,
        },
{
    let buffer = match decode(bytes, None) {
        Ok(b) => b,
        Err(e) => {
            return Err(e);
        },
    };
    match plan(buffer.samples.len(), buffer.sample_rate, target_rate) {
        Ok(p) => Ok((buffer, p)),
        Err(e) => Err(e),
    }
}

impl Transcription {
    /// What the transcription is waiting for.
    pub closed spec fn stage(&self) -> Stage {
        self.stage
    }

    /// The rate that the samples are brought to.
    pub closed spec fn target_rate(&self) -> u32 {
        self.target_rate
    }

    /// The samples held for the filter or the engine.
    pub closed spec fn samples(&self) -> Seq<i16> {
        self.samples@
    }

    /// The resampling plan made when the audio arrived.
    pub closed spec fn plan(&self) -> ResamplePlan {
        self.plan
    }

    /// Whether the transcription stopped at `Failed` and `request` hands out
    /// the error `e`.
    pub open spec fn failed_with(&self, request: Request, e: PipelineError) -> bool {
        self.stage() == Stage::Failed && request is Fail && request->Fail_0 == e
    }

    /// Whether the transcription moved to `stage` keeping target rate,
    /// samples and plan of `before`.
    pub open spec fn moved_to(&self, before: Transcription, stage: Stage) -> bool {
        &&& self.stage() == stage
        &&& self.samples() == before.samples()
        &&& self.plan() == before.plan()
    }

    /// A transcription that waits for its audio; the first thing to do is to
    /// read the container.
    pub fn new(target_rate: u32) -> (t: Transcription)
        ensures
            t.stage() == Stage::AwaitAudio,
            t.target_rate() == target_rate,
            t.samples() == Seq::<i16>::empty(),
            t.plan() == ResamplePlan::PassThrough,
    {
        Transcription {
            stage: Stage::AwaitAudio,
            target_rate,
            samples: Vec::new(),
            plan: ResamplePlan::PassThrough,
        }
    }

    /// The stage reached so far.
    pub fn current_stage(&self) -> (s: Stage)
        ensures
            s == self.stage(),
    {
        self.stage
    }

    /// The samples held for the filter or the engine.
    pub fn held_samples(&self) -> (s: &Vec<i16>)
        ensures
            s@ == self.samples(),
    {
        &self.samples
    }

    /// Takes the outcome of the work last asked for and says what comes
    /// next.
    ///
    /// An outcome that the current stage does not wait for, and any outcome
    /// once the transcription is finished or has failed, gives
    /// `PipelineError::State`. The engine is asked to run only after the
    /// model was loaded and only on a buffer that holds samples (an empty one
    /// gives `PipelineError::Inference`), with the prompt hint and with
    /// speaker-turn detection switched on; a transcript is delivered only
    /// when every segment was fetched and is well formed.
    pub fn advance(self, outcome: Outcome) -> (r: (Transcription, Request))
        ensures
            r.0.target_rate() == self.target_rate(),
            r.1 is RunInference ==> self.stage() == Stage::AwaitModel && outcome is Model
                && outcome->Model_0 && r.0.samples().len() > 0
                && r.1->RunInference_0.initial_prompt@ == INITIAL_PROMPT@
                && r.1->RunInference_0.detect_speaker_turns == DETECT_SPEAKER_TURNS,
            r.1 is Deliver ==> self.stage() == Stage::AwaitSegments,
            self.stage() == Stage::Failed || self.stage() == Stage::Finished ==> r.0.failed_with(
                r.1,
                PipelineError::State,
            ),
            match (self.stage(), outcome) {
                (Stage::AwaitAudio, Outcome::Audio(Some(bytes))) => match prepared(
                    bytes@,
                    self.target_rate(),
                ) {
                    Ok((samples, _, ResamplePlan::PassThrough)) => r.0.stage() == Stage::AwaitModel
                        && r.0.samples() == samples && r.0.plan() == ResamplePlan::PassThrough
                        && r.1 is LoadModel,
                    Ok((samples, _, ResamplePlan::Filter(setup))) => r.0.stage() == Stage::AwaitFilter
                        && r.0.samples() == samples && r.0.plan() == ResamplePlan::Filter(setup)
                        && r.1 is RunFilter && r.1->RunFilter_0 == setup,
                    Err(e) => r.0.failed_with(r.1, e),
                },
                (Stage::AwaitAudio, Outcome::Audio(None)) => r.0.failed_with(
                    r.1,
                    PipelineError::Io,
                ),
                (Stage::AwaitFilter, Outcome::Filtered(out)) => match completed(
                    self.samples(),
                    self.plan(),
                    samples_of(out),
                ) {
                    Ok(samples) => r.0.stage() == Stage::AwaitModel && r.0.samples() == samples
                        && r.0.plan() == self.plan() && r.1 is LoadModel,
                    Err(e) => r.0.failed_with(r.1, e),
                },
                (Stage::AwaitModel, Outcome::Model(loaded)) => if !loaded {
                    r.0.failed_with(r.1, PipelineError::Model)
                } else if self.samples().len() == 0 {
                    r.0.failed_with(r.1, PipelineError::Inference)
                } else {
                    r.0.moved_to(self, Stage::AwaitInference) && r.1 is RunInference
                },
                (Stage::AwaitInference, Outcome::Inference(done)) => if done {
                    r.0.moved_to(self, Stage::AwaitSegments) && r.1 is FetchSegments
                } else {
                    r.0.failed_with(r.1, PipelineError::Inference)
                },
                (Stage::AwaitSegments, Outcome::Segments(Some(fetched))) => if all_usable(
                    fetched@,
                ) {
                    r.0.moved_to(self, Stage::Finished) && r.1 is Deliver && r.1->Deliver_0.wf()
                        && r.1->Deliver_0@ == delivered(fetched@) && r.1->Deliver_0.text_model()
                        == flattened(delivered(fetched@))
                } else {
                    r.0.failed_with(r.1, PipelineError::Inference)
                },
                (Stage::AwaitSegments, Outcome::Segments(None)) => r.0.failed_with(
                    r.1,
                    PipelineError::Inference,
                ),
                _ => r.0.failed_with(r.1, PipelineError::State),
            },
    {
        let Transcription { stage, target_rate, samples, plan } = self;
        match (stage, outcome) {
            (Stage::AwaitAudio, Outcome::Audio(Some(bytes))) => match prepare(&bytes, target_rate) {
                Ok((buffer, ResamplePlan::PassThrough)) => (
                    Transcription {
                        stage: Stage::AwaitModel,
                        target_rate,
                        samples: buffer.samples,
                        plan: ResamplePlan::PassThrough,
                    },
                    Request::LoadModel,
                ),
                Ok((buffer, ResamplePlan::Filter(setup))) => (
                    Transcription {
                        stage: Stage::AwaitFilter,
                        target_rate,
                        samples: buffer.samples,
                        plan: ResamplePlan::Filter(setup),
                    },
                    Request::RunFilter(setup),
                ),
                Err(e) => (
                    Transcription { stage: Stage::Failed, target_rate, samples, plan },
                    Request::Fail(e),
                ),
            },
            (Stage::AwaitAudio, Outcome::Audio(None)) => (
                Transcription { stage: Stage::Failed, target_rate, samples, plan },
                Request::Fail(PipelineError::Io),
            ),
            (Stage::AwaitFilter, Outcome::Filtered(out)) => match complete(samples, plan, out) {
                Ok(converted) => (
                    Transcription {
                        stage: Stage::AwaitModel,
                        target_rate,
                        samples: converted,
                        plan,
                    },
                    Request::LoadModel,
                ),
                Err(e) => (
                    Transcription { stage: Stage::Failed, target_rate, samples: Vec::new(), plan },
                    Request::Fail(e),
                ),
            },
            (Stage::AwaitModel, Outcome::Model(true)) => {
                if samples.len() == 0 {
                    (
                        Transcription { stage: Stage::Failed, target_rate, samples, plan },
                        Request::Fail(PipelineError::Inference),
                    )
                } else {
                    (
                        Transcription { stage: Stage::AwaitInference, target_rate, samples, plan },
                        Request::RunInference(
                            InferenceOptions {
                                initial_prompt: String::from_str(INITIAL_PROMPT),
                                detect_speaker_turns: DETECT_SPEAKER_TURNS,
                            },
                        ),
                    )
                }
            },
            (Stage::AwaitModel, Outcome::Model(false)) => (
                Transcription { stage: Stage::Failed, target_rate, samples, plan },
                Request::Fail(PipelineError::Model),
            ),
            (Stage::AwaitInference, Outcome::Inference(true)) => (
                Transcription { stage: Stage::AwaitSegments, target_rate, samples, plan },
                Request::FetchSegments,
            ),
            (Stage::AwaitInference, Outcome::Inference(false)) => (
                Transcription { stage: Stage::Failed, target_rate, samples, plan },
                Request::Fail(PipelineError::Inference),
            ),
            (Stage::AwaitSegments, Outcome::Segments(None)) => (
                Transcription { stage: Stage::Failed, target_rate, samples, plan },
                Request::Fail(PipelineError::Inference),
            ),
            (Stage::AwaitSegments, Outcome::Segments(Some(fetched))) => match assemble(&fetched) {
                Ok(transcript) => (
                    Transcription { stage: Stage::Finished, target_rate, samples, plan },
                    Request::Deliver(transcript),
                ),
                Err(e) => (
                    Transcription { stage: Stage::Failed, target_rate, samples, plan },
                    Request::Fail(e),
                ),
            },
            _ => (
                Transcription { stage: Stage::Failed, target_rate, samples, plan },
                Request::Fail(PipelineError::State),
            ),
        }
    }
}

} // verus!
