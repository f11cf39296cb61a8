//! Audio acquisition, normalisation and transcript assembly for a
//! record-then-transcribe speech pipeline.
//!
//! The crate holds the rules of the pipeline: which audio containers are
//! accepted, when a buffer is resampled, how a capture session moves between
//! its phases, and how engine output becomes a speaker-segmented transcript.
//! Device access, file access and the inference engine stay with the caller.

pub mod capture;
pub mod error;
pub mod orchestrator;
pub mod resample;
pub mod transcript;
pub mod wav;
