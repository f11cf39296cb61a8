//! Sample-rate conversion: the decision whether a buffer is filtered, the
//! fixed filter configuration, and the acceptance of the filter's output.
//!
//! The band-limited interpolation itself works on floating-point samples and
//! is run by the caller; this module fixes what is handed to it and what is
//! accepted back.

use crate::error::PipelineError;
use vstd::prelude::*;

verus! {

/// Number of taps of the windowed-sinc filter.
pub const SINC_LEN: usize = 256;

/// Number of intermediate points between two sinc taps.
pub const OVERSAMPLING_FACTOR: usize = 256;

/// Cutoff of the filter in hundredths of the Nyquist frequency.
pub const CUTOFF_PERCENT: u8 = 90;

/// Largest factor by which the conversion ratio may later be changed.
pub const MAX_RELATIVE_RATIO: u8 = 2;

/// The configuration of one filter run over a whole buffer.
#[derive(Clone, Copy, Debug, PartialEq, Eq, Structural)]
pub struct FilterSetup {
    /// Rate of the input in Hz; never zero.
    pub source_rate: u32,
    /// Rate of the output in Hz; never zero.
    pub target_rate: u32,
    /// Number of input samples handed to the filter in one chunk.
    pub chunk_len: usize,
    pub sinc_len: usize,
    pub oversampling_factor: usize,
    pub cutoff_percent: u8,
    pub max_relative_ratio: u8,
}

/// What has to happen to a buffer to bring it to the target rate.
#[derive(Clone, Copy, Debug, PartialEq, Eq, Structural)]
pub enum ResamplePlan {
    /// The rates match: the buffer is used as it is.
    PassThrough,
    /// The buffer goes through the filter with this configuration.
    Filter(FilterSetup),
}

/// The plan for a buffer of `len` samples: pass-through for equal rates,
/// otherwise a filter run, which is rejected for an empty buffer or a zero
/// rate.
pub open spec fn planned(len: nat, source_rate: u32, target_rate: u32) -> Result<
    ResamplePlan,
    PipelineError,
> {
    if source_rate == target_rate {
        Ok(ResamplePlan::PassThrough)
    } else if len == 0 || source_rate == 0 || target_rate == 0 {
        Err(PipelineError::Resampler)
    } else {
        Ok(
            ResamplePlan::Filter(
                FilterSetup {
                    source_rate,
                    target_rate,
                    chunk_len: len as usize,
                    sinc_len: SINC_LEN,
                    oversampling_factor: OVERSAMPLING_FACTOR,
                    cutoff_percent: CUTOFF_PERCENT,
                    max_relative_ratio: MAX_RELATIVE_RATIO,
                },
            ),
        )
    }
}

/// The result of a conversion, given the plan and what the filter returned
/// (`None` where it failed or was not run): the input itself on
/// pass-through, the filter's output where it is non-empty, an error
/// otherwise.
pub open spec fn completed(
    samples: Seq<i16>,
    plan: ResamplePlan,
    filtered: Option<Seq<i16>>,
) -> Result<Seq<i16>, PipelineError> {
    match plan {
        ResamplePlan::PassThrough => Ok(samples),
        ResamplePlan::Filter(_) => match filtered {
            Some(out) if out.len() > 0 => Ok(out),
            _ => Err(PipelineError::Resampler),
        },
    }
}

/// The whole conversion as one function of the input, the two rates and the
/// filter's output.
pub open spec fn resampled(
    samples: Seq<i16>,
    source_rate: u32,
    target_rate: u32,
    filtered: Option<Seq<i16>>,
) -> Result<Seq<i16>, PipelineError> {
    match planned(samples.len(), source_rate, target_rate) {
        Ok(plan) => completed(samples, plan, filtered),
        Err(e) => Err(e),
    }
}

/// The output length that the rate ratio alone predicts,
/// `len * target_rate / source_rate` rounded down.
pub open spec fn nominal_len(len: nat, source_rate: u32, target_rate: u32) -> nat
    recommends
        source_rate > 0,
{
    (len * target_rate as nat) / (source_rate as nat)
}

/// Decides how a buffer of `len` samples at `source_rate` is brought to
/// `target_rate`.
pub fn plan(len: usize, source_rate: u32, target_rate: u32) -> (r: Result<
    ResamplePlan,
    PipelineError,
>)
    ensures
        r == planned(len as nat, source_rate, target_rate),
{
    if source_rate == target_rate {
        Ok(ResamplePlan::PassThrough)
    } else if len == 0 || source_rate == 0 || target_rate == 0 {
        Err(PipelineError::Resampler)
    } else {
        Ok(
            ResamplePlan::Filter(
                FilterSetup {
                    source_rate,
                    target_rate,
                    chunk_len: len,
                    sinc_len: SINC_LEN,
                    oversampling_factor: OVERSAMPLING_FACTOR,
                    cutoff_percent: CUTOFF_PERCENT,
                    max_relative_ratio: MAX_RELATIVE_RATIO,
                },
            ),
        )
    }
}

/// Completes a conversion: hands the input back on pass-through, and accepts
/// the filter's output where there is one and it is not empty.
pub fn complete(samples: Vec<i16>, plan: ResamplePlan, filtered: Option<Vec<i16>>) -> (r: Result<
    Vec<i16>,
    PipelineError,
>)
    ensures
        match completed(
            samples@,
            plan,
            match filtered {
                Some(v) => Some(v@),
                None => None,
            },
        ) {
            Ok(out) => r is Ok && r->Ok_0@ == out,
            Err(e) => r is Err && r->Err_0 == e,
        },
{
    match plan {
        ResamplePlan::PassThrough => Ok(samples),
        ResamplePlan::Filter(_) => match filtered {
            Some(out) => {
                if out.len() > 0 {
                    Ok(out)
                } else {
                    Err(PipelineError::Resampler)
                }
            },
            None => Err(PipelineError::Resampler),
        },
    }
}

/// Converts `samples` from `source_rate` to `target_rate`, running `filter`
/// once over the whole buffer where the rates differ.
///
/// Equal rates return the input unchanged and never run the filter. An empty
/// buffer or a zero rate is rejected before the filter runs. Otherwise the
/// filter gets the planned configuration and the input, and its output is
/// returned where it is not empty.
pub fn resample<F: FnOnce(FilterSetup, &Vec<i16>) -> Option<Vec<i16>>>(
    samples: Vec<i16>,
    source_rate: u32,
    target_rate: u32,
    filter: F,
) -> (r: Result<Vec<i16>, PipelineError>)
    requires
        forall|setup: FilterSetup, input: &Vec<i16>| filter.requires((setup, input)),
    ensures
        match planned(samples@.len(), source_rate, target_rate) {
            Err(e) => r is Err && r->Err_0 == e,
            Ok(ResamplePlan::PassThrough) => r is Ok && r->Ok_0@ == samples@,
            Ok(ResamplePlan::Filter(setup)) => exists|out: Option<Vec<i16>>|
                #![auto]
                filter.ensures((setup, &samples), out) && match completed(
                    samples@,
                    ResamplePlan::Filter(setup),
                    match out {
                        Some(v) => Some(v@),
                        None => None,
                    },
                ) {
                    Ok(converted) => r is Ok && r->Ok_0@ == converted,
                    Err(e) => r is Err && r->Err_0 == e,
                },
        },
{
    match plan(samples.len(), source_rate, target_rate) {
        Err(e) => Err(e),
        Ok(ResamplePlan::PassThrough) => Ok(samples),
        Ok(ResamplePlan::Filter(setup)) => {
            let out = filter(setup, &samples);
            complete(samples, ResamplePlan::Filter(setup), out)
        },
    }
}

/// The output length predicted by the rate ratio, saturating at the largest
/// 64-bit value.
pub fn expected_len(len: usize, source_rate: u32, target_rate: u32) -> (n: u64)
    requires
        source_rate > 0,
    ensures
        n as nat == if nominal_len(len as nat, source_rate, target_rate) <= u64::MAX {
            nominal_len(len as nat, source_rate, target_rate)
        } else {
            u64::MAX as nat
        },
{
    assert((len as u128) * (target_rate as u128) <= 0xFFFF_FFFF_FFFF_FFFF * 0xFFFF_FFFF)
        by (nonlinear_arith)
        requires
            len as u128 <= 0xFFFF_FFFF_FFFF_FFFF,
            target_rate as u128 <= 0xFFFF_FFFF,
    ;
    let scaled: u128 = (len as u128) * (target_rate as u128);
    let quotient: u128 = scaled / (source_rate as u128);
    if quotient > 0xFFFF_FFFF_FFFF_FFFF {
        0xFFFF_FFFF_FFFF_FFFF
    } else {
        quotient as u64
    }
}

/// Converting between equal rates returns the input, whatever the input and
/// whatever a filter might have produced.
pub proof fn lemma_equal_rates_pass_through(
    samples: Seq<i16>,
    rate: u32,
    filtered: Option<Seq<i16>>,
)
    ensures
        planned(samples.len(), rate, rate) == Ok::<ResamplePlan, PipelineError>(
            ResamplePlan::PassThrough,
        ),
        resampled(samples, rate, rate, filtered) == Ok::<Seq<i16>, PipelineError>(samples),
{
}

/// Between equal rates the predicted output length is the input length.
pub proof fn lemma_equal_rates_keep_length(len: nat, rate: u32)
    requires
        rate > 0,
    ensures
        nominal_len(len, rate, rate) == len,
{
    assert((len * rate as nat) / (rate as nat) == len) by (nonlinear_arith)
        requires
            rate > 0,
    ;
}

} // verus!
