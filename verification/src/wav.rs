//! The mono, 16-bit integer PCM container: validation, decoding and the
//! buffered writer handle.

use crate::error::{PipelineError, FormatViolation};
use vstd::prelude::*;

verus! {

/// How the samples of a container are encoded.
#[derive(Clone, Copy, Debug, PartialEq, Eq, Structural)]
pub enum SampleKind {
    Int,
    Float,
}

/// The format fields of a container header.
#[derive(Clone, Copy, Debug, PartialEq, Eq, Structural)]
pub struct WavHeader {
    pub channels: u16,
    pub sample_rate: u32,
    pub bits_per_sample: u16,
    pub sample_kind: SampleKind,
}

/// Decoded mono 16-bit samples together with their rate in Hz.
#[derive(Debug)]
pub struct AudioBuffer {
    pub samples: Vec<i16>,
    pub sample_rate: u32,
}

/// The largest number of 16-bit samples whose container length still fits the
/// 32-bit size fields of the header: the container's size field counts two
/// bytes per sample and up to 60 bytes of header, the length of the
/// extensible header written for more than two channels.
pub const MAX_PENDING_SAMPLES: usize = 2147483617;

/// The first constraint that `header` breaks, checked in the order channel
/// count, sample encoding, bit depth and, in strict-rate mode, sample rate.
pub open spec fn header_violation(header: WavHeader, expected_rate: Option<u32>) -> Option<
    FormatViolation,
> {
    if header.channels != 1 {
        Some(FormatViolation::ChannelCount)
    } else if header.sample_kind != SampleKind::Int {
        Some(FormatViolation::SampleEncoding)
    } else if header.bits_per_sample != 16 {
        Some(FormatViolation::BitDepth)
    } else if expected_rate is Some && expected_rate->0 != header.sample_rate {
        Some(FormatViolation::SampleRate)
    } else {
        None
    }
}

/// Whether a writer can be configured for this channel count and rate: both
/// are positive and the byte rate of 16-bit samples fits in 32 bits.
pub open spec fn writable_format(channels: u16, sample_rate: u32) -> bool {
    channels >= 1 && sample_rate >= 1 && 2 * sample_rate * channels <= u32::MAX
}

/// Why the container reader refused a container.
#[derive(Clone, Copy, Debug, PartialEq, Eq, Structural)]
pub enum ContainerFault {
    /// The bytes ended early or could not be read.
    Io,
    /// The container is ill-formed.
    Malformed,
    /// A sample has more bits than a 16-bit integer holds.
    TooWide,
    /// The samples do not fill every channel.
    UnfinishedSample,
    /// The container uses an encoding that the reader does not support.
    Unsupported,
    /// The samples are not integers.
    InvalidSampleFormat,
}

/// The error that a refusal of the container reader becomes: only a failure
/// to read the bytes is an I/O error, every other refusal is a format
/// error. Without a fault to go by, the error is an I/O error.
pub open spec fn refusal(fault: Option<ContainerFault>) -> PipelineError {
    match fault {
        None => PipelineError::Io,
        Some(ContainerFault::Io) => PipelineError::Io,
        Some(ContainerFault::Malformed) => PipelineError::Format(FormatViolation::Malformed),
        Some(ContainerFault::TooWide) => PipelineError::Format(FormatViolation::BitDepth),
        Some(ContainerFault::UnfinishedSample) => PipelineError::Format(
            FormatViolation::Malformed,
        ),
        Some(ContainerFault::Unsupported) => PipelineError::Format(FormatViolation::Unsupported),
        Some(ContainerFault::InvalidSampleFormat) => PipelineError::Format(
            FormatViolation::SampleEncoding,
        ),
    }
}

/// What a decoder makes of a container, given the header and the samples that
/// the container reader found in it (`None` where it found none) and the
/// fault it met where it refused the container.
pub open spec fn decode_outcome(
    header: Option<WavHeader>,
    samples: Option<Seq<i16>>,
    fault: Option<ContainerFault>,
    expected_rate: Option<u32>,
) -> Result<(Seq<i16>, u32), PipelineError> {
    match header {
        None => Err(refusal(fault)),
        Some(h) => match header_violation(h, expected_rate) {
            Some(v) => Err(PipelineError::Format(v)),
            None => match samples {
                None => Err(refusal(fault)),
                Some(s) => Ok((s, h.sample_rate)),
            },
        },
    }
}

/// What decoding gives for the bytes of a container: `decode_outcome` of
/// what the container reader finds in them.
pub open spec fn decoded(bytes: Seq<u8>, expected_rate: Option<u32>) -> Result<
    (Seq<i16>, u32),
    PipelineError,
> {
    decode_outcome(
        container_header(bytes),
        container_samples(bytes),
        container_fault(bytes),
        expected_rate,
    )
}

#[verifier::external_type_specification]
#[verifier::external_body]
pub struct ExHoundError(hound::Error);

/// The header that `hound` reads from a container, `None` where it rejects
/// the bytes.
pub uninterp spec fn container_header(bytes: Seq<u8>) -> Option<WavHeader>;

/// The samples that `hound` decodes as 16-bit integers from a container,
/// `None` where the header or any sample cannot be read.
pub uninterp spec fn container_samples(bytes: Seq<u8>) -> Option<Seq<i16>>;

/// The first fault that `hound` meets when it reads the header and then every
/// sample as a 16-bit integer, `None` where it reads the whole container.
pub uninterp spec fn container_fault(bytes: Seq<u8>) -> Option<ContainerFault>;

/// The container that `hound` writes for a header and a run of samples,
/// `None` where it refuses to write one.
pub uninterp spec fn container_encoding(header: WavHeader, samples: Seq<i16>) -> Option<Seq<u8>>;

/// Calls `hound::WavReader::new` on the bytes and `WavReader::spec` on the
/// reader. Trusted: the result is a function of the bytes alone, here named
/// `container_header`; an error of the reader is the `None` of that name.
#[verifier::external_body]
fn read_header(bytes: &Vec<u8>) -> (r: Result<WavHeader, hound::Error>)
    ensures
        match r {
            Ok(h) => container_header(bytes@) == Some(h),
            Err(_) => container_header(bytes@) is None,
        },
{
    let reader = hound::WavReader::new(std::io::Cursor::new(bytes.as_slice()))?;
    let spec = reader.spec();
    let sample_kind = match spec.sample_format {
        hound::SampleFormat::Int => SampleKind::Int,
        hound::SampleFormat::Float => SampleKind::Float,
    };
    Ok(WavHeader {
        channels: spec.channels,
        sample_rate: spec.sample_rate,
        bits_per_sample: spec.bits_per_sample,
        sample_kind,
    })
}

/// Calls `hound::WavReader::into_samples::<i16>` on a reader over the bytes
/// and collects what it yields. Trusted: the result is a function of the
/// bytes alone, here named `container_samples`; the first error of the
/// reader or of a sample is the `None` of that name.
#[verifier::external_body]
fn read_samples(bytes: &Vec<u8>) -> (r: Result<Vec<i16>, hound::Error>)
    ensures
        match r {
            Ok(s) => container_samples(bytes@) == Some(s@),
            Err(_) => container_samples(bytes@) is None,
        },
{
    let reader = hound::WavReader::new(std::io::Cursor::new(bytes.as_slice()))?;
    reader.into_samples::<i16>().collect()
}

/// Calls `hound::WavReader::new` on the bytes and, where that succeeds,
/// `WavReader::into_samples::<i16>`, and tells the variants of the
/// `hound::Error` that came back apart. Trusted: the variant is a function of
/// the bytes alone, here named `container_fault`.
#[verifier::external_body]
fn read_fault(bytes: &Vec<u8>) -> (r: Option<ContainerFault>)
    ensures
        r == container_fault(bytes@),
{
    let read = match hound::WavReader::new(std::io::Cursor::new(bytes.as_slice())) {
        Ok(reader) => reader.into_samples::<i16>().collect::<Result<Vec<i16>, _>>(),
        Err(e) => Err(e),
    };
    match read {
        Ok(_) => None,
        Err(hound::Error::IoError(_)) => Some(ContainerFault::Io),
        Err(hound::Error::FormatError(_)) => Some(ContainerFault::Malformed),
        Err(hound::Error::TooWide) => Some(ContainerFault::TooWide),
        Err(hound::Error::UnfinishedSample) => Some(ContainerFault::UnfinishedSample),
        Err(hound::Error::Unsupported) => Some(ContainerFault::Unsupported),
        Err(hound::Error::InvalidSampleFormat) => Some(ContainerFault::InvalidSampleFormat),
    }
}

/// Calls `hound::WavWriter::new` on an in-memory cursor, then
/// `WavWriter::write_sample` for each sample in order and
/// `WavWriter::finalize`. Trusted: the bytes written are a function of the
/// header and the samples alone, here named `container_encoding`. The
/// `requires` keeps out the inputs on which the writer divides by zero
/// (no channel, rate zero) or overflows its 32-bit fields: the byte rate
/// `2 * rate * channels`, and the size `2 * samples + 60` that it writes
/// with the longer of its two headers.
#[verifier::external_body]
fn encode_container(header: &WavHeader, samples: &Vec<i16>) -> (r: Result<Vec<u8>, hound::Error>)
    requires
        writable_format(header.channels, header.sample_rate),
        header.bits_per_sample == 16,
        header.sample_kind == SampleKind::Int,
        samples@.len() <= MAX_PENDING_SAMPLES,
    ensures
        match r {
            Ok(b) => container_encoding(*header, samples@) == Some(b@),
            Err(_) => container_encoding(*header, samples@) is None,
        },
{
    let sample_format = match header.sample_kind {
        SampleKind::Int => hound::SampleFormat::Int,
        SampleKind::Float => hound::SampleFormat::Float,
    };
    let (channels, sample_rate) = (header.channels, header.sample_rate);
    let bits_per_sample = header.bits_per_sample;
    let spec = hound::WavSpec { channels, sample_rate, bits_per_sample, sample_format };
    let mut out = std::io::Cursor::new(Vec::new());
    let mut writer = hound::WavWriter::new(&mut out, spec)?;
    for sample in samples.iter() {
        writer.write_sample(*sample)?;
    }
    writer.finalize()?;
    Ok(out.into_inner())
}

/// Tells whether a writer can be configured for the channel count and rate.
pub fn is_writable(channels: u16, sample_rate: u32) -> (b: bool)
    ensures
        b == writable_format(channels, sample_rate),
{
    if channels == 0 || sample_rate == 0 {
        return false;
    }
    let doubled: u64 = 2 * (sample_rate as u64);
    assert(doubled * channels <= 0x2_0000_0000 * 0x1_0000) by (nonlinear_arith)
        requires
            doubled <= 0x2_0000_0000,
            channels <= 0x1_0000,
    ;
    let byte_rate: u64 = doubled * (channels as u64);
    byte_rate <= 0xFFFF_FFFF
}

/// Validates a header against the mono / integer / 16-bit constraints and,
/// where `expected_rate` is given, against that exact rate.
pub fn check_header(header: &WavHeader, expected_rate: Option<u32>) -> (r: Result<(), PipelineError>)
    ensures
        r == match header_violation(*header, expected_rate) {
            None => Ok::<(), PipelineError>(()),
            Some(v) => Err::<(), PipelineError>(PipelineError::Format(v)),
        },
{
    if header.channels != 1 {
        return Err(PipelineError::Format(FormatViolation::ChannelCount));
    }
    match header.sample_kind {
        SampleKind::Int => {},
        SampleKind::Float => {
            return Err(PipelineError::Format(FormatViolation::SampleEncoding));
        },
    }
    if header.bits_per_sample != 16 {
        return Err(PipelineError::Format(FormatViolation::BitDepth));
    }
    match expected_rate {
        Some(rate) => {
            if rate != header.sample_rate {
                return Err(PipelineError::Format(FormatViolation::SampleRate));
            }
        },
        None => {},
    }
    Ok(())
}

/// Turns the fault of a refused container into the error handed to callers.
pub fn refuse(fault: Option<ContainerFault>) -> (e: PipelineError)
    ensures
        e == refusal(fault),
{
    match fault {
        None => PipelineError::Io,
        Some(ContainerFault::Io) => PipelineError::Io,
        Some(ContainerFault::Malformed) => PipelineError::Format(FormatViolation::Malformed),
        Some(ContainerFault::TooWide) => PipelineError::Format(FormatViolation::BitDepth),
        Some(ContainerFault::UnfinishedSample) => PipelineError::Format(
            FormatViolation::Malformed,
        ),
        Some(ContainerFault::Unsupported) => PipelineError::Format(FormatViolation::Unsupported),
        Some(ContainerFault::InvalidSampleFormat) => PipelineError::Format(
            FormatViolation::SampleEncoding,
        ),
    }
}

/// Decodes a whole container held in memory.
///
/// Bytes that end early give `PipelineError::Io`; a container that the
/// reader refuses for its form or encoding, or whose header breaks a format
/// constraint, gives `PipelineError::Format`, the latter before any sample
/// is decoded; otherwise the buffer holds every sample of the container and
/// the rate of its header.
pub fn decode(bytes: &Vec<u8>, expected_rate: Option<u32>) -> (r: Result<AudioBuffer, PipelineError>)
    ensures
        match decoded(bytes@, expected_rate) {
            Ok((samples, rate)) => r is Ok && r->Ok_0.samples@ == samples && r->Ok_0.sample_rate
                == rate,
            Err(e) => r is Err && r->Err_0 == e,
        },
{
    let header = match read_header(bytes) {
        Ok(h) => h,
        Err(_) => {
            return Err(refuse(read_fault(bytes)));
        },
    };
    match check_header(&header, expected_rate) {
        Ok(()) => {},
        Err(e) => {
            return Err(e);
        },
    }
    match read_samples(bytes) {
        Ok(samples) => Ok(AudioBuffer { samples, sample_rate: header.sample_rate }),
        Err(_) => Err(refuse(read_fault(bytes))),
    }
}

/// A container that is stereo, holds float samples or is not 16 bits wide is
/// rejected as a format error, whichever of the three it is, whatever else
/// the header says and in either rate mode.
pub proof fn lemma_unsupported_format_is_rejected(
    header: WavHeader,
    samples: Option<Seq<i16>>,
    fault: Option<ContainerFault>,
    expected_rate: Option<u32>,
)
    requires
        header.channels != 1 || header.sample_kind != SampleKind::Int || header.bits_per_sample
            != 16,
    ensures
        header_violation(header, expected_rate) is Some,
        decode_outcome(Some(header), samples, fault, expected_rate) is Err,
        decode_outcome(Some(header), samples, fault, expected_rate)->Err_0 is Format,
{
}

/// A container that the reader refuses for anything but a failure to read
/// its bytes is rejected as a format error.
pub proof fn lemma_refused_format_is_rejected(
    samples: Option<Seq<i16>>,
    fault: ContainerFault,
    expected_rate: Option<u32>,
)
    requires
        fault != ContainerFault::Io,
    ensures
        decode_outcome(None, samples, Some(fault), expected_rate) is Err,
        decode_outcome(None, samples, Some(fault), expected_rate)->Err_0 is Format,
{
}

/// A mono, 16-bit integer container whose samples can be read decodes to
/// exactly those samples at the rate of its header, unless strict-rate mode
/// asks for another rate.
pub proof fn lemma_supported_format_is_decoded(
    header: WavHeader,
    samples: Seq<i16>,
    fault: Option<ContainerFault>,
    expected_rate: Option<u32>,
)
    requires
        header.channels == 1,
        header.sample_kind == SampleKind::Int,
        header.bits_per_sample == 16,
        expected_rate is None || expected_rate == Some(header.sample_rate),
    ensures
        decode_outcome(Some(header), Some(samples), fault, expected_rate) == Ok::<
            (Seq<i16>, u32),
            PipelineError,
        >((samples, header.sample_rate)),
{
}

/// A writer for one container: samples are buffered until `finalize`, which
/// produces the container bytes exactly once.
pub struct WriterHandle {
    header: WavHeader,
    pending: Vec<i16>,
    finalized: bool,
}

impl WriterHandle {
    /// The header the writer was created for.
    pub closed spec fn header(&self) -> WavHeader {
        self.header
    }

    /// The samples appended so far, in order.
    pub closed spec fn pending(&self) -> Seq<i16> {
        self.pending@
    }

    /// Whether `finalize` has been called.
    pub closed spec fn finalized(&self) -> bool {
        self.finalized
    }

    /// The invariant of a handle: a writable 16-bit integer header and a
    /// buffer that still fits a container.
    pub open spec fn wf(&self) -> bool {
        &&& writable_format(self.header().channels, self.header().sample_rate)
        &&& self.header().bits_per_sample == 16
        &&& self.header().sample_kind == SampleKind::Int
        &&& self.pending().len() <= MAX_PENDING_SAMPLES
    }

    /// Opens a writer for 16-bit integer PCM at the given channel count and
    /// rate. A zero channel count is refused as `ChannelCount`; a zero rate,
    /// or one whose byte rate overflows 32 bits, as `SampleRate`.
    pub fn create(channels: u16, sample_rate: u32) -> (r: Result<WriterHandle, PipelineError>)
        ensures
            channels == 0 ==> r is Err && r->Err_0 == PipelineError::Format(FormatViolation::ChannelCount),
            channels != 0 && !writable_format(channels, sample_rate) ==> r is Err && r->Err_0
                == PipelineError::Format(FormatViolation::SampleRate),
            writable_format(channels, sample_rate) ==> r is Ok && r->Ok_0.wf()
                && !r->Ok_0.finalized() && r->Ok_0.pending() == Seq::<i16>::empty()
                && r->Ok_0.header() == (WavHeader {
                channels,
                sample_rate,
                bits_per_sample: 16,
                sample_kind: SampleKind::Int,
            }),
    {
        if channels == 0 {
            return Err(PipelineError::Format(FormatViolation::ChannelCount));
        }
        if !is_writable(channels, sample_rate) {
            return Err(PipelineError::Format(FormatViolation::SampleRate));
        }
        Ok(
            WriterHandle {
                header: WavHeader {
                    channels,
                    sample_rate,
                    bits_per_sample: 16,
                    sample_kind: SampleKind::Int,
                },
                pending: Vec::new(),
                finalized: false,
            },
        )
    }

    /// Whether the handle has been finalized.
    pub fn is_finalized(&self) -> (b: bool)
        ensures
            b == self.finalized(),
    {
        self.finalized
    }

    /// The number of samples appended so far.
    pub fn len(&self) -> (n: usize)
        ensures
            n == self.pending().len(),
    {
        self.pending.len()
    }

    /// Appends one sample. Fails with `PipelineError::Io`, changing nothing, on a
    /// finalized handle or on one whose buffer is full.
    pub fn write_sample(&mut self, value: i16) -> (r: Result<(), PipelineError>)
        requires
            old(self).wf(),
        ensures
            final(self).wf(),
            final(self).header() == old(self).header(),
            final(self).finalized() == old(self).finalized(),
            old(self).finalized() || old(self).pending().len() >= MAX_PENDING_SAMPLES ==> r
                == Err::<(), PipelineError>(PipelineError::Io) && final(self).pending() == old(self).pending(),
            !old(self).finalized() && old(self).pending().len() < MAX_PENDING_SAMPLES ==> r
                == Ok::<(), PipelineError>(()) && final(self).pending() == old(self).pending().push(value),
    {
        if self.finalized || self.pending.len() >= MAX_PENDING_SAMPLES {
            return Err(PipelineError::Io);
        }
        self.pending.push(value);
        Ok(())
    }

    /// Closes the handle and returns the container holding every appended
    /// sample. A second call fails with `PipelineError::State`. The handle counts as
    /// finalized after the first call whatever its result.
    pub fn finalize(&mut self) -> (r: Result<Vec<u8>, PipelineError>)
        requires
            old(self).wf(),
        ensures
            final(self).wf(),
            final(self).finalized(),
            final(self).header() == old(self).header(),
            final(self).pending() == old(self).pending(),
            old(self).finalized() ==> r is Err && r->Err_0 == PipelineError::State,
            !old(self).finalized() ==> match container_encoding(
                old(self).header(),
                old(self).pending(),
            ) {
                Some(bytes) => r is Ok && r->Ok_0@ == bytes,
                None => r is Err && r->Err_0 == PipelineError::Io,
            },
    {
        if self.finalized {
            return Err(PipelineError::State);
        }
        self.finalized = true;
        match encode_container(&self.header, &self.pending) {
            Ok(bytes) => Ok(bytes),
            Err(_) => Err(PipelineError::Io),
        }
    }
}

} // verus!
