//! The capture session as a state machine: each event from the device or the
//! session controller gives the next phase and the one action to perform.

use crate::error::PipelineError;
use crate::wav::{
    container_encoding, is_writable, writable_format, SampleKind, WavHeader, WriterHandle,
    MAX_PENDING_SAMPLES,
};
use vstd::prelude::*;

verus! {

/// Where a capture session stands.
#[derive(Clone, Copy, Debug, PartialEq, Eq, Structural)]
pub enum Phase {
    /// No session is in progress.
    Idle,
    /// The default input device is being asked for its configuration.
    Negotiating,
    /// The stream is running and the writer is open.
    Recording,
    /// The stream is being stopped and the writer closed.
    Finalizing,
}

/// The input configuration that a device reports.
#[derive(Clone, Copy, Debug, PartialEq, Eq, Structural)]
pub struct DeviceConfig {
    pub channels: u16,
    pub sample_rate: u32,
}

/// What can happen to a session.
#[derive(Clone, Copy, Debug, PartialEq, Eq, Structural)]
pub enum CaptureEvent {
    /// The caller asks for a recording.
    Start,
    /// The device reported its default input configuration.
    Configured(DeviceConfig),
    /// There is no input device, or it has no configuration.
    Unavailable,
    /// The device delivered a frame of samples.
    Frame,
    /// The device reported a stream error.
    StreamFault,
    /// The caller asks the recording to stop.
    Stop,
    /// The session's deadline has passed.
    Deadline,
    /// The writer has been finalized and released.
    WriterClosed,
}

/// What the session controller has to do next.
#[derive(Clone, Copy, Debug, PartialEq, Eq, Structural)]
pub enum CaptureAction {
    /// Nothing; in particular a frame is dropped.
    Ignore,
    /// Ask the default input device for its configuration.
    Negotiate,
    /// Open the writer with this header and start the stream.
    Open(WavHeader),
    /// Append the samples of the delivered frame to the writer.
    Append,
    /// Stop the stream and finalize the writer.
    Finalize,
    /// Report the stream error, then stop the stream and finalize the writer.
    ReportAndFinalize,
    /// Give up with this error; no writer was opened.
    Fail(PipelineError),
}

/// Whether the event ends a recording.
pub open spec fn ends_recording(event: CaptureEvent) -> bool {
    event == CaptureEvent::Stop || event == CaptureEvent::Deadline || event
        == CaptureEvent::StreamFault
}

/// Whether the action finalizes the writer.
pub open spec fn finalizes(action: CaptureAction) -> bool {
    action == CaptureAction::Finalize || action == CaptureAction::ReportAndFinalize
}

/// The container header derived from a device configuration.
pub open spec fn header_for(config: DeviceConfig) -> WavHeader {
    WavHeader {
        channels: config.channels,
        sample_rate: config.sample_rate,
        bits_per_sample: 16,
        sample_kind: SampleKind::Int,
    }
}

/// The transition function of the session.
pub open spec fn next(phase: Phase, event: CaptureEvent) -> (Phase, CaptureAction) {
    match phase {
        Phase::Idle => match event {
            CaptureEvent::Start => (Phase::Negotiating, CaptureAction::Negotiate),
            _ => (Phase::Idle, CaptureAction::Ignore),
        },
        Phase::Negotiating => match event {
            CaptureEvent::Configured(config) => if writable_format(
                config.channels,
                config.sample_rate,
            ) {
                (Phase::Recording, CaptureAction::Open(header_for(config)))
            } else {
                (Phase::Idle, CaptureAction::Fail(PipelineError::Device))
            },
            CaptureEvent::Unavailable => (Phase::Idle, CaptureAction::Fail(PipelineError::Device)),
            CaptureEvent::Stop | CaptureEvent::Deadline => (Phase::Idle, CaptureAction::Ignore),
            _ => (Phase::Negotiating, CaptureAction::Ignore),
        },
        Phase::Recording => match event {
            CaptureEvent::Frame => (Phase::Recording, CaptureAction::Append),
            CaptureEvent::Stop | CaptureEvent::Deadline => (
                Phase::Finalizing,
                CaptureAction::Finalize,
            ),
            CaptureEvent::StreamFault => (Phase::Finalizing, CaptureAction::ReportAndFinalize),
            _ => (Phase::Recording, CaptureAction::Ignore),
        },
        Phase::Finalizing => match event {
            CaptureEvent::WriterClosed => (Phase::Idle, CaptureAction::Ignore),
            _ => (Phase::Finalizing, CaptureAction::Ignore),
        },
    }
}

/// The phase reached from `phase` after all of `events`.
pub open spec fn phase_after(phase: Phase, events: Seq<CaptureEvent>) -> Phase
    decreases events.len(),
{
    if events.len() == 0 {
        phase
    } else {
        next(phase_after(phase, events.drop_last()), events.last()).0
    }
}

/// The action that the event at `index` gives when `events` are handled in
/// order from `phase`.
pub open spec fn action_at(phase: Phase, events: Seq<CaptureEvent>, index: int) -> CaptureAction
    recommends
        0 <= index < events.len(),
{
    next(phase_after(phase, events.take(index)), events[index]).1
}

/// Handles one event: returns the next phase and the action to perform.
pub fn step(phase: Phase, event: CaptureEvent) -> (r: (Phase, CaptureAction))
    ensures
        r == next(phase, event),
{
    match phase {
        Phase::Idle => match event {
            CaptureEvent::Start => (Phase::Negotiating, CaptureAction::Negotiate),
            _ => (Phase::Idle, CaptureAction::Ignore),
        },
        Phase::Negotiating => match event {
            CaptureEvent::Configured(config) => {
                if usable(&config) {
                    (
                        Phase::Recording,
                        CaptureAction::Open(
                            WavHeader {
                                channels: config.channels,
                                sample_rate: config.sample_rate,
                                bits_per_sample: 16,
                                sample_kind: SampleKind::Int,
                            },
                        ),
                    )
                } else {
                    (Phase::Idle, CaptureAction::Fail(PipelineError::Device))
                }
            },
            CaptureEvent::Unavailable => (Phase::Idle, CaptureAction::Fail(PipelineError::Device)),
            CaptureEvent::Stop => (Phase::Idle, CaptureAction::Ignore),
            CaptureEvent::Deadline => (Phase::Idle, CaptureAction::Ignore),
            _ => (Phase::Negotiating, CaptureAction::Ignore),
        },
        Phase::Recording => match event {
            CaptureEvent::Frame => (Phase::Recording, CaptureAction::Append),
            CaptureEvent::Stop => (Phase::Finalizing, CaptureAction::Finalize),
            CaptureEvent::Deadline => (Phase::Finalizing, CaptureAction::Finalize),
            CaptureEvent::StreamFault => (Phase::Finalizing, CaptureAction::ReportAndFinalize),
            _ => (Phase::Recording, CaptureAction::Ignore),
        },
        Phase::Finalizing => match event {
            CaptureEvent::WriterClosed => (Phase::Idle, CaptureAction::Ignore),
            _ => (Phase::Finalizing, CaptureAction::Ignore),
        },
    }
}

/// Whether a writer can be opened for the configuration.
pub fn usable(config: &DeviceConfig) -> (b: bool)
    ensures
        b == writable_format(config.channels, config.sample_rate),
{
    is_writable(config.channels, config.sample_rate)
}

/// One capture session with its writer, from the opening of the stream to
/// the release of the writer.
pub struct CaptureSession {
    phase: Phase,
    writer: WriterHandle,
}

/// The event as the session takes it: a frame that no longer fits the
/// container counts as a stream fault.
pub open spec fn effective_event(
    phase: Phase,
    recorded: nat,
    event: CaptureEvent,
    frame_len: nat,
) -> CaptureEvent {
    if phase == Phase::Recording && event == CaptureEvent::Frame && recorded + frame_len
        > MAX_PENDING_SAMPLES {
        CaptureEvent::StreamFault
    } else {
        event
    }
}

/// The transition of a session that owns its writer: as `next`, but a
/// released session ignores every event.
pub open spec fn session_next(phase: Phase, event: CaptureEvent) -> (Phase, CaptureAction) {
    if phase == Phase::Idle {
        (Phase::Idle, CaptureAction::Ignore)
    } else {
        next(phase, event)
    }
}

impl CaptureSession {
    /// Where the session stands.
    pub closed spec fn phase(&self) -> Phase {
        self.phase
    }

    /// The header of the session's writer.
    pub closed spec fn header(&self) -> WavHeader {
        self.writer.header()
    }

    /// The samples written so far.
    pub closed spec fn recorded(&self) -> Seq<i16> {
        self.writer.pending()
    }

    /// Whether the session's writer has been finalized.
    pub closed spec fn sealed(&self) -> bool {
        self.writer.finalized()
    }

    /// The invariant of a session: its one writer is open exactly while the
    /// session records.
    pub closed spec fn wf(&self) -> bool {
        &&& self.writer.wf()
        &&& self.phase != Phase::Negotiating
        &&& (self.writer.finalized() <==> self.phase != Phase::Recording)
    }

    /// In a well-formed session the writer is finalized exactly when the
    /// session is not recording.
    pub proof fn lemma_sealed_unless_recording(&self)
        requires
            self.wf(),
        ensures
            self.sealed() <==> self.phase() != Phase::Recording,
            self.phase() != Phase::Negotiating,
    {
    }

    /// Opens the writer for the negotiated configuration and starts
    /// recording; an unusable configuration is a device error.
    pub fn open(config: DeviceConfig) -> (r: Result<CaptureSession, PipelineError>)
        ensures
            writable_format(config.channels, config.sample_rate) ==> r is Ok && r->Ok_0.wf()
                && r->Ok_0.phase() == Phase::Recording && r->Ok_0.recorded() == Seq::<
                i16,
            >::empty() && r->Ok_0.header() == header_for(config),
            !writable_format(config.channels, config.sample_rate) ==> r is Err && r->Err_0
                == PipelineError::Device,
    {
        match WriterHandle::create(config.channels, config.sample_rate) {
            Ok(writer) => Ok(CaptureSession { phase: Phase::Recording, writer }),
            Err(_) => Err(PipelineError::Device),
        }
    }

    /// The phase of the session.
    pub fn current_phase(&self) -> (p: Phase)
        ensures
            p == self.phase(),
    {
        self.phase
    }

    /// The number of samples written so far.
    pub fn recorded_len(&self) -> (n: usize)
        ensures
            n == self.recorded().len(),
    {
        self.writer.len()
    }

    /// Takes one event, with the samples of the frame where the event is a
    /// frame, and performs its action on the writer.
    ///
    /// Returns the action taken and, where it finalizes the writer, the
    /// finished container or the error of writing it. A frame is appended
    /// whole while recording and dropped otherwise; the writer is finalized
    /// by the first event that ends the recording and by no other.
    pub fn handle(&mut self, event: CaptureEvent, frame: &Vec<i16>) -> (r: (
        CaptureAction,
        Option<Result<Vec<u8>, PipelineError>>,
    ))
        requires
            old(self).wf(),
        ensures
            final(self).wf(),
            final(self).header() == old(self).header(),
            (final(self).phase(), r.0) == session_next(
                old(self).phase(),
                effective_event(
                    old(self).phase(),
                    old(self).recorded().len(),
                    event,
                    frame@.len(),
                ),
            ),
            r.0 == CaptureAction::Append ==> !old(self).sealed() && final(self).recorded() == old(
                self,
            ).recorded() + frame@,
            finalizes(r.0) ==> !old(self).sealed() && final(self).sealed(),
            old(self).sealed() ==> final(self).sealed() && !finalizes(r.0),
            r.0 != CaptureAction::Append ==> final(self).recorded() == old(self).recorded(),
            !finalizes(r.0) ==> r.1 is None,
            finalizes(r.0) ==> r.1 is Some && match container_encoding(
                old(self).header(),
                old(self).recorded(),
            ) {
                Some(bytes) => r.1->0 is Ok && r.1->0->Ok_0@ == bytes,
                None => r.1->0 is Err && r.1->0->Err_0 == PipelineError::Io,
            },
    {
        if self.phase == Phase::Idle {
            return (CaptureAction::Ignore, None);
        }
        let effective = if self.phase == Phase::Recording && event == CaptureEvent::Frame
            && frame.len() > MAX_PENDING_SAMPLES - self.writer.len() {
            CaptureEvent::StreamFault
        } else {
            event
        };
        let (phase, action) = step(self.phase, effective);
        self.phase = phase;
        match action {
            CaptureAction::Append => {
                let ghost before = self.writer.pending();
                let n: usize = frame.len();
                let mut i: usize = 0;
                while i < n
                    invariant
                        n == frame@.len(),
                        0 <= i <= n,
                        before.len() + n <= MAX_PENDING_SAMPLES,
                        self.phase == Phase::Recording,
                        self.writer.wf(),
                        !self.writer.finalized(),
                        self.writer.header() == old(self).writer.header(),
                        self.writer.pending() == before + frame@.take(i as int),
                    decreases n - i,
                {
                    let _ = self.writer.write_sample(frame[i]);
                    assert(before + frame@.take(i + 1) =~= (before + frame@.take(i as int)).push(
                        frame@[i as int],
                    ));
                    i += 1;
                }
                (action, None)
            },
            CaptureAction::Finalize => {
                let container = self.writer.finalize();
                (action, Some(container))
            },
            CaptureAction::ReportAndFinalize => {
                let container = self.writer.finalize();
                (action, Some(container))
            },
            _ => (action, None),
        }
    }
}

/// Samples are appended and the writer is finalized only while recording,
/// and a finalizing action always leaves the recording phase.
pub proof fn lemma_writer_touched_only_while_recording(phase: Phase, event: CaptureEvent)
    ensures
        next(phase, event).1 == CaptureAction::Append ==> phase == Phase::Recording && next(
            phase,
            event,
        ).0 == Phase::Recording,
        finalizes(next(phase, event).1) <==> phase == Phase::Recording && ends_recording(event),
        finalizes(next(phase, event).1) ==> next(phase, event).0 == Phase::Finalizing,
        next(phase, event).0 == Phase::Recording && phase != Phase::Recording ==> next(
            phase,
            event,
        ).1 is Open,
{
}

/// Without a new device configuration, a session that is not recording
/// never gets back to recording.
pub proof fn lemma_closed_writer_stays_closed(phase: Phase, events: Seq<CaptureEvent>)
    requires
        phase != Phase::Recording,
        forall|k: int| 0 <= k < events.len() ==> !(#[trigger] events[k] is Configured),
    ensures
        phase_after(phase, events) != Phase::Recording,
    decreases events.len(),
{
    if events.len() > 0 {
        lemma_closed_writer_stays_closed(phase, events.drop_last());
    }
}

/// While no event ends the recording, a recording session keeps recording
/// and never finalizes.
pub proof fn lemma_recording_continues(events: Seq<CaptureEvent>)
    requires
        forall|k: int| 0 <= k < events.len() ==> !ends_recording(#[trigger] events[k]),
    ensures
        phase_after(Phase::Recording, events) == Phase::Recording,
    decreases events.len(),
{
    if events.len() > 0 {
        lemma_recording_continues(events.drop_last());
    }
}

/// A recording session finalizes its writer exactly once, at the first event
/// that ends the recording, and appends nothing after it: for every trace
/// without a new device configuration whose first ending event stands at
/// `stop`, the action there finalizes, no earlier action does, and no later
/// action finalizes or appends.
pub proof fn lemma_finalized_exactly_once(events: Seq<CaptureEvent>, stop: int)
    requires
        0 <= stop < events.len(),
        ends_recording(events[stop]),
        forall|k: int| 0 <= k < stop ==> !ends_recording(#[trigger] events[k]),
        forall|k: int| 0 <= k < events.len() ==> !(#[trigger] events[k] is Configured),
    ensures
        finalizes(action_at(Phase::Recording, events, stop)),
        forall|k: int|
            0 <= k < stop ==> !finalizes(#[trigger] action_at(Phase::Recording, events, k)),
        forall|k: int|
            stop < k < events.len() ==> {
                let action = #[trigger] action_at(Phase::Recording, events, k);
                !finalizes(action) && action != CaptureAction::Append
            },
{
    lemma_recording_continues(events.take(stop));
    assert forall|k: int| 0 <= k < stop implies !finalizes(
        #[trigger] action_at(Phase::Recording, events, k),
    ) by {
        lemma_writer_touched_only_while_recording(
            phase_after(Phase::Recording, events.take(k)),
            events[k],
        );
    }
    assert forall|k: int| stop < k < events.len() implies {
        let action = #[trigger] action_at(Phase::Recording, events, k);
        !finalizes(action) && action != CaptureAction::Append
    } by {
        let prefix = events.take(k);
        let tail = prefix.skip(stop + 1);
        lemma_phase_after_split(Phase::Recording, prefix, stop + 1);
        assert(prefix.take(stop + 1).drop_last() =~= events.take(stop));
        let closed = phase_after(Phase::Recording, prefix.take(stop + 1));
        lemma_closed_writer_stays_closed(closed, tail);
    }
}

/// Handling a trace is handling its first `mid` events and then the rest.
pub proof fn lemma_phase_after_split(phase: Phase, events: Seq<CaptureEvent>, mid: int)
    requires
        0 <= mid <= events.len(),
    ensures
        phase_after(phase, events) == phase_after(
            phase_after(phase, events.take(mid)),
            events.skip(mid),
        ),
    decreases events.len(),
{
    if mid == events.len() {
        assert(events.take(mid) =~= events);
    } else {
        lemma_phase_after_split(phase, events.drop_last(), mid);
        assert(events.drop_last().take(mid) =~= events.take(mid));
        assert(events.drop_last().skip(mid) =~= events.skip(mid).drop_last());
    }
}

} // verus!
