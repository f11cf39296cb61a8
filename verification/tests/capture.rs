use voice_pipeline::capture::{
    step, usable, CaptureAction, CaptureEvent, CaptureSession, DeviceConfig, Phase,
};
use voice_pipeline::wav::decode;
use voice_pipeline::error::PipelineError;
use voice_pipeline::wav::{SampleKind, WavHeader, WriterHandle};

fn run(start: Phase, events: &[CaptureEvent]) -> (Phase, Vec<CaptureAction>) {
    let mut phase = start;
    let mut actions = Vec::new();
    for e in events {
        let (next, action) = step(phase, *e);
        phase = next;
        actions.push(action);
    }
    (phase, actions)
}

#[test]
fn a_session_walks_through_all_phases() {
    let config = DeviceConfig { channels: 1, sample_rate: 48000 };
    let (phase, actions) = run(
        Phase::Idle,
        &[
            CaptureEvent::Start,
            CaptureEvent::Configured(config),
            CaptureEvent::Frame,
            CaptureEvent::Frame,
            CaptureEvent::Stop,
            CaptureEvent::WriterClosed,
        ],
    );
    assert_eq!(phase, Phase::Idle);
    assert_eq!(
        actions,
        vec![
            CaptureAction::Negotiate,
            CaptureAction::Open(WavHeader {
                channels: 1,
                sample_rate: 48000,
                bits_per_sample: 16,
                sample_kind: SampleKind::Int,
            }),
            CaptureAction::Append,
            CaptureAction::Append,
            CaptureAction::Finalize,
            CaptureAction::Ignore,
        ]
    );
}

#[test]
fn a_missing_or_unusable_device_fails_the_session() {
    assert_eq!(
        step(Phase::Negotiating, CaptureEvent::Unavailable),
        (Phase::Idle, CaptureAction::Fail(PipelineError::Device))
    );
    let silent = DeviceConfig { channels: 0, sample_rate: 48000 };
    assert_eq!(
        step(Phase::Negotiating, CaptureEvent::Configured(silent)),
        (Phase::Idle, CaptureAction::Fail(PipelineError::Device))
    );
    let still = DeviceConfig { channels: 2, sample_rate: 0 };
    assert_eq!(
        step(Phase::Negotiating, CaptureEvent::Configured(still)),
        (Phase::Idle, CaptureAction::Fail(PipelineError::Device))
    );
    assert!(!usable(&silent));
    assert!(!usable(&still));
    assert!(usable(&DeviceConfig { channels: 2, sample_rate: 44100 }));
    assert!(!usable(&DeviceConfig { channels: 2, sample_rate: 2_000_000_000 }));
}

#[test]
fn the_deadline_finalizes_once_and_later_frames_are_dropped() {
    let mut writer = WriterHandle::create(1, 16000).expect("writable format");
    let mut finalized = 0;
    let mut phase = Phase::Recording;
    let events = [
        CaptureEvent::Frame,
        CaptureEvent::Frame,
        CaptureEvent::Frame,
        CaptureEvent::Deadline,
        CaptureEvent::Frame,
        CaptureEvent::Stop,
        CaptureEvent::Frame,
        CaptureEvent::Deadline,
        CaptureEvent::StreamFault,
        CaptureEvent::WriterClosed,
        CaptureEvent::Frame,
        CaptureEvent::Stop,
    ];
    for e in events {
        let (next, action) = step(phase, e);
        phase = next;
        match action {
            CaptureAction::Append => assert_eq!(writer.write_sample(1), Ok(())),
            CaptureAction::Finalize | CaptureAction::ReportAndFinalize => {
                assert!(writer.finalize().is_ok());
                finalized += 1;
            }
            _ => {}
        }
    }
    assert_eq!(finalized, 1);
    assert_eq!(writer.len(), 3);
    assert_eq!(phase, Phase::Idle);
}

#[test]
fn a_stream_fault_is_reported_and_finalizes() {
    assert_eq!(
        step(Phase::Recording, CaptureEvent::StreamFault),
        (Phase::Finalizing, CaptureAction::ReportAndFinalize)
    );
    assert_eq!(
        step(Phase::Finalizing, CaptureEvent::StreamFault),
        (Phase::Finalizing, CaptureAction::Ignore)
    );
}

#[test]
fn events_out_of_place_are_ignored() {
    assert_eq!(step(Phase::Idle, CaptureEvent::Frame), (Phase::Idle, CaptureAction::Ignore));
    assert_eq!(step(Phase::Idle, CaptureEvent::Stop), (Phase::Idle, CaptureAction::Ignore));
    assert_eq!(
        step(Phase::Negotiating, CaptureEvent::Frame),
        (Phase::Negotiating, CaptureAction::Ignore)
    );
    assert_eq!(step(Phase::Negotiating, CaptureEvent::Stop), (Phase::Idle, CaptureAction::Ignore));
    assert_eq!(
        step(Phase::Recording, CaptureEvent::Start),
        (Phase::Recording, CaptureAction::Ignore)
    );
    assert_eq!(
        step(Phase::Recording, CaptureEvent::Configured(DeviceConfig { channels: 1, sample_rate: 8000 })),
        (Phase::Recording, CaptureAction::Ignore)
    );
}

#[test]
fn a_streaming_device_is_cut_off_at_the_deadline() {
    let mut session =
        CaptureSession::open(DeviceConfig { channels: 1, sample_rate: 16000 }).expect("usable");
    assert_eq!(session.current_phase(), Phase::Recording);
    let mut containers = Vec::new();
    let mut finalized = 0;
    for tick in 0..20i16 {
        let event = if tick == 12 { CaptureEvent::Deadline } else { CaptureEvent::Frame };
        let (action, container) = session.handle(event, &vec![tick, -tick]);
        if tick < 12 {
            assert_eq!(action, CaptureAction::Append);
        } else if tick == 12 {
            assert_eq!(action, CaptureAction::Finalize);
        } else {
            assert_eq!(action, CaptureAction::Ignore);
        }
        if matches!(action, CaptureAction::Finalize | CaptureAction::ReportAndFinalize) {
            finalized += 1;
        }
        if let Some(c) = container {
            containers.push(c);
        }
    }
    let (action, container) = session.handle(CaptureEvent::Stop, &Vec::new());
    assert_eq!(action, CaptureAction::Ignore);
    assert!(container.is_none());
    assert_eq!(finalized, 1);
    assert_eq!(containers.len(), 1);
    assert_eq!(session.recorded_len(), 24);
    assert_eq!(session.current_phase(), Phase::Finalizing);
    let bytes = containers.pop().expect("one container").expect("written");
    let buffer = decode(&bytes, Some(16000)).expect("readable");
    let mut expected: Vec<i16> = Vec::new();
    for tick in 0..12i16 {
        expected.push(tick);
        expected.push(-tick);
    }
    assert_eq!(buffer.samples, expected);
}

#[test]
fn a_released_session_ignores_everything() {
    let mut session =
        CaptureSession::open(DeviceConfig { channels: 2, sample_rate: 44100 }).expect("usable");
    let (action, container) = session.handle(CaptureEvent::StreamFault, &Vec::new());
    assert_eq!(action, CaptureAction::ReportAndFinalize);
    assert!(matches!(container, Some(Ok(_))));
    let (action, _) = session.handle(CaptureEvent::WriterClosed, &Vec::new());
    assert_eq!(action, CaptureAction::Ignore);
    assert_eq!(session.current_phase(), Phase::Idle);
    for event in [CaptureEvent::Start, CaptureEvent::Frame, CaptureEvent::Stop] {
        let (action, container) = session.handle(event, &vec![1, 2]);
        assert_eq!(action, CaptureAction::Ignore);
        assert!(container.is_none());
        assert_eq!(session.current_phase(), Phase::Idle);
    }
    assert_eq!(session.recorded_len(), 0);
}

#[test]
fn an_unusable_configuration_opens_no_session() {
    assert_eq!(
        CaptureSession::open(DeviceConfig { channels: 0, sample_rate: 16000 }).err(),
        Some(PipelineError::Device)
    );
    assert_eq!(
        CaptureSession::open(DeviceConfig { channels: 1, sample_rate: 0 }).err(),
        Some(PipelineError::Device)
    );
}
