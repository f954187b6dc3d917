use flower_care::error::FlowerError;
use flower_care::frame::SensorReading;
use flower_care::gatt::{
    resolve_characteristics, CharacteristicRegistry, CharacteristicRole, MODE_CONTROL_UUID,
    REAL_TIME_DATA_UUID, VERSION_BATTERY_UUID,
};
use flower_care::session::{SessionAction, SessionEvent, SessionPhase, StreamSession};

fn registry() -> CharacteristicRegistry {
    CharacteristicRegistry { version_battery: 0, real_time_data: 1, mode_control: 2 }
}

fn streaming_session() -> StreamSession {
    let mut s = StreamSession::new();
    assert_eq!(s.step(SessionEvent::Start(Ok(registry()))), SessionAction::WriteMode(2));
    assert_eq!(s.phase, SessionPhase::SwitchingMode(registry()));
    assert_eq!(s.step(SessionEvent::ModeWritten(true)), SessionAction::Subscribe(1));
    assert_eq!(s.step(SessionEvent::Subscribed(true)), SessionAction::AwaitFrame);
    assert_eq!(s.phase, SessionPhase::Streaming);
    s
}

#[test]
fn delivers_decoded_frames() {
    let mut s = streaming_session();
    let a = s.step(SessionEvent::Frame {
        source: REAL_TIME_DATA_UUID,
        data: vec![200, 0, 0, 150, 0, 0, 0, 45, 88, 1],
    });
    assert_eq!(
        a,
        SessionAction::Deliver(SensorReading {
            temperature_decicelsius: 200,
            illuminance_lux: 150,
            moisture_percent: 45,
            conductivity_microsiemens_cm: 344,
        })
    );
    assert_eq!(s.phase, SessionPhase::Streaming);
}

#[test]
fn frames_from_other_characteristics_are_reported() {
    let mut s = streaming_session();
    let a = s.step(SessionEvent::Frame { source: VERSION_BATTERY_UUID, data: vec![0; 10] });
    assert_eq!(a, SessionAction::ReportUnrecognized);
    assert_eq!(s.phase, SessionPhase::Streaming);
}

#[test]
fn malformed_frame_does_not_end_stream() {
    let mut s = streaming_session();
    let a = s.step(SessionEvent::Frame { source: REAL_TIME_DATA_UUID, data: vec![1, 2, 3] });
    assert_eq!(a, SessionAction::ReportMalformed);
    assert_eq!(s.phase, SessionPhase::Streaming);
    let b = s.step(SessionEvent::Frame { source: REAL_TIME_DATA_UUID, data: vec![0; 10] });
    assert!(matches!(b, SessionAction::Deliver(_)));
}

#[test]
fn cancel_disconnects_exactly_once() {
    let mut s = streaming_session();
    let mut disconnects = 0;
    let events = vec![
        SessionEvent::Cancelled,
        SessionEvent::Cancelled,
        SessionEvent::StreamEnded,
        SessionEvent::Frame { source: REAL_TIME_DATA_UUID, data: vec![0; 10] },
        SessionEvent::Disconnected(true),
        SessionEvent::Cancelled,
        SessionEvent::Disconnected(false),
    ];
    let mut last = SessionAction::Ignore;
    for e in events {
        let a = s.step(e);
        if a == SessionAction::Disconnect {
            disconnects += 1;
        }
        if a != SessionAction::Ignore {
            last = a;
        }
    }
    assert_eq!(disconnects, 1);
    assert_eq!(last, SessionAction::Finished);
    assert_eq!(s.phase, SessionPhase::Closed);
}

#[test]
fn cancel_before_start_disconnects() {
    let mut s = StreamSession::new();
    assert_eq!(s.step(SessionEvent::Cancelled), SessionAction::Disconnect);
    assert_eq!(s.step(SessionEvent::Start(Ok(registry()))), SessionAction::Ignore);
    assert_eq!(s.step(SessionEvent::Disconnected(true)), SessionAction::Finished);
}

#[test]
fn stream_end_disconnects() {
    let mut s = streaming_session();
    assert_eq!(s.step(SessionEvent::StreamEnded), SessionAction::Disconnect);
    assert_eq!(s.step(SessionEvent::Cancelled), SessionAction::Ignore);
    assert_eq!(
        s.step(SessionEvent::Disconnected(false)),
        SessionAction::Failed(FlowerError::DisconnectError)
    );
}

#[test]
fn mode_switch_failure_tears_down() {
    let mut s = StreamSession::new();
    s.step(SessionEvent::Start(Ok(registry())));
    assert_eq!(s.step(SessionEvent::ModeWritten(false)), SessionAction::Disconnect);
    assert_eq!(
        s.step(SessionEvent::Disconnected(true)),
        SessionAction::Failed(FlowerError::ModeSwitchError)
    );
}

#[test]
fn subscription_failure_tears_down() {
    let mut s = StreamSession::new();
    s.step(SessionEvent::Start(Ok(registry())));
    s.step(SessionEvent::ModeWritten(true));
    assert_eq!(s.step(SessionEvent::Subscribed(false)), SessionAction::Disconnect);
    assert_eq!(
        s.step(SessionEvent::Disconnected(false)),
        SessionAction::Failed(FlowerError::SubscriptionError)
    );
}

#[test]
fn frames_before_subscription_are_ignored() {
    let mut s = StreamSession::new();
    s.step(SessionEvent::Start(Ok(registry())));
    let a = s.step(SessionEvent::Frame { source: REAL_TIME_DATA_UUID, data: vec![0; 10] });
    assert_eq!(a, SessionAction::Ignore);
    assert_eq!(s.phase, SessionPhase::SwitchingMode(registry()));
}

#[test]
fn missing_mode_control_fails_stream_without_writing() {
    let uuids = vec![VERSION_BATTERY_UUID, REAL_TIME_DATA_UUID];
    let mut s = StreamSession::new();
    assert_eq!(
        s.step(SessionEvent::Start(resolve_characteristics(&uuids))),
        SessionAction::Disconnect
    );
    assert_eq!(s.step(SessionEvent::ModeWritten(true)), SessionAction::Ignore);
    assert_eq!(
        s.step(SessionEvent::Disconnected(true)),
        SessionAction::Failed(FlowerError::CharacteristicNotFound(CharacteristicRole::ModeControl))
    );
    assert_eq!(s.phase, SessionPhase::Closed);
}

#[test]
fn resolved_handles_reach_write_and_subscribe() {
    let uuids = vec![REAL_TIME_DATA_UUID, VERSION_BATTERY_UUID, MODE_CONTROL_UUID];
    let mut s = StreamSession::new();
    assert_eq!(
        s.step(SessionEvent::Start(resolve_characteristics(&uuids))),
        SessionAction::WriteMode(2)
    );
    assert_eq!(s.step(SessionEvent::ModeWritten(true)), SessionAction::Subscribe(0));
}
