use vstd::prelude::*;

use crate::error::FlowerError;
use crate::frame::{decode_frame, decode_spec, SensorReading};
use crate::gatt::{
    is_real_time_source, resolve_spec, CharacteristicRegistry, CharacteristicRole,
    MODE_CONTROL_UUID, REAL_TIME_DATA_UUID,
};

verus! {

/// Where a streaming session stands.
#[derive(Clone, Copy, Debug, PartialEq, Eq, Structural)]
pub enum SessionPhase {
    /// Connected; streaming not started.
    Idle,
    /// The mode-switch command is being written; the registry says which
    /// characteristic to subscribe to next.
    SwitchingMode(CharacteristicRegistry),
    /// Notifications on the real-time characteristic are being enabled.
    Subscribing,
    /// Frames are being received.
    Streaming,
    /// The link is being torn down.
    TearingDown,
    /// The link is down; the session is over.
    Closed,
}

/// What the transport or the caller reports to the session.
#[derive(Debug)]
pub enum SessionEvent {
    /// The caller asks for real-time streaming, handing over what resolving
    /// the connection's characteristics gave.
    Start(Result<CharacteristicRegistry, FlowerError>),
    /// The acknowledged write of the mode-switch command finished.
    ModeWritten(bool),
    /// The subscription request finished.
    Subscribed(bool),
    /// A notification arrived from the characteristic `source`.
    Frame { source: u128, data: Vec<u8> },
    /// The notification stream ended.
    StreamEnded,
    /// The caller cancelled the session.
    Cancelled,
    /// The link teardown finished.
    Disconnected(bool),
}

/// What the caller must do in answer to an event.
#[derive(Clone, Copy, Debug, PartialEq, Eq, Structural)]
pub enum SessionAction {
    /// Write the mode-switch command, with acknowledgement, to the
    /// discovered characteristic at this position.
    WriteMode(usize),
    /// Enable notifications on the discovered characteristic at this
    /// position.
    Subscribe(usize),
    /// Wait for the next notification.
    AwaitFrame,
    /// Hand a decoded reading to the consumer, then wait for the next one.
    Deliver(SensorReading),
    /// A frame from another characteristic arrived; it is not decoded.
    ReportUnrecognized,
    /// A real-time frame too short to decode arrived; it is dropped.
    ReportMalformed,
    /// Tear the link down and report `Disconnected`.
    Disconnect,
    /// The session is over and ended cleanly.
    Finished,
    /// The session is over; this is why it failed.
    Failed(FlowerError),
    /// The event does not apply in the current phase; nothing to do.
    Ignore,
}

/// A streaming session's decisions. `failure` remembers why the session is
/// being torn down when a step failed.
#[derive(Clone, Copy, Debug, PartialEq, Eq, Structural)]
pub struct StreamSession {
    pub phase: SessionPhase,
    pub failure: Option<FlowerError>,
}

pub open spec fn new_session_spec() -> StreamSession {
    StreamSession { phase: SessionPhase::Idle, failure: None }
}

/// The session has asked for the link to be torn down.
pub open spec fn torn_down(s: StreamSession) -> bool {
    s.phase is TearingDown || s.phase is Closed
}

/// Starting the teardown, remembering `failure`.
pub open spec fn teardown_spec(failure: Option<FlowerError>) -> (StreamSession, SessionAction) {
    (StreamSession { phase: SessionPhase::TearingDown, failure }, SessionAction::Disconnect)
}

/// The action that reports the end of the session once the link is down.
pub open spec fn finish_spec(failure: Option<FlowerError>, disconnected: bool) -> SessionAction {
    match failure {
        Some(f) => SessionAction::Failed(f),
        None => if disconnected {
            SessionAction::Finished
        } else {
            SessionAction::Failed(FlowerError::DisconnectError)
        },
    }
}

/// The action for a notification while streaming.
pub open spec fn frame_action_spec(source: u128, data: Seq<u8>) -> SessionAction {
    if source != REAL_TIME_DATA_UUID {
        SessionAction::ReportUnrecognized
    } else {
        match decode_spec(data) {
            Ok(r) => SessionAction::Deliver(r),
            Err(_) => SessionAction::ReportMalformed,
        }
    }
}

/// The state after `e`, and what the caller must do.
pub open spec fn step_spec(s: StreamSession, e: SessionEvent) -> (StreamSession, SessionAction) {
    if torn_down(s) {
        match (s.phase, e) {
            (SessionPhase::TearingDown, SessionEvent::Disconnected(ok)) => (
                StreamSession { phase: SessionPhase::Closed, ..s },
                finish_spec(s.failure, ok),
            ),
            _ => (s, SessionAction::Ignore),
        }
    } else {
        match (s.phase, e) {
            (_, SessionEvent::Cancelled) => teardown_spec(s.failure),
            (SessionPhase::Idle, SessionEvent::Start(resolved)) => match resolved {
                Ok(reg) => (
                    StreamSession { phase: SessionPhase::SwitchingMode(reg), ..s },
                    SessionAction::WriteMode(reg.mode_control),
                ),
                Err(e) => teardown_spec(Some(e)),
            },
            (SessionPhase::SwitchingMode(reg), SessionEvent::ModeWritten(ok)) => if ok {
                (
                    StreamSession { phase: SessionPhase::Subscribing, ..s },
                    SessionAction::Subscribe(reg.real_time_data),
                )
            } else {
                teardown_spec(Some(FlowerError::ModeSwitchError))
            },
            (SessionPhase::Subscribing, SessionEvent::Subscribed(ok)) => if ok {
                (StreamSession { phase: SessionPhase::Streaming, ..s }, SessionAction::AwaitFrame)
            } else {
                teardown_spec(Some(FlowerError::SubscriptionError))
            },
            (SessionPhase::Streaming, SessionEvent::Frame { source, data }) => (
                s,
                frame_action_spec(source, data@),
            ),
            (SessionPhase::Streaming, SessionEvent::StreamEnded) => teardown_spec(s.failure),
            _ => (s, SessionAction::Ignore),
        }
    }
}

impl StreamSession {
    /// A session on a freshly connected device.
    pub fn new() -> (r: StreamSession)
        ensures
            r == new_session_spec(),
    {
        StreamSession { phase: SessionPhase::Idle, failure: None }
    }

    fn teardown(&mut self, failure: Option<FlowerError>) -> (r: SessionAction)
        ensures
            (*final(self), r) == teardown_spec(failure),
    {
        self.phase = SessionPhase::TearingDown;
        self.failure = failure;
        SessionAction::Disconnect
    }

    /// Takes in one event and says what to do about it. Every way out of
    /// the session, whether the stream ends, a step fails or the caller
    /// cancels, goes through exactly one `Disconnect`.
    pub fn step(&mut self, e: SessionEvent) -> (r: SessionAction)
        ensures
            (*final(self), r) == step_spec(*old(self), e),
    {
        match (self.phase, e) {
            (SessionPhase::TearingDown, SessionEvent::Disconnected(ok)) => {
                self.phase = SessionPhase::Closed;
                match self.failure {
                    Some(f) => SessionAction::Failed(f),
                    None => if ok {
                        SessionAction::Finished
                    } else {
                        SessionAction::Failed(FlowerError::DisconnectError)
                    },
                }
            },
            (SessionPhase::TearingDown, _) => SessionAction::Ignore,
            (SessionPhase::Closed, _) => SessionAction::Ignore,
            (_, SessionEvent::Cancelled) => self.teardown(self.failure),
            (SessionPhase::Idle, SessionEvent::Start(resolved)) => match resolved {
                Ok(reg) => {
                    self.phase = SessionPhase::SwitchingMode(reg);
                    SessionAction::WriteMode(reg.mode_control)
                },
                Err(e) => self.teardown(Some(e)),
            },
            (SessionPhase::SwitchingMode(reg), SessionEvent::ModeWritten(ok)) => {
                if ok {
                    self.phase = SessionPhase::Subscribing;
                    SessionAction::Subscribe(reg.real_time_data)
                } else {
                    self.teardown(Some(FlowerError::ModeSwitchError))
                }
            },
            (SessionPhase::Subscribing, SessionEvent::Subscribed(ok)) => {
                if ok {
                    self.phase = SessionPhase::Streaming;
                    SessionAction::AwaitFrame
                } else {
                    self.teardown(Some(FlowerError::SubscriptionError))
                }
            },
            (SessionPhase::Streaming, SessionEvent::Frame { source, data }) => {
                if !is_real_time_source(source) {
                    SessionAction::ReportUnrecognized
                } else {
                    match decode_frame(data.as_slice()) {
                        Ok(r) => SessionAction::Deliver(r),
                        Err(_) => SessionAction::ReportMalformed,
                    }
                }
            },
            (SessionPhase::Streaming, SessionEvent::StreamEnded) => self.teardown(self.failure),
            _ => SessionAction::Ignore,
        }
    }
}

/// Feeds `events` to the session in order. Gives the final state and the
/// number of `Disconnect` actions asked for.
pub open spec fn run_session(s: StreamSession, events: Seq<SessionEvent>) -> (StreamSession, nat)
    decreases events.len(),
{
    if events.len() == 0 {
        (s, 0)
    } else {
        let (s1, a) = step_spec(s, events[0]);
        let r = run_session(s1, events.drop_first());
        (r.0, r.1 + if a is Disconnect {
            1nat
        } else {
            0nat
        })
    }
}

proof fn lemma_run_disconnects(s: StreamSession, events: Seq<SessionEvent>)
    ensures
        torn_down(s) ==> torn_down(run_session(s, events).0),
        run_session(s, events).1 == if torn_down(run_session(s, events).0) && !torn_down(s) {
            1nat
        } else {
            0nat
        },
        (exists|i: int| 0 <= i < events.len() && #[trigger] events[i] is Cancelled) ==> torn_down(
            run_session(s, events).0,
        ),
    decreases events.len(),
{
    if events.len() > 0 {
        let (s1, a) = step_spec(s, events[0]);
        let rest = events.drop_first();
        lemma_run_disconnects(s1, rest);
        assert(a is Disconnect <==> (torn_down(s1) && !torn_down(s)));
        if exists|i: int| 0 <= i < events.len() && #[trigger] events[i] is Cancelled {
            let i = choose|i: int| 0 <= i < events.len() && #[trigger] events[i] is Cancelled;
            if i > 0 {
                assert(rest[i - 1] is Cancelled);
            }
        }
    }
}

/// However the events of a session go, the link is asked to be torn down at
/// most once.
pub proof fn lemma_disconnect_at_most_once(events: Seq<SessionEvent>)
    ensures
        run_session(new_session_spec(), events).1 <= 1,
{
    lemma_run_disconnects(new_session_spec(), events);
}

/// A session in which the caller cancels, at any point, asks for the link to
/// be torn down exactly once, and no later event asks again.
pub proof fn lemma_cancel_disconnects_once(events: Seq<SessionEvent>, i: int)
    requires
        0 <= i < events.len(),
        events[i] is Cancelled,
    ensures
        torn_down(run_session(new_session_spec(), events).0),
        run_session(new_session_spec(), events).1 == 1,
{
    lemma_run_disconnects(new_session_spec(), events);
}

/// Once the link is being torn down, no event leads to a write, a
/// subscription, a reading or a second teardown: only the end of the
/// session is reported.
pub proof fn lemma_torn_down_is_final(s: StreamSession, e: SessionEvent)
    requires
        torn_down(s),
    ensures
        torn_down(step_spec(s, e).0),
        step_spec(s, e).1 is Ignore || step_spec(s, e).1 is Finished || step_spec(
            s,
            e,
        ).1 is Failed,
{
}

/// Streaming on a connection whose services lack the mode-control
/// characteristic writes nothing: the session tears the link down at once
/// and ends with `CharacteristicNotFound(ModeControl)`.
pub proof fn lemma_stream_without_mode_control_fails(uuids: Seq<u128>, disconnected: bool)
    requires
        !uuids.contains(MODE_CONTROL_UUID),
    ensures
        ({
            let (s1, a1) = step_spec(new_session_spec(), SessionEvent::Start(resolve_spec(uuids)));
            &&& a1 == SessionAction::Disconnect
            &&& torn_down(s1)
            &&& step_spec(s1, SessionEvent::Disconnected(disconnected)).1 == SessionAction::Failed(
                FlowerError::CharacteristicNotFound(CharacteristicRole::ModeControl),
            )
        }),
{
}

} // verus!
