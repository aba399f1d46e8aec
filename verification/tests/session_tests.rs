use binaural_beats::params::PlaybackError;
use binaural_beats::session::{
    session_step, CancellationListener, SessionAction, SessionEvent, SessionState,
    POLL_INTERVAL_MS,
};

#[test]
fn happy_path_reaches_done() {
    let (s, a) = session_step(SessionState::Idle, SessionEvent::Invoke, 30);
    assert_eq!((s, a), (SessionState::Validating, SessionAction::Validate));

    let (s, a) = session_step(s, SessionEvent::ValidationSucceeded, 30);
    assert_eq!((s, a), (SessionState::StreamStarting, SessionAction::OpenStream));

    let (s, a) = session_step(s, SessionEvent::StreamStarted, 30);
    assert_eq!((s, a), (SessionState::Playing, SessionAction::Poll));

    // 30 minutes elapse, poll by poll; the first tick at the limit stops.
    let (s, a) = session_step(
        s,
        SessionEvent::Tick { elapsed_ms: 30 * 60 * 1000, cancelled: false },
        30,
    );
    assert_eq!((s, a), (SessionState::Stopping, SessionAction::StopStream));

    let (s, a) = session_step(s, SessionEvent::TearDownComplete, 30);
    assert_eq!((s, a), (SessionState::Done, SessionAction::Release));
}

#[test]
fn cancellation_at_five_seconds_stops_a_thirty_minute_session() {
    // durationMinutes = 30, cancellation observed at t = 5 s: the very
    // next poll tears the stream down instead of waiting half an hour.
    let playing = SessionState::Playing;
    let (s, a) = session_step(
        playing,
        SessionEvent::Tick { elapsed_ms: 5000, cancelled: true },
        30,
    );
    assert_eq!((s, a), (SessionState::Stopping, SessionAction::StopStream));

    let (s, a) = session_step(s, SessionEvent::TearDownComplete, 30);
    assert_eq!((s, a), (SessionState::Done, SessionAction::Release));

    // The poll interval bounds how late that next poll can be.
    assert!(POLL_INTERVAL_MS <= 500);
}

#[test]
fn early_ticks_keep_playing() {
    let (s, a) = session_step(
        SessionState::Playing,
        SessionEvent::Tick { elapsed_ms: 5000, cancelled: false },
        30,
    );
    assert_eq!((s, a), (SessionState::Playing, SessionAction::Poll));
}

#[test]
fn validation_failure_is_terminal_and_reported() {
    let (s, a) = session_step(
        SessionState::Validating,
        SessionEvent::ValidationFailed(PlaybackError::InvalidFrequency),
        30,
    );
    assert_eq!(s, SessionState::Failed(PlaybackError::InvalidFrequency));
    assert_eq!(a, SessionAction::Report(PlaybackError::InvalidFrequency));

    // No event moves the controller out of Failed.
    let (s2, a2) = session_step(s, SessionEvent::Invoke, 30);
    assert_eq!(s2, s);
    assert_eq!(a2, SessionAction::Ignore);
}

#[test]
fn device_failures_fail_the_session() {
    let (s, a) = session_step(
        SessionState::StreamStarting,
        SessionEvent::StreamFailed(PlaybackError::NoOutputDevice),
        30,
    );
    assert_eq!(s, SessionState::Failed(PlaybackError::NoOutputDevice));
    assert_eq!(a, SessionAction::Report(PlaybackError::NoOutputDevice));

    let (s, a) = session_step(
        SessionState::StreamStarting,
        SessionEvent::StreamFailed(PlaybackError::StreamConfigurationRejected),
        30,
    );
    assert_eq!(s, SessionState::Failed(PlaybackError::StreamConfigurationRejected));
    assert_eq!(a, SessionAction::Report(PlaybackError::StreamConfigurationRejected));
}

#[test]
fn done_is_terminal() {
    let (s, a) = session_step(SessionState::Done, SessionEvent::Invoke, 30);
    assert_eq!((s, a), (SessionState::Done, SessionAction::Ignore));
}

#[test]
fn listener_raises_the_signal_exactly_once() {
    let mut listener = CancellationListener::new();
    assert!(!listener.raised);

    // Events that are not the stop trigger change nothing.
    assert!(!listener.observe(false));
    assert!(!listener.raised);

    // The first stop request performs the raise.
    assert!(listener.observe(true));
    assert!(listener.raised);

    // Every later trigger is a no-op, and the signal never falls back.
    assert!(!listener.observe(true));
    assert!(!listener.observe(false));
    assert!(!listener.observe(true));
    assert!(listener.raised);
}
