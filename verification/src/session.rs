//! The session controller's state machine and the cancellation listener.
//!
//! The controller is a step function from state and event to next state and
//! action; the host layer performs each action (validate, open the stream,
//! sleep and poll, tear down) and feeds the outcome back as the next event.
//! The listener raises the shared cancellation signal exactly once on the
//! first stop request.

use vstd::prelude::*;
use crate::params::PlaybackError;

verus! {

/// The controller polls the clock and the cancellation signal at most this
/// often, in milliseconds: near-zero idle cost, at most this much overrun.
pub const POLL_INTERVAL_MS: u64 = 500;

/// The states of one playback session. `Done` and `Failed` are terminal;
/// `Failed` is reachable only before the stream plays, from validation or
/// from stream acquisition.
#[derive(Debug, Clone, Copy, PartialEq, Eq, Structural)]
pub enum SessionState {
    /// Nothing has happened yet.
    Idle,
    /// The parameters are being checked.
    Validating,
    /// The output device is being opened and the stream built.
    StreamStarting,
    /// The stream is running; the controller polls for timeout or
    /// cancellation.
    Playing,
    /// Stop was decided; the stream is being torn down.
    Stopping,
    /// The stream was torn down; all session resources are released.
    Done,
    /// The session failed before playback, for this reason.
    Failed(PlaybackError),
}

/// What the session controller reacts to.
#[derive(Debug, Clone, Copy, PartialEq, Eq, Structural)]
pub enum SessionEvent {
    /// The caller invoked the session with resolved parameters.
    Invoke,
    /// Parameter validation passed.
    ValidationSucceeded,
    /// Parameter validation failed for this reason.
    ValidationFailed(PlaybackError),
    /// The output stream is confirmed started.
    StreamStarted,
    /// The device could not be opened or refused the configuration.
    StreamFailed(PlaybackError),
    /// One poll: the wall-clock time elapsed since playback began, and
    /// whether the cancellation signal has been observed.
    Tick {
        /// Milliseconds since the stream started playing.
        elapsed_ms: u64,
        /// Whether the cancellation signal was set.
        cancelled: bool,
    },
    /// The stream teardown finished.
    TearDownComplete,
}

/// What the host layer must do after a step.
#[derive(Debug, Clone, Copy, PartialEq, Eq, Structural)]
pub enum SessionAction {
    /// Check the parameters and report the outcome.
    Validate,
    /// Open the default output device and start the stream.
    OpenStream,
    /// Sleep at most `POLL_INTERVAL_MS`, then report a `Tick`.
    Poll,
    /// Stop and tear down the stream.
    StopStream,
    /// Release the session's resources: the session is over.
    Release,
    /// Report this failure to the caller: the session is over.
    Report(PlaybackError),
    /// Nothing: the event does not apply to the state.
    Ignore,
}

/// The transition relation of the session controller.
///
/// Playback stops at the first poll that sees the cancellation signal or a
/// wall-clock time at or past the configured duration, whichever comes
/// first. Events that do not apply to the current state change nothing.
pub open spec fn spec_session_step(
    s: SessionState,
    e: SessionEvent,
    duration_minutes: u32,
) -> (SessionState, SessionAction) {
    match (s, e) {
        (SessionState::Idle, SessionEvent::Invoke) => (
            SessionState::Validating,
            SessionAction::Validate,
        ),
        (SessionState::Validating, SessionEvent::ValidationSucceeded) => (
            SessionState::StreamStarting,
            SessionAction::OpenStream,
        ),
        (SessionState::Validating, SessionEvent::ValidationFailed(err)) => (
            SessionState::Failed(err),
            SessionAction::Report(err),
        ),
        (SessionState::StreamStarting, SessionEvent::StreamStarted) => (
            SessionState::Playing,
            SessionAction::Poll,
        ),
        (SessionState::StreamStarting, SessionEvent::StreamFailed(err)) => (
            SessionState::Failed(err),
            SessionAction::Report(err),
        ),
        (SessionState::Playing, SessionEvent::Tick { elapsed_ms, cancelled }) => if cancelled
            || elapsed_ms >= duration_minutes * 60000 {
            (SessionState::Stopping, SessionAction::StopStream)
        } else {
            (SessionState::Playing, SessionAction::Poll)
        },
        (SessionState::Stopping, SessionEvent::TearDownComplete) => (
            SessionState::Done,
            SessionAction::Release,
        ),
        _ => (s, SessionAction::Ignore),
    }
}

/// Performs one step of the session controller.
pub fn session_step(s: SessionState, e: SessionEvent, duration_minutes: u32) -> (r: (
    SessionState,
    SessionAction,
))
    ensures
        r == spec_session_step(s, e, duration_minutes),
{
    match (s, e) {
        (SessionState::Idle, SessionEvent::Invoke) => (
            SessionState::Validating,
            SessionAction::Validate,
        ),
        (SessionState::Validating, SessionEvent::ValidationSucceeded) => (
            SessionState::StreamStarting,
            SessionAction::OpenStream,
        ),
        (SessionState::Validating, SessionEvent::ValidationFailed(err)) => (
            SessionState::Failed(err),
            SessionAction::Report(err),
        ),
        (SessionState::StreamStarting, SessionEvent::StreamStarted) => (
            SessionState::Playing,
            SessionAction::Poll,
        ),
        (SessionState::StreamStarting, SessionEvent::StreamFailed(err)) => (
            SessionState::Failed(err),
            SessionAction::Report(err),
        ),
        (SessionState::Playing, SessionEvent::Tick { elapsed_ms, cancelled }) => {
            if cancelled || elapsed_ms >= (duration_minutes as u64) * 60000 {
                (SessionState::Stopping, SessionAction::StopStream)
            } else {
                (SessionState::Playing, SessionAction::Poll)
            }
        },
        (SessionState::Stopping, SessionEvent::TearDownComplete) => (
            SessionState::Done,
            SessionAction::Release,
        ),
        _ => (s, SessionAction::Ignore),
    }
}

/// The first poll that observes the cancellation signal stops playback,
/// however much of the configured duration is left.
pub proof fn lemma_cancellation_stops_playback(elapsed_ms: u64, duration_minutes: u32)
    ensures
        spec_session_step(
            SessionState::Playing,
            SessionEvent::Tick { elapsed_ms, cancelled: true },
            duration_minutes,
        ) == (SessionState::Stopping, SessionAction::StopStream),
{
}

/// The first poll at or past the configured duration stops playback even
/// without cancellation.
pub proof fn lemma_timeout_stops_playback(elapsed_ms: u64, duration_minutes: u32)
    requires
        elapsed_ms >= duration_minutes * 60000,
    ensures
        spec_session_step(
            SessionState::Playing,
            SessionEvent::Tick { elapsed_ms, cancelled: false },
            duration_minutes,
        ) == (SessionState::Stopping, SessionAction::StopStream),
{
}

/// Before both the cancellation signal and the timeout, a poll keeps
/// playing and schedules the next poll.
pub proof fn lemma_early_tick_keeps_playing(elapsed_ms: u64, duration_minutes: u32)
    requires
        elapsed_ms < duration_minutes * 60000,
    ensures
        spec_session_step(
            SessionState::Playing,
            SessionEvent::Tick { elapsed_ms, cancelled: false },
            duration_minutes,
        ) == (SessionState::Playing, SessionAction::Poll),
{
}

/// `Done` and `Failed` are terminal: no event moves the controller out of
/// them, within one invocation.
pub proof fn lemma_terminal_states_stay(s: SessionState, e: SessionEvent, duration_minutes: u32)
    requires
        s == SessionState::Done || s matches SessionState::Failed(_),
    ensures
        spec_session_step(s, e, duration_minutes).0 == s,
{
}

/// The cancellation signal's writer: watches an external stop trigger and
/// raises the signal exactly once, on the first trigger. Repeated triggers
/// after the first are no-ops, and the signal never falls back to false.
#[derive(Debug, Clone, Copy, PartialEq, Eq, Structural)]
pub struct CancellationListener {
    /// Whether the signal has been raised.
    pub raised: bool,
}

/// The signal after one observation: raised before, or triggered now.
pub open spec fn spec_observe_raised(raised: bool, stop_requested: bool) -> bool {
    raised || stop_requested
}

/// Whether one observation performs the raise: only a trigger seen while
/// the signal is still down.
pub open spec fn spec_observe_raises_now(raised: bool, stop_requested: bool) -> bool {
    stop_requested && !raised
}

impl CancellationListener {
    /// A fresh listener: the signal is down.
    pub fn new() -> (l: Self)
        ensures
            !l.raised,
    {
        CancellationListener { raised: false }
    }

    /// Observes one external event; `stop_requested` says whether it
    /// matches the configured stop trigger. Returns whether the shared
    /// signal must be raised now: true at most once over the listener's
    /// lifetime, and only for a stop request.
    pub fn observe(&mut self, stop_requested: bool) -> (raise_now: bool)
        ensures
            final(self).raised == spec_observe_raised(old(self).raised, stop_requested),
            raise_now == spec_observe_raises_now(old(self).raised, stop_requested),
            old(self).raised ==> final(self).raised,
    {
        let raise_now = stop_requested && !self.raised;
        if stop_requested {
            self.raised = true;
        }
        raise_now
    }
}

/// Raising is idempotent: after any observation that leaves the signal up,
/// no later observation raises it again.
pub proof fn lemma_signal_raised_at_most_once(raised: bool, first: bool, second: bool)
    requires
        spec_observe_raised(raised, first),
    ensures
        !spec_observe_raises_now(spec_observe_raised(raised, first), second),
{
}

/// The signal is monotone: once up, every later observation keeps it up.
pub proof fn lemma_signal_is_monotone(raised: bool, stop_requested: bool)
    requires
        raised,
    ensures
        spec_observe_raised(raised, stop_requested),
{
}

} // verus!
