//! Playback parameters: the per-ear frequency calculation and its validation.
//!
//! The left ear receives `carrier - beat/2` and the right ear
//! `carrier + beat/2`. With the carrier and beat in centihertz, both ear
//! frequencies are exact in millihertz: half of one centihertz is five
//! millihertz. Validation rejects a non-positive ear frequency and a zero
//! duration before any device resource is acquired.

use vstd::prelude::*;
use crate::duration::ToMinutes;
use crate::frequency::ToFrequency;

verus! {

/// The ways a session can fail.
///
/// The first two are configuration errors, detected before any resource is
/// acquired; the remaining three are device errors reported by the host
/// audio layer.
#[derive(Debug, Clone, Copy, PartialEq, Eq, Structural)]
pub enum PlaybackError {
    /// A computed per-ear frequency was zero or negative.
    InvalidFrequency,
    /// The duration resolved to zero minutes.
    InvalidDuration,
    /// No audio output device is available on the host.
    NoOutputDevice,
    /// The device refused the requested stream configuration.
    StreamConfigurationRejected,
    /// An asynchronous error was reported by the audio subsystem after the
    /// stream had started.
    DeviceRuntimeError,
}

/// The left ear's frequency in millihertz: `carrier - beat/2`, exact.
pub open spec fn spec_left_millihz(carrier_centihz: u32, beat_centihz: u32) -> int {
    10 * carrier_centihz - 5 * beat_centihz
}

/// The right ear's frequency in millihertz: `carrier + beat/2`, exact.
pub open spec fn spec_right_millihz(carrier_centihz: u32, beat_centihz: u32) -> int {
    10 * carrier_centihz + 5 * beat_centihz
}

/// Validated, immutable settings for one playback session.
#[derive(Debug, Clone, Copy, PartialEq, Eq, Structural)]
pub struct PlaybackParameters {
    /// Carrier frequency in centihertz.
    pub carrier_centihz: u32,
    /// Beat frequency in centihertz.
    pub beat_centihz: u32,
    /// Session length in minutes.
    pub duration_minutes: u32,
}

impl PlaybackParameters {
    /// Both ear frequencies are positive and the duration is at least one
    /// minute. `validate_parameters` establishes this; nothing mutates a
    /// `PlaybackParameters` afterwards.
    pub open spec fn wf(self) -> bool {
        &&& spec_left_millihz(self.carrier_centihz, self.beat_centihz) > 0
        &&& spec_right_millihz(self.carrier_centihz, self.beat_centihz) > 0
        &&& self.duration_minutes >= 1
    }

    /// Returns the left ear's frequency in millihertz.
    pub fn left_millihz(&self) -> (r: i64)
        ensures
            r == spec_left_millihz(self.carrier_centihz, self.beat_centihz),
    {
        10 * (self.carrier_centihz as i64) - 5 * (self.beat_centihz as i64)
    }

    /// Returns the right ear's frequency in millihertz.
    pub fn right_millihz(&self) -> (r: i64)
        ensures
            r == spec_right_millihz(self.carrier_centihz, self.beat_centihz),
    {
        10 * (self.carrier_centihz as i64) + 5 * (self.beat_centihz as i64)
    }

    /// The session length in milliseconds.
    pub open spec fn spec_duration_ms(self) -> int {
        self.duration_minutes * 60000
    }

    /// Returns the session length in milliseconds.
    pub fn duration_ms(&self) -> (r: u64)
        ensures
            r == self.spec_duration_ms(),
    {
        (self.duration_minutes as u64) * 60000
    }
}

/// Checks a candidate parameter set and returns it as validated playback
/// parameters, or says exactly why it is rejected.
///
/// Frequency problems are reported before duration problems, and success
/// comes exactly when both ear frequencies are positive and the duration is
/// at least one minute.
pub fn validate_parameters(carrier_centihz: u32, beat_centihz: u32, duration_minutes: u32) -> (r:
    Result<PlaybackParameters, PlaybackError>)
    ensures
        r is Ok <==> (spec_left_millihz(carrier_centihz, beat_centihz) > 0
            && spec_right_millihz(carrier_centihz, beat_centihz) > 0 && duration_minutes >= 1),
        r == Err::<PlaybackParameters, PlaybackError>(PlaybackError::InvalidFrequency) <==> (
        spec_left_millihz(carrier_centihz, beat_centihz) <= 0 || spec_right_millihz(
            carrier_centihz,
            beat_centihz,
        ) <= 0),
        r == Err::<PlaybackParameters, PlaybackError>(PlaybackError::InvalidDuration) <==> (
        spec_left_millihz(carrier_centihz, beat_centihz) > 0 && spec_right_millihz(
            carrier_centihz,
            beat_centihz,
        ) > 0 && duration_minutes == 0),
        r is Ok ==> r->Ok_0 == (PlaybackParameters {
            carrier_centihz,
            beat_centihz,
            duration_minutes,
        }) && r->Ok_0.wf(),
{
    let left = 10 * (carrier_centihz as i64) - 5 * (beat_centihz as i64);
    let right = 10 * (carrier_centihz as i64) + 5 * (beat_centihz as i64);
    if left <= 0 || right <= 0 {
        Err(PlaybackError::InvalidFrequency)
    } else if duration_minutes == 0 {
        Err(PlaybackError::InvalidDuration)
    } else {
        Ok(PlaybackParameters { carrier_centihz, beat_centihz, duration_minutes })
    }
}

/// Resolves any carrier, beat and duration providers to validated playback
/// parameters, or says why they are rejected: the computing front half of a
/// session, performed before any device resource is acquired.
pub fn resolve_parameters<C: ToFrequency, B: ToFrequency, D: ToMinutes>(
    carrier: &C,
    beat: &B,
    duration: &D,
) -> (r: Result<PlaybackParameters, PlaybackError>)
    ensures
        r is Ok <==> (spec_left_millihz(carrier.spec_centihz(), beat.spec_centihz()) > 0
            && spec_right_millihz(carrier.spec_centihz(), beat.spec_centihz()) > 0
            && duration.spec_minutes() >= 1),
        r == Err::<PlaybackParameters, PlaybackError>(PlaybackError::InvalidFrequency) <==> (
        spec_left_millihz(carrier.spec_centihz(), beat.spec_centihz()) <= 0 || spec_right_millihz(
            carrier.spec_centihz(),
            beat.spec_centihz(),
        ) <= 0),
        r == Err::<PlaybackParameters, PlaybackError>(PlaybackError::InvalidDuration) <==> (
        spec_left_millihz(carrier.spec_centihz(), beat.spec_centihz()) > 0 && spec_right_millihz(
            carrier.spec_centihz(),
            beat.spec_centihz(),
        ) > 0 && duration.spec_minutes() == 0),
        r is Ok ==> r->Ok_0 == (PlaybackParameters {
            carrier_centihz: carrier.spec_centihz(),
            beat_centihz: beat.spec_centihz(),
            duration_minutes: duration.spec_minutes(),
        }) && r->Ok_0.wf(),
{
    validate_parameters(carrier.to_centihz(), beat.to_centihz(), duration.to_minutes())
}

/// For every pair with the carrier above half the beat, both derived ear
/// frequencies are positive.
pub proof fn lemma_valid_pair_gives_positive_ears(carrier_centihz: u32, beat_centihz: u32)
    requires
        2 * carrier_centihz > beat_centihz,
    ensures
        spec_left_millihz(carrier_centihz, beat_centihz) > 0,
        spec_right_millihz(carrier_centihz, beat_centihz) > 0,
{
}

/// For every pair with the carrier at or below half the beat, validation
/// fails with `InvalidFrequency`, whatever the duration.
pub proof fn lemma_low_carrier_is_invalid_frequency(carrier_centihz: u32, beat_centihz: u32)
    requires
        2 * carrier_centihz <= beat_centihz,
    ensures
        spec_left_millihz(carrier_centihz, beat_centihz) <= 0,
{
}

} // verus!
