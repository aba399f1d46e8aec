use binaural_beats::params::{validate_parameters, PlaybackError};

#[test]
fn valid_pairs_give_positive_ear_frequencies() {
    // carrier 300.00 Hz, beat 10.00 Hz: the Alpha scenario.
    let params = validate_parameters(30000, 1000, 30).expect("valid pair");
    assert_eq!(params.left_millihz(), 295_000); // 295.0 Hz
    assert_eq!(params.right_millihz(), 305_000); // 305.0 Hz

    // A carrier just above half the beat still passes.
    let tight = validate_parameters(501, 1000, 1).expect("carrier just above half the beat");
    assert_eq!(tight.left_millihz(), 10); // 0.01 Hz
    assert!(tight.right_millihz() > 0);
}

#[test]
fn low_carrier_fails_with_invalid_frequency() {
    // carrier 1.00 Hz, beat 10.00 Hz: left ear would be -4.0 Hz.
    let r = validate_parameters(100, 1000, 30);
    assert_eq!(r, Err(PlaybackError::InvalidFrequency));

    // carrier exactly half the beat: left ear would be 0 Hz.
    let r = validate_parameters(500, 1000, 30);
    assert_eq!(r, Err(PlaybackError::InvalidFrequency));

    // Zero carrier and zero beat: both ears at 0 Hz.
    let r = validate_parameters(0, 0, 30);
    assert_eq!(r, Err(PlaybackError::InvalidFrequency));
}

#[test]
fn zero_duration_fails_with_invalid_duration() {
    let r = validate_parameters(30000, 1000, 0);
    assert_eq!(r, Err(PlaybackError::InvalidDuration));

    // One minute is enough, given valid frequencies.
    assert!(validate_parameters(30000, 1000, 1).is_ok());
}

#[test]
fn frequency_problems_are_reported_before_duration_problems() {
    let r = validate_parameters(100, 1000, 0);
    assert_eq!(r, Err(PlaybackError::InvalidFrequency));
}

#[test]
fn duration_converts_to_milliseconds() {
    let params = validate_parameters(30000, 1000, 30).expect("valid pair");
    assert_eq!(params.duration_ms(), 30 * 60 * 1000);
}
