use binaural_beats::engine::{
    mix_frame, plan_buffer, silence_frame, FrameCommand, PhaseState, AMP_UNIT, OUT_UNIT,
};

/// The host layer's conversion of a sine amplitude in [-1, 1] to the
/// engine's integer scale.
fn quantize(amplitude: f64) -> i64 {
    (amplitude * AMP_UNIT as f64).round() as i64
}

/// The host layer's conversion of a mixed channel value back to a float
/// sample.
fn to_sample(mixed: i64) -> f64 {
    mixed as f64 / OUT_UNIT as f64
}

#[test]
fn fresh_state_renders_consecutive_indices() {
    let mut state = PhaseState::new();
    let plan = plan_buffer(&mut state, false, 512);
    assert_eq!(plan.len(), 512);
    for (i, command) in plan.iter().enumerate() {
        assert_eq!(
            *command,
            FrameCommand::Tone {
                left_index: i as u64,
                right_index: i as u64,
            }
        );
    }
    assert_eq!(state.left_index, 512);
    assert_eq!(state.right_index, 512);
}

#[test]
fn split_buffers_continue_where_the_last_ended() {
    // Rendering 100 frames in one buffer or in 30 + 70 gives the same
    // index sequence.
    let mut one = PhaseState::new();
    let whole = plan_buffer(&mut one, false, 100);

    let mut two = PhaseState::new();
    let mut split = plan_buffer(&mut two, false, 30);
    split.extend(plan_buffer(&mut two, false, 70));

    assert_eq!(whole, split);
    assert_eq!(one, two);
}

#[test]
fn cancelled_buffers_are_all_silence_and_keep_state() {
    let mut state = PhaseState::new();
    plan_buffer(&mut state, false, 10);
    let before = state;

    // Once the signal is up, every requested buffer is silence, however
    // many more are requested.
    for _ in 0..3 {
        let plan = plan_buffer(&mut state, true, 64);
        assert_eq!(plan.len(), 64);
        assert!(plan.iter().all(|c| *c == FrameCommand::Silence));
        assert_eq!(state, before);
    }
}

#[test]
fn silence_frame_is_all_zero() {
    assert_eq!(silence_frame(1), vec![0]);
    assert_eq!(silence_frame(2), vec![0, 0]);
    let wide = silence_frame(6);
    assert_eq!(wide.len(), 6);
    assert!(wide.iter().all(|v| *v == 0));
}

#[test]
fn first_rendered_sample_is_exactly_zero() {
    // The Alpha scenario: carrier 300 Hz, beat 10 Hz, 48 kHz, 2 channels.
    // Frame 0 carries phase index 0 for both ears, and sin(0) = 0, so the
    // written values are exactly zero.
    let mut state = PhaseState::new();
    let plan = plan_buffer(&mut state, false, 1);
    let FrameCommand::Tone { left_index, right_index } = plan[0] else {
        panic!("first frame is a tone");
    };
    let left_hz = 295.0_f64;
    let right_hz = 305.0_f64;
    let rate = 48000.0_f64;
    let left = quantize((2.0 * std::f64::consts::PI * left_hz * left_index as f64 / rate).sin());
    let right = quantize((2.0 * std::f64::consts::PI * right_hz * right_index as f64 / rate).sin());
    let frame = mix_frame(2, left, right);
    assert_eq!(frame, vec![0, 0]);
    assert_eq!(to_sample(frame[0]), 0.0);
    assert_eq!(to_sample(frame[1]), 0.0);
}

#[test]
fn rendered_sequence_tracks_the_sine_formula() {
    // Rendering N frames from a fresh state and pushing each tone through
    // the host conversions reproduces sin(2*pi*f*i/rate) at half
    // amplitude, within the integer quantization tolerance.
    let left_hz = 295.0_f64;
    let right_hz = 305.0_f64;
    let rate = 48000.0_f64;
    let n = 1000;

    let mut state = PhaseState::new();
    let plan = plan_buffer(&mut state, false, n);
    for (i, command) in plan.iter().enumerate() {
        let FrameCommand::Tone { left_index, right_index } = *command else {
            panic!("uncancelled frames are tones");
        };
        let left = quantize((2.0 * std::f64::consts::PI * left_hz * left_index as f64 / rate).sin());
        let right =
            quantize((2.0 * std::f64::consts::PI * right_hz * right_index as f64 / rate).sin());
        let frame = mix_frame(2, left, right);
        let expected_left = 0.5 * (2.0 * std::f64::consts::PI * left_hz * i as f64 / rate).sin();
        let expected_right = 0.5 * (2.0 * std::f64::consts::PI * right_hz * i as f64 / rate).sin();
        assert!((to_sample(frame[0]) - expected_left).abs() < 1e-6);
        assert!((to_sample(frame[1]) - expected_right).abs() < 1e-6);
    }
}

#[test]
fn mono_mix_is_quarter_of_the_sum() {
    // leftSample = 0.6, rightSample = 0.2 on a one-channel device:
    // the written sample is (0.6 + 0.2) * 0.25 = 0.2.
    let frame = mix_frame(1, quantize(0.6), quantize(0.2));
    assert_eq!(frame.len(), 1);
    assert_eq!(to_sample(frame[0]), 0.2);
}

#[test]
fn stereo_mix_halves_each_ear() {
    let frame = mix_frame(2, quantize(0.6), quantize(0.2));
    assert_eq!(to_sample(frame[0]), 0.3);
    assert_eq!(to_sample(frame[1]), 0.1);
}

#[test]
fn unusual_channel_counts_duplicate_the_mono_mix() {
    let frame = mix_frame(3, quantize(0.6), quantize(0.2));
    assert_eq!(frame.len(), 3);
    for value in frame {
        assert_eq!(to_sample(value), 0.2);
    }
}
