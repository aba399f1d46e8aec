//! The audio callback engine: phase accumulation, the silence-on-cancel
//! rule, and the channel mix.
//!
//! Once per device-requested buffer the host audio layer asks for a plan:
//! one command per frame, either silence or a tone at the next pair of phase
//! indices. The instantaneous sample for a tone frame is
//! `sin(2*pi*f*index/sampleRate)`; evaluating that sine is floating-point
//! work done by the host layer, which hands the resulting amplitudes back as
//! integer fractions of full scale (`AMP_UNIT` parts per unit) for the mix.
//! The mix is stated in quarter units (`OUT_UNIT` parts per unit), so the
//! half and quarter channel gains are exact integer arithmetic.

use vstd::prelude::*;

verus! {

/// One full-scale amplitude unit, as handed in by the host audio layer: a
/// sample amplitude `a` in [-1, 1] arrives as `a * AMP_UNIT`, rounded.
pub const AMP_UNIT: i64 = 1_000_000;

/// One full-scale unit of a mixed channel value. It is four times
/// `AMP_UNIT`, so the stereo gain of one half and the mono gain of one
/// quarter are exact: a mixed value `v` stands for `v / OUT_UNIT` of full
/// scale.
pub const OUT_UNIT: i64 = 4_000_000;

/// Per-channel monotonically increasing sample counters, used to compute
/// the instantaneous waveform phase. Reset to zero at stream start,
/// incremented once per rendered tone frame per channel, never reset
/// mid-session.
#[derive(Debug, Clone, Copy, PartialEq, Eq, Structural)]
pub struct PhaseState {
    /// Number of samples rendered so far for the left ear.
    pub left_index: u64,
    /// Number of samples rendered so far for the right ear.
    pub right_index: u64,
}

impl PhaseState {
    /// A fresh accumulator at the start of a stream: both counters zero.
    pub fn new() -> (s: Self)
        ensures
            s.left_index == 0,
            s.right_index == 0,
    {
        PhaseState { left_index: 0, right_index: 0 }
    }
}

/// What one frame of the output buffer receives: silence on every channel,
/// or the tone samples at the given phase indices.
#[derive(Debug, Clone, Copy, PartialEq, Eq, Structural)]
pub enum FrameCommand {
    /// Write zero to every channel of this frame.
    Silence,
    /// Write the sine samples at these phase indices, one per ear.
    Tone {
        /// Phase index of the left ear's sample.
        left_index: u64,
        /// Phase index of the right ear's sample.
        right_index: u64,
    },
}

/// The plan for one buffer: if cancellation was observed, every frame is
/// silence and the accumulator does not move; otherwise frame `i` carries
/// the tone at the starting indices advanced by `i`.
pub open spec fn spec_plan(s: PhaseState, cancelled: bool, frames: int) -> Seq<FrameCommand> {
    Seq::new(
        frames as nat,
        |i: int|
            if cancelled {
                FrameCommand::Silence
            } else {
                FrameCommand::Tone {
                    left_index: (s.left_index + i) as u64,
                    right_index: (s.right_index + i) as u64,
                }
            },
    )
}

/// Plans one device-requested buffer of `frames` frames.
///
/// If `cancelled` is set, every frame of the buffer is silence and the
/// accumulator is untouched, so repeated calls after cancellation keep
/// emitting silence indefinitely. Otherwise each frame consumes one phase
/// index per channel and the accumulator advances by the frame count.
pub fn plan_buffer(state: &mut PhaseState, cancelled: bool, frames: usize) -> (plan: Vec<
    FrameCommand,
>)
    requires
        old(state).left_index + frames <= u64::MAX,
        old(state).right_index + frames <= u64::MAX,
    ensures
        plan@ == spec_plan(*old(state), cancelled, frames as int),
        cancelled ==> *final(state) == *old(state),
        !cancelled ==> final(state).left_index == old(state).left_index + frames && final(state).right_index == old(state).right_index + frames,
{
    let ghost start = *state;
    let mut plan: Vec<FrameCommand> = Vec::with_capacity(frames);
    if cancelled {
        let mut i: usize = 0;
        while i < frames
            invariant
                i <= frames,
                plan@ =~= spec_plan(start, true, frames as int).take(i as int),
            decreases frames - i,
        {
            plan.push(FrameCommand::Silence);
            i = i + 1;
        }
        proof {
            assert(plan@ =~= spec_plan(start, true, frames as int));
        }
        plan
    } else {
        let mut i: usize = 0;
        while i < frames
            invariant
                i <= frames,
                start.left_index + frames <= u64::MAX,
                start.right_index + frames <= u64::MAX,
                state.left_index == start.left_index + i,
                state.right_index == start.right_index + i,
                plan@ =~= spec_plan(start, false, frames as int).take(i as int),
            decreases frames - i,
        {
            plan.push(
                FrameCommand::Tone { left_index: state.left_index, right_index: state.right_index },
            );
            state.left_index = state.left_index + 1;
            state.right_index = state.right_index + 1;
            i = i + 1;
        }
        proof {
            assert(plan@ =~= spec_plan(start, false, frames as int));
        }
        plan
    }
}

/// A frame of silence: zero on every channel.
pub fn silence_frame(channels: u16) -> (frame: Vec<i64>)
    requires
        channels >= 1,
    ensures
        frame@.len() == channels,
        forall|i: int| 0 <= i < channels ==> frame@[i] == 0,
{
    let mut frame: Vec<i64> = Vec::with_capacity(channels as usize);
    let mut c: usize = 0;
    while c < channels as usize
        invariant
            c <= channels,
            frame@.len() == c,
            forall|i: int| 0 <= i < c ==> frame@[i] == 0,
        decreases channels - c,
    {
        frame.push(0);
        c = c + 1;
    }
    frame
}

/// Mixes one tone frame onto the device's channels, in `OUT_UNIT` scale.
///
/// With exactly two channels, channel 0 receives the left sample and
/// channel 1 the right, each at half amplitude. With any other channel
/// count every channel receives the mono mix, the sum of both samples at a
/// quarter amplitude. In `OUT_UNIT` scale those gains are exact: half of
/// `amp / AMP_UNIT` is `2 * amp / OUT_UNIT`, and a quarter of the sum is
/// `(left + right) / OUT_UNIT`.
pub fn mix_frame(channels: u16, left_amp: i64, right_amp: i64) -> (frame: Vec<i64>)
    requires
        channels >= 1,
        -AMP_UNIT <= left_amp <= AMP_UNIT,
        -AMP_UNIT <= right_amp <= AMP_UNIT,
    ensures
        frame@.len() == channels,
        channels == 2 ==> frame@[0] == 2 * left_amp && frame@[1] == 2 * right_amp,
        channels != 2 ==> forall|i: int| 0 <= i < channels ==> frame@[i] == left_amp + right_amp,
{
    if channels == 2 {
        let mut frame: Vec<i64> = Vec::with_capacity(2);
        frame.push(2 * left_amp);
        frame.push(2 * right_amp);
        frame
    } else {
        let mono = left_amp + right_amp;
        let mut frame: Vec<i64> = Vec::with_capacity(channels as usize);
        let mut c: usize = 0;
        while c < channels as usize
            invariant
                c <= channels,
                frame@.len() == c,
                forall|i: int| 0 <= i < c ==> frame@[i] == mono,
                mono == left_amp + right_amp,
            decreases channels - c,
        {
            frame.push(mono);
            c = c + 1;
        }
        frame
    }
}

/// Once cancellation is observed, a planned buffer holds nothing but
/// silence, however many frames the device requests and whatever the
/// accumulator holds.
pub proof fn lemma_cancelled_plan_is_silent(s: PhaseState, frames: int)
    requires
        frames >= 0,
    ensures
        forall|i: int|
            0 <= i < frames ==> spec_plan(s, true, frames)[i] == FrameCommand::Silence,
{
}

/// Starting from a fresh accumulator, frame `i` of an uncancelled plan
/// carries exactly phase index `i` for both ears: a restarted session
/// renders the same index sequence as any other run of the same length.
pub proof fn lemma_restart_renders_by_index(frames: int)
    requires
        0 <= frames <= u64::MAX,
    ensures
        forall|i: int|
            0 <= i < frames ==> spec_plan(
                PhaseState { left_index: 0, right_index: 0 },
                false,
                frames,
            )[i] == (FrameCommand::Tone { left_index: i as u64, right_index: i as u64 }),
{
}

} // verus!
