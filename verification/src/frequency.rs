//! Carrier and beat frequencies: closed sets of named tones plus a custom
//! escape hatch.
//!
//! Frequencies are carried as whole centihertz (hundredths of a hertz), so
//! every named tone of the tables, including the two-decimal tuning fork
//! values, is represented exactly and the per-ear arithmetic can be proved.

use vstd::prelude::*;

verus! {

/// A conversion to a frequency in centihertz (hundredths of Hz).
pub trait ToFrequency {
    /// The frequency this value stands for, in centihertz.
    spec fn spec_centihz(&self) -> u32;

    /// Returns the frequency this value stands for, in centihertz.
    fn to_centihz(&self) -> (r: u32)
        ensures
            r == self.spec_centihz(),
    ;
}

/// Represents common brainwave carrier frequencies.
#[derive(Debug, Clone, Copy, PartialEq, Eq, Structural)]
pub enum CarrierFrequency {
    /// Delta wave range (0.5 - 4 Hz), often associated with deep sleep.
    Delta,
    /// Theta wave range (4 - 8 Hz), associated with meditation, relaxation, and creativity.
    Theta,
    /// Alpha wave range (8 - 12 Hz), associated with relaxed, yet alert states.
    Alpha,
    /// Beta wave range (12 - 30 Hz), associated with active, busy, or anxious thinking.
    Beta,
    /// Gamma wave range (30 - 100 Hz), associated with higher-level cognitive functions.
    Gamma,
    SolfeggioRoot,
    SolfeggioSacral,
    SolfeggioSolarPlexus,
    SolfeggioHeart,
    SolfeggioThroat,
    SolfeggioThirdEye,
    SolfeggioCrown,
    TuningForkRoot,
    TuningForkSacral,
    TuningForkSolarPlexus,
    TuningForkHeart,
    TuningForkThroat,
    TuningForkThirdEye,
    TuningForkCrown,
    /// Allows specifying a custom carrier frequency, in centihertz.
    Custom(u32),
}

impl ToFrequency for CarrierFrequency {
    open spec fn spec_centihz(&self) -> u32 {
        match self {
            CarrierFrequency::Delta => 10000,
            CarrierFrequency::Theta => 20000,
            CarrierFrequency::Alpha => 30000,
            CarrierFrequency::Beta => 40000,
            CarrierFrequency::Gamma => 50000,
            CarrierFrequency::SolfeggioRoot => 39600,
            CarrierFrequency::SolfeggioSacral => 41700,
            CarrierFrequency::SolfeggioSolarPlexus => 52800,
            CarrierFrequency::SolfeggioHeart => 63900,
            CarrierFrequency::SolfeggioThroat => 74100,
            CarrierFrequency::SolfeggioThirdEye => 85200,
            CarrierFrequency::SolfeggioCrown => 96300,
            CarrierFrequency::TuningForkRoot => 19418,
            CarrierFrequency::TuningForkSacral => 21042,
            CarrierFrequency::TuningForkSolarPlexus => 12622,
            CarrierFrequency::TuningForkHeart => 13610,
            CarrierFrequency::TuningForkThroat => 14127,
            CarrierFrequency::TuningForkThirdEye => 22123,
            CarrierFrequency::TuningForkCrown => 17206,
            CarrierFrequency::Custom(centihz) => *centihz,
        }
    }

    fn to_centihz(&self) -> (r: u32) {
        match self {
            CarrierFrequency::Delta => 10000,
            CarrierFrequency::Theta => 20000,
            CarrierFrequency::Alpha => 30000,
            CarrierFrequency::Beta => 40000,
            CarrierFrequency::Gamma => 50000,
            CarrierFrequency::SolfeggioRoot => 39600,
            CarrierFrequency::SolfeggioSacral => 41700,
            CarrierFrequency::SolfeggioSolarPlexus => 52800,
            CarrierFrequency::SolfeggioHeart => 63900,
            CarrierFrequency::SolfeggioThroat => 74100,
            CarrierFrequency::SolfeggioThirdEye => 85200,
            CarrierFrequency::SolfeggioCrown => 96300,
            CarrierFrequency::TuningForkRoot => 19418,
            CarrierFrequency::TuningForkSacral => 21042,
            CarrierFrequency::TuningForkSolarPlexus => 12622,
            CarrierFrequency::TuningForkHeart => 13610,
            CarrierFrequency::TuningForkThroat => 14127,
            CarrierFrequency::TuningForkThirdEye => 22123,
            CarrierFrequency::TuningForkCrown => 17206,
            CarrierFrequency::Custom(centihz) => *centihz,
        }
    }
}

/// Represents common brainwave beat frequencies.
#[derive(Debug, Clone, Copy, PartialEq, Eq, Structural)]
pub enum BeatFrequency {
    /// Delta wave range (0.5 - 4 Hz), for deep relaxation, sleep.
    Delta,
    /// Theta wave range (4 - 8 Hz), for meditation, creativity.
    Theta,
    /// Alpha wave range (8 - 12 Hz), for relaxation, focus.
    Alpha,
    /// Beta wave range (12 - 30 Hz), for alertness, concentration.
    Beta,
    /// Gamma wave range (30 - 100 Hz), for high-level cognitive processing.
    Gamma,
    /// Allows specifying a custom beat frequency, in centihertz.
    Custom(u32),
}

impl ToFrequency for BeatFrequency {
    open spec fn spec_centihz(&self) -> u32 {
        match self {
            BeatFrequency::Delta => 200,
            BeatFrequency::Theta => 600,
            BeatFrequency::Alpha => 1000,
            BeatFrequency::Beta => 2000,
            BeatFrequency::Gamma => 4000,
            BeatFrequency::Custom(centihz) => *centihz,
        }
    }

    fn to_centihz(&self) -> (r: u32) {
        match self {
            BeatFrequency::Delta => 200,
            BeatFrequency::Theta => 600,
            BeatFrequency::Alpha => 1000,
            BeatFrequency::Beta => 2000,
            BeatFrequency::Gamma => 4000,
            BeatFrequency::Custom(centihz) => *centihz,
        }
    }
}

} // verus!
