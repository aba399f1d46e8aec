//! Presets: named, pre-tuned combinations of carrier frequency, beat
//! frequency and duration, with an exhaustive mapping from each preset name
//! to its settings.

use vstd::prelude::*;
use vstd::string::StringExecFns;
use crate::duration::{Duration, ToMinutes};
use crate::frequency::{BeatFrequency, CarrierFrequency, ToFrequency};
use crate::params::{
    resolve_parameters, spec_left_millihz, spec_right_millihz, PlaybackError, PlaybackParameters,
};

verus! {

/// The preset names offered to the user.
#[derive(Debug, Clone, Copy, PartialEq, Eq, Structural)]
pub enum Preset {
    /// Heightened concentration and alertness (Beta waves).
    Focus,
    /// Peak concentration and cognitive processing (Gamma waves).
    HighFocus,
    /// Calm alertness and light meditation (Alpha waves).
    Relaxation,
    /// Deep calm between wakefulness and sleep (Theta waves).
    DeepRelaxation,
    /// Deep, restorative sleep (Delta waves).
    Sleep,
    /// The meditative state of chanting (Theta waves).
    Chanting,
    /// Intuition and subconscious insight (Theta waves).
    Intuition,
    /// A deep Theta beat over a low carrier for altered states.
    Astral,
    /// Deep restorative Delta-carrier state.
    Healing,
    /// The Alpha brainwave state for relaxed awareness.
    Alpha,
    /// Enhanced learning and cognition (Gamma waves).
    Intelligence,
    /// Well-being and positive emotional states (Gamma beat).
    Euphoria,
    /// Crown Chakra carrier with a Beta beat.
    CrownFocus,
    /// Crown Chakra carrier with an Alpha beat.
    CrownRelaxation,
    /// Crown Chakra carrier with a Delta beat.
    CrownSleep,
    /// Crown Chakra carrier with a Theta beat, for chanting.
    CrownChanting,
    /// Crown Chakra carrier with a Theta beat, for intuition.
    CrownIntuition,
    /// Crown Chakra carrier with a Delta beat, for astral meditation.
    CrownAstral,
    /// The 396 Hz Solfeggio tone with a Delta beat.
    SolfeggioRoot,
    /// The 417 Hz Solfeggio tone with a Theta beat.
    SolfeggioSacral,
    /// The 528 Hz Solfeggio tone with an Alpha beat.
    SolfeggioSolarPlexus,
    /// The 639 Hz Solfeggio tone with an Alpha beat.
    SolfeggioHeart,
    /// The 741 Hz Solfeggio tone with a Beta beat.
    SolfeggioThroat,
    /// The 852 Hz Solfeggio tone with a Beta beat.
    SolfeggioThirdEye,
    /// The 963 Hz Solfeggio tone with a Gamma beat.
    SolfeggioCrown,
    /// The 194.18 Hz tuning fork tone with a Delta beat.
    TuningForkRoot,
    /// The 210.42 Hz tuning fork tone with a Theta beat.
    TuningForkSacral,
    /// The 126.22 Hz tuning fork tone with an Alpha beat.
    TuningForkSolarPlexus,
    /// The 136.10 Hz tuning fork tone with an Alpha beat.
    TuningForkHeart,
    /// The 141.27 Hz tuning fork tone with a Beta beat.
    TuningForkThroat,
    /// The 221.23 Hz tuning fork tone with a Beta beat.
    TuningForkThirdEye,
    /// The 172.06 Hz tuning fork tone with a Gamma beat.
    TuningForkCrown,
}

/// This structure groups the basic values needed to run one binaural beat
/// session, as resolved from a preset.
#[derive(Debug, Clone, Copy, PartialEq, Eq, Structural)]
pub struct BinauralPresetGroup {
    /// The preset these settings came from.
    pub preset: Preset,
    /// The carrier frequency.
    pub carrier: CarrierFrequency,
    /// The beat frequency.
    pub beat: BeatFrequency,
    /// The session duration.
    pub duration: Duration,
}

/// The same settings without the preset name, for callers that only need
/// the numbers.
#[derive(Debug, Clone, Copy, PartialEq, Eq, Structural)]
pub struct BinauralPreset {
    /// The carrier frequency.
    pub carrier: CarrierFrequency,
    /// The beat frequency.
    pub beat: BeatFrequency,
    /// The session duration.
    pub duration: Duration,
}

/// The exhaustive preset table: every preset name maps to its settings.
pub open spec fn spec_preset_group(preset: Preset) -> BinauralPresetGroup {
    match preset {
        Preset::Focus => BinauralPresetGroup {
            preset,
            carrier: CarrierFrequency::Beta,
            beat: BeatFrequency::Beta,
            duration: Duration::ThirtyMinutes,
        },
        Preset::HighFocus => BinauralPresetGroup {
            preset,
            carrier: CarrierFrequency::Gamma,
            beat: BeatFrequency::Gamma,
            duration: Duration::ThirtyMinutes,
        },
        Preset::Relaxation => BinauralPresetGroup {
            preset,
            carrier: CarrierFrequency::Alpha,
            beat: BeatFrequency::Alpha,
            duration: Duration::FifteenMinutes,
        },
        Preset::DeepRelaxation => BinauralPresetGroup {
            preset,
            carrier: CarrierFrequency::Theta,
            beat: BeatFrequency::Theta,
            duration: Duration::FifteenMinutes,
        },
        Preset::Sleep => BinauralPresetGroup {
            preset,
            carrier: CarrierFrequency::Delta,
            beat: BeatFrequency::Delta,
            duration: Duration::SixtyMinutes,
        },
        Preset::Chanting => BinauralPresetGroup {
            preset,
            carrier: CarrierFrequency::Theta,
            beat: BeatFrequency::Theta,
            duration: Duration::ThirtyMinutes,
        },
        Preset::Intuition => BinauralPresetGroup {
            preset,
            carrier: CarrierFrequency::Theta,
            beat: BeatFrequency::Theta,
            duration: Duration::FifteenMinutes,
        },
        Preset::Astral => BinauralPresetGroup {
            preset,
            carrier: CarrierFrequency::Custom(14000),
            beat: BeatFrequency::Custom(630),
            duration: Duration::SixtyMinutes,
        },
        Preset::Healing => BinauralPresetGroup {
            preset,
            carrier: CarrierFrequency::Delta,
            beat: BeatFrequency::Theta,
            duration: Duration::SixtyMinutes,
        },
        Preset::Alpha => BinauralPresetGroup {
            preset,
            carrier: CarrierFrequency::Alpha,
            beat: BeatFrequency::Alpha,
            duration: Duration::ThirtyMinutes,
        },
        Preset::Intelligence => BinauralPresetGroup {
            preset,
            carrier: CarrierFrequency::Gamma,
            beat: BeatFrequency::Gamma,
            duration: Duration::TenMinutes,
        },
        Preset::Euphoria => BinauralPresetGroup {
            preset,
            carrier: CarrierFrequency::Custom(21042),
            beat: BeatFrequency::Custom(2000),
            duration: Duration::TenMinutes,
        },
        Preset::CrownFocus => BinauralPresetGroup {
            preset,
            carrier: CarrierFrequency::TuningForkCrown,
            beat: BeatFrequency::Beta,
            duration: Duration::ThirtyMinutes,
        },
        Preset::CrownRelaxation => BinauralPresetGroup {
            preset,
            carrier: CarrierFrequency::TuningForkCrown,
            beat: BeatFrequency::Alpha,
            duration: Duration::FifteenMinutes,
        },
        Preset::CrownSleep => BinauralPresetGroup {
            preset,
            carrier: CarrierFrequency::TuningForkCrown,
            beat: BeatFrequency::Delta,
            duration: Duration::SixtyMinutes,
        },
        Preset::CrownChanting => BinauralPresetGroup {
            preset,
            carrier: CarrierFrequency::TuningForkCrown,
            beat: BeatFrequency::Theta,
            duration: Duration::ThirtyMinutes,
        },
        Preset::CrownIntuition => BinauralPresetGroup {
            preset,
            carrier: CarrierFrequency::TuningForkCrown,
            beat: BeatFrequency::Theta,
            duration: Duration::FifteenMinutes,
        },
        Preset::CrownAstral => BinauralPresetGroup {
            preset,
            carrier: CarrierFrequency::TuningForkCrown,
            beat: BeatFrequency::Delta,
            duration: Duration::SixtyMinutes,
        },
        Preset::SolfeggioRoot => BinauralPresetGroup {
            preset,
            carrier: CarrierFrequency::SolfeggioRoot,
            beat: BeatFrequency::Delta,
            duration: Duration::ThirtyMinutes,
        },
        Preset::SolfeggioSacral => BinauralPresetGroup {
            preset,
            carrier: CarrierFrequency::SolfeggioSacral,
            beat: BeatFrequency::Theta,
            duration: Duration::ThirtyMinutes,
        },
        Preset::SolfeggioSolarPlexus => BinauralPresetGroup {
            preset,
            carrier: CarrierFrequency::SolfeggioSolarPlexus,
            beat: BeatFrequency::Alpha,
            duration: Duration::ThirtyMinutes,
        },
        Preset::SolfeggioHeart => BinauralPresetGroup {
            preset,
            carrier: CarrierFrequency::SolfeggioHeart,
            beat: BeatFrequency::Alpha,
            duration: Duration::FifteenMinutes,
        },
        Preset::SolfeggioThroat => BinauralPresetGroup {
            preset,
            carrier: CarrierFrequency::SolfeggioThroat,
            beat: BeatFrequency::Beta,
            duration: Duration::TenMinutes,
        },
        Preset::SolfeggioThirdEye => BinauralPresetGroup {
            preset,
            carrier: CarrierFrequency::SolfeggioThirdEye,
            beat: BeatFrequency::Beta,
            duration: Duration::TenMinutes,
        },
        Preset::SolfeggioCrown => BinauralPresetGroup {
            preset,
            carrier: CarrierFrequency::SolfeggioCrown,
            beat: BeatFrequency::Gamma,
            duration: Duration::TenMinutes,
        },
        Preset::TuningForkRoot => BinauralPresetGroup {
            preset,
            carrier: CarrierFrequency::TuningForkRoot,
            beat: BeatFrequency::Delta,
            duration: Duration::ThirtyMinutes,
        },
        Preset::TuningForkSacral => BinauralPresetGroup {
            preset,
            carrier: CarrierFrequency::TuningForkSacral,
            beat: BeatFrequency::Theta,
            duration: Duration::ThirtyMinutes,
        },
        Preset::TuningForkSolarPlexus => BinauralPresetGroup {
            preset,
            carrier: CarrierFrequency::TuningForkSolarPlexus,
            beat: BeatFrequency::Alpha,
            duration: Duration::ThirtyMinutes,
        },
        Preset::TuningForkHeart => BinauralPresetGroup {
            preset,
            carrier: CarrierFrequency::TuningForkHeart,
            beat: BeatFrequency::Alpha,
            duration: Duration::FifteenMinutes,
        },
        Preset::TuningForkThroat => BinauralPresetGroup {
            preset,
            carrier: CarrierFrequency::TuningForkThroat,
            beat: BeatFrequency::Beta,
            duration: Duration::TenMinutes,
        },
        Preset::TuningForkThirdEye => BinauralPresetGroup {
            preset,
            carrier: CarrierFrequency::TuningForkThirdEye,
            beat: BeatFrequency::Beta,
            duration: Duration::TenMinutes,
        },
        Preset::TuningForkCrown => BinauralPresetGroup {
            preset,
            carrier: CarrierFrequency::TuningForkCrown,
            beat: BeatFrequency::Gamma,
            duration: Duration::TenMinutes,
        },
    }
}

/// Resolves a preset to its full group of settings, by the exhaustive
/// table.
impl From<Preset> for BinauralPresetGroup {
    fn from(preset: Preset) -> (r: Self) {
        match preset {
            Preset::Focus => BinauralPresetGroup {
                preset,
                carrier: CarrierFrequency::Beta,
                beat: BeatFrequency::Beta,
                duration: Duration::ThirtyMinutes,
            },
            Preset::HighFocus => BinauralPresetGroup {
                preset,
                carrier: CarrierFrequency::Gamma,
                beat: BeatFrequency::Gamma,
                duration: Duration::ThirtyMinutes,
            },
            Preset::Relaxation => BinauralPresetGroup {
                preset,
                carrier: CarrierFrequency::Alpha,
                beat: BeatFrequency::Alpha,
                duration: Duration::FifteenMinutes,
            },
            Preset::DeepRelaxation => BinauralPresetGroup {
                preset,
                carrier: CarrierFrequency::Theta,
                beat: BeatFrequency::Theta,
                duration: Duration::FifteenMinutes,
            },
            Preset::Sleep => BinauralPresetGroup {
                preset,
                carrier: CarrierFrequency::Delta,
                beat: BeatFrequency::Delta,
                duration: Duration::SixtyMinutes,
            },
            Preset::Chanting => BinauralPresetGroup {
                preset,
                carrier: CarrierFrequency::Theta,
                beat: BeatFrequency::Theta,
                duration: Duration::ThirtyMinutes,
            },
            Preset::Intuition => BinauralPresetGroup {
                preset,
                carrier: CarrierFrequency::Theta,
                beat: BeatFrequency::Theta,
                duration: Duration::FifteenMinutes,
            },
            Preset::Astral => BinauralPresetGroup {
                preset,
                carrier: CarrierFrequency::Custom(14000),
                beat: BeatFrequency::Custom(630),
                duration: Duration::SixtyMinutes,
            },
            Preset::Healing => BinauralPresetGroup {
                preset,
                carrier: CarrierFrequency::Delta,
                beat: BeatFrequency::Theta,
                duration: Duration::SixtyMinutes,
            },
            Preset::Alpha => BinauralPresetGroup {
                preset,
                carrier: CarrierFrequency::Alpha,
                beat: BeatFrequency::Alpha,
                duration: Duration::ThirtyMinutes,
            },
            Preset::Intelligence => BinauralPresetGroup {
                preset,
                carrier: CarrierFrequency::Gamma,
                beat: BeatFrequency::Gamma,
                duration: Duration::TenMinutes,
            },
            Preset::Euphoria => BinauralPresetGroup {
                preset,
                carrier: CarrierFrequency::Custom(21042),
                beat: BeatFrequency::Custom(2000),
                duration: Duration::TenMinutes,
            },
            Preset::CrownFocus => BinauralPresetGroup {
                preset,
                carrier: CarrierFrequency::TuningForkCrown,
                beat: BeatFrequency::Beta,
                duration: Duration::ThirtyMinutes,
            },
            Preset::CrownRelaxation => BinauralPresetGroup {
                preset,
                carrier: CarrierFrequency::TuningForkCrown,
                beat: BeatFrequency::Alpha,
                duration: Duration::FifteenMinutes,
            },
            Preset::CrownSleep => BinauralPresetGroup {
                preset,
                carrier: CarrierFrequency::TuningForkCrown,
                beat: BeatFrequency::Delta,
                duration: Duration::SixtyMinutes,
            },
            Preset::CrownChanting => BinauralPresetGroup {
                preset,
                carrier: CarrierFrequency::TuningForkCrown,
                beat: BeatFrequency::Theta,
                duration: Duration::ThirtyMinutes,
            },
            Preset::CrownIntuition => BinauralPresetGroup {
                preset,
                carrier: CarrierFrequency::TuningForkCrown,
                beat: BeatFrequency::Theta,
                duration: Duration::FifteenMinutes,
            },
            Preset::CrownAstral => BinauralPresetGroup {
                preset,
                carrier: CarrierFrequency::TuningForkCrown,
                beat: BeatFrequency::Delta,
                duration: Duration::SixtyMinutes,
            },
            Preset::SolfeggioRoot => BinauralPresetGroup {
                preset,
                carrier: CarrierFrequency::SolfeggioRoot,
                beat: BeatFrequency::Delta,
                duration: Duration::ThirtyMinutes,
            },
            Preset::SolfeggioSacral => BinauralPresetGroup {
                preset,
                carrier: CarrierFrequency::SolfeggioSacral,
                beat: BeatFrequency::Theta,
                duration: Duration::ThirtyMinutes,
            },
            Preset::SolfeggioSolarPlexus => BinauralPresetGroup {
                preset,
                carrier: CarrierFrequency::SolfeggioSolarPlexus,
                beat: BeatFrequency::Alpha,
                duration: Duration::ThirtyMinutes,
            },
            Preset::SolfeggioHeart => BinauralPresetGroup {
                preset,
                carrier: CarrierFrequency::SolfeggioHeart,
                beat: BeatFrequency::Alpha,
                duration: Duration::FifteenMinutes,
            },
            Preset::SolfeggioThroat => BinauralPresetGroup {
                preset,
                carrier: CarrierFrequency::SolfeggioThroat,
                beat: BeatFrequency::Beta,
                duration: Duration::TenMinutes,
            },
            Preset::SolfeggioThirdEye => BinauralPresetGroup {
                preset,
                carrier: CarrierFrequency::SolfeggioThirdEye,
                beat: BeatFrequency::Beta,
                duration: Duration::TenMinutes,
            },
            Preset::SolfeggioCrown => BinauralPresetGroup {
                preset,
                carrier: CarrierFrequency::SolfeggioCrown,
                beat: BeatFrequency::Gamma,
                duration: Duration::TenMinutes,
            },
            Preset::TuningForkRoot => BinauralPresetGroup {
                preset,
                carrier: CarrierFrequency::TuningForkRoot,
                beat: BeatFrequency::Delta,
                duration: Duration::ThirtyMinutes,
            },
            Preset::TuningForkSacral => BinauralPresetGroup {
                preset,
                carrier: CarrierFrequency::TuningForkSacral,
                beat: BeatFrequency::Theta,
                duration: Duration::ThirtyMinutes,
            },
            Preset::TuningForkSolarPlexus => BinauralPresetGroup {
                preset,
                carrier: CarrierFrequency::TuningForkSolarPlexus,
                beat: BeatFrequency::Alpha,
                duration: Duration::ThirtyMinutes,
            },
            Preset::TuningForkHeart => BinauralPresetGroup {
                preset,
                carrier: CarrierFrequency::TuningForkHeart,
                beat: BeatFrequency::Alpha,
                duration: Duration::FifteenMinutes,
            },
            Preset::TuningForkThroat => BinauralPresetGroup {
                preset,
                carrier: CarrierFrequency::TuningForkThroat,
                beat: BeatFrequency::Beta,
                duration: Duration::TenMinutes,
            },
            Preset::TuningForkThirdEye => BinauralPresetGroup {
                preset,
                carrier: CarrierFrequency::TuningForkThirdEye,
                beat: BeatFrequency::Beta,
                duration: Duration::TenMinutes,
            },
            Preset::TuningForkCrown => BinauralPresetGroup {
                preset,
                carrier: CarrierFrequency::TuningForkCrown,
                beat: BeatFrequency::Gamma,
                duration: Duration::TenMinutes,
            },
        }
    }
}

impl vstd::std_specs::convert::FromSpecImpl<Preset> for BinauralPresetGroup {
    open spec fn obeys_from_spec() -> bool {
        true
    }

    open spec fn from_spec(preset: Preset) -> BinauralPresetGroup {
        spec_preset_group(preset)
    }
}

/// The settings of a preset without its name.
pub open spec fn spec_preset_settings(preset: Preset) -> BinauralPreset {
    BinauralPreset {
        carrier: spec_preset_group(preset).carrier,
        beat: spec_preset_group(preset).beat,
        duration: spec_preset_group(preset).duration,
    }
}

/// Resolves a preset to its settings, dropping the preset name.
impl From<Preset> for BinauralPreset {
    fn from(preset: Preset) -> (r: Self) {
        let group = BinauralPresetGroup::from(preset);
        BinauralPreset { carrier: group.carrier, beat: group.beat, duration: group.duration }
    }
}

impl vstd::std_specs::convert::FromSpecImpl<Preset> for BinauralPreset {
    open spec fn obeys_from_spec() -> bool {
        true
    }

    open spec fn from_spec(preset: Preset) -> BinauralPreset {
        spec_preset_settings(preset)
    }
}

impl BinauralPresetGroup {
    /// Resolves this group's settings to validated playback parameters, or
    /// says why they are rejected. Nothing is played yet: this is the
    /// side-effect-free front half of a session.
    pub fn resolve(&self) -> (r: Result<PlaybackParameters, PlaybackError>)
        ensures
            r is Ok <==> (spec_left_millihz(self.carrier.spec_centihz(), self.beat.spec_centihz())
                > 0 && spec_right_millihz(self.carrier.spec_centihz(), self.beat.spec_centihz())
                > 0 && self.duration.spec_minutes() >= 1),
            r == Err::<PlaybackParameters, PlaybackError>(PlaybackError::InvalidFrequency) <==> (
            spec_left_millihz(self.carrier.spec_centihz(), self.beat.spec_centihz()) <= 0
                || spec_right_millihz(self.carrier.spec_centihz(), self.beat.spec_centihz()) <= 0),
            r == Err::<PlaybackParameters, PlaybackError>(PlaybackError::InvalidDuration) <==> (
            spec_left_millihz(self.carrier.spec_centihz(), self.beat.spec_centihz()) > 0
                && spec_right_millihz(self.carrier.spec_centihz(), self.beat.spec_centihz()) > 0
                && self.duration.spec_minutes() == 0),
            r is Ok ==> r->Ok_0 == (PlaybackParameters {
                carrier_centihz: self.carrier.spec_centihz(),
                beat_centihz: self.beat.spec_centihz(),
                duration_minutes: self.duration.spec_minutes(),
            }) && r->Ok_0.wf(),
    {
        resolve_parameters(&self.carrier, &self.beat, &self.duration)
    }
}

/// The presets offered to the user, in the order they are presented.
pub open spec fn spec_preset_list() -> Seq<Preset> {
    seq![
        Preset::Focus,
        Preset::HighFocus,
        Preset::Relaxation,
        Preset::DeepRelaxation,
        Preset::Sleep,
        Preset::Chanting,
        Preset::Intuition,
        Preset::Astral,
        Preset::Healing,
        Preset::Alpha,
        Preset::Intelligence,
        Preset::Euphoria,
        Preset::CrownFocus,
        Preset::CrownRelaxation,
        Preset::CrownSleep,
        Preset::CrownChanting,
        Preset::CrownIntuition,
        Preset::CrownAstral,
        Preset::SolfeggioRoot,
        Preset::SolfeggioSacral,
        Preset::SolfeggioSolarPlexus,
        Preset::SolfeggioHeart,
        Preset::SolfeggioThroat,
        Preset::SolfeggioThirdEye,
        Preset::SolfeggioCrown,
        Preset::TuningForkRoot,
        Preset::TuningForkSacral,
        Preset::TuningForkSolarPlexus,
        Preset::TuningForkHeart,
        Preset::TuningForkThroat,
        Preset::TuningForkThirdEye,
        Preset::TuningForkCrown,
    ]
}

/// Returns all presets, in presentation order.
pub fn preset_list() -> (r: Vec<Preset>)
    ensures
        r@ == spec_preset_list(),
        r@.len() == 32,
{
    let mut v: Vec<Preset> = Vec::new();
    v.push(Preset::Focus);
    v.push(Preset::HighFocus);
    v.push(Preset::Relaxation);
    v.push(Preset::DeepRelaxation);
    v.push(Preset::Sleep);
    v.push(Preset::Chanting);
    v.push(Preset::Intuition);
    v.push(Preset::Astral);
    v.push(Preset::Healing);
    v.push(Preset::Alpha);
    v.push(Preset::Intelligence);
    v.push(Preset::Euphoria);
    v.push(Preset::CrownFocus);
    v.push(Preset::CrownRelaxation);
    v.push(Preset::CrownSleep);
    v.push(Preset::CrownChanting);
    v.push(Preset::CrownIntuition);
    v.push(Preset::CrownAstral);
    v.push(Preset::SolfeggioRoot);
    v.push(Preset::SolfeggioSacral);
    v.push(Preset::SolfeggioSolarPlexus);
    v.push(Preset::SolfeggioHeart);
    v.push(Preset::SolfeggioThroat);
    v.push(Preset::SolfeggioThirdEye);
    v.push(Preset::SolfeggioCrown);
    v.push(Preset::TuningForkRoot);
    v.push(Preset::TuningForkSacral);
    v.push(Preset::TuningForkSolarPlexus);
    v.push(Preset::TuningForkHeart);
    v.push(Preset::TuningForkThroat);
    v.push(Preset::TuningForkThirdEye);
    v.push(Preset::TuningForkCrown);
    proof {
        assert(v@ =~= spec_preset_list());
    }
    v
}

/// The human-readable name of a preset.
pub open spec fn spec_preset_label(preset: Preset) -> Seq<char> {
    match preset {
        Preset::Focus => "Focus"@,
        Preset::HighFocus => "High Focus"@,
        Preset::Relaxation => "Relaxation"@,
        Preset::DeepRelaxation => "Deep Relaxation"@,
        Preset::Sleep => "Sleep"@,
        Preset::Chanting => "Chanting"@,
        Preset::Intuition => "Intuition"@,
        Preset::Astral => "Astral"@,
        Preset::Healing => "Healing"@,
        Preset::Alpha => "Alpha"@,
        Preset::Intelligence => "Intelligence"@,
        Preset::Euphoria => "Euphoria"@,
        Preset::CrownFocus => "Crown Chakra Focus"@,
        Preset::CrownRelaxation => "Crown Chakra Relaxation"@,
        Preset::CrownSleep => "Crown Chakra Sleep"@,
        Preset::CrownChanting => "Crown Chakra Chanting"@,
        Preset::CrownIntuition => "Crown Chakra Intuition"@,
        Preset::CrownAstral => "Crown Chakra Astral"@,
        Preset::SolfeggioRoot => "Solfeggio Root Chakra"@,
        Preset::SolfeggioSacral => "Solfeggio Sacral Chakra"@,
        Preset::SolfeggioSolarPlexus => "Solfeggio Solar Plexus Chakra"@,
        Preset::SolfeggioHeart => "Solfeggio Heart Chakra"@,
        Preset::SolfeggioThroat => "Solfeggio Throat Chakra"@,
        Preset::SolfeggioThirdEye => "Solfeggio Third Eye Chakra"@,
        Preset::SolfeggioCrown => "Solfeggio Crown Chakra"@,
        Preset::TuningForkRoot => "Tuning Fork Root Chakra"@,
        Preset::TuningForkSacral => "Tuning Fork Sacral Chakra"@,
        Preset::TuningForkSolarPlexus => "Tuning Fork Solar Plexus Chakra"@,
        Preset::TuningForkHeart => "Tuning Fork Heart Chakra"@,
        Preset::TuningForkThroat => "Tuning Fork Throat Chakra"@,
        Preset::TuningForkThirdEye => "Tuning Fork Third Eye Chakra"@,
        Preset::TuningForkCrown => "Tuning Fork Crown Chakra"@,
    }
}

impl Preset {
    /// Returns the human-readable name of the preset.
    pub fn label(&self) -> (r: String)
        ensures
            r@ == spec_preset_label(*self),
    {
        match self {
            Preset::Focus => String::from_str("Focus"),
            Preset::HighFocus => String::from_str("High Focus"),
            Preset::Relaxation => String::from_str("Relaxation"),
            Preset::DeepRelaxation => String::from_str("Deep Relaxation"),
            Preset::Sleep => String::from_str("Sleep"),
            Preset::Chanting => String::from_str("Chanting"),
            Preset::Intuition => String::from_str("Intuition"),
            Preset::Astral => String::from_str("Astral"),
            Preset::Healing => String::from_str("Healing"),
            Preset::Alpha => String::from_str("Alpha"),
            Preset::Intelligence => String::from_str("Intelligence"),
            Preset::Euphoria => String::from_str("Euphoria"),
            Preset::CrownFocus => String::from_str("Crown Chakra Focus"),
            Preset::CrownRelaxation => String::from_str("Crown Chakra Relaxation"),
            Preset::CrownSleep => String::from_str("Crown Chakra Sleep"),
            Preset::CrownChanting => String::from_str("Crown Chakra Chanting"),
            Preset::CrownIntuition => String::from_str("Crown Chakra Intuition"),
            Preset::CrownAstral => String::from_str("Crown Chakra Astral"),
            Preset::SolfeggioRoot => String::from_str("Solfeggio Root Chakra"),
            Preset::SolfeggioSacral => String::from_str("Solfeggio Sacral Chakra"),
            Preset::SolfeggioSolarPlexus => String::from_str("Solfeggio Solar Plexus Chakra"),
            Preset::SolfeggioHeart => String::from_str("Solfeggio Heart Chakra"),
            Preset::SolfeggioThroat => String::from_str("Solfeggio Throat Chakra"),
            Preset::SolfeggioThirdEye => String::from_str("Solfeggio Third Eye Chakra"),
            Preset::SolfeggioCrown => String::from_str("Solfeggio Crown Chakra"),
            Preset::TuningForkRoot => String::from_str("Tuning Fork Root Chakra"),
            Preset::TuningForkSacral => String::from_str("Tuning Fork Sacral Chakra"),
            Preset::TuningForkSolarPlexus => String::from_str("Tuning Fork Solar Plexus Chakra"),
            Preset::TuningForkHeart => String::from_str("Tuning Fork Heart Chakra"),
            Preset::TuningForkThroat => String::from_str("Tuning Fork Throat Chakra"),
            Preset::TuningForkThirdEye => String::from_str("Tuning Fork Third Eye Chakra"),
            Preset::TuningForkCrown => String::from_str("Tuning Fork Crown Chakra"),
        }
    }
}

} // verus!
