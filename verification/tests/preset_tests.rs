use binaural_beats::duration::Duration;
use binaural_beats::frequency::{BeatFrequency, CarrierFrequency, ToFrequency};
use binaural_beats::preset::{preset_list, BinauralPreset, BinauralPresetGroup, Preset};

#[test]
fn test_preset_list_length() {
    let lst = preset_list();
    assert_eq!(32, lst.len())
}

#[test]
fn preset_group_resolves_relaxation() {
    let group = BinauralPresetGroup::from(Preset::Relaxation);
    assert_eq!(group.preset, Preset::Relaxation);
    assert_eq!(group.carrier, CarrierFrequency::Alpha);
    assert_eq!(group.beat, BeatFrequency::Alpha);
    assert_eq!(group.duration, Duration::FifteenMinutes);
}

#[test]
fn preset_group_resolves_astral_customs() {
    let group = BinauralPresetGroup::from(Preset::Astral);
    assert_eq!(group.carrier, CarrierFrequency::Custom(14000));
    assert_eq!(group.beat, BeatFrequency::Custom(630));
    assert_eq!(group.duration, Duration::SixtyMinutes);
    assert_eq!(group.carrier.to_centihz(), 14000);
    assert_eq!(group.beat.to_centihz(), 630);
}

#[test]
fn preset_without_name_keeps_settings() {
    let bare = BinauralPreset::from(Preset::Euphoria);
    assert_eq!(bare.carrier, CarrierFrequency::Custom(21042));
    assert_eq!(bare.beat, BeatFrequency::Custom(2000));
    assert_eq!(bare.duration, Duration::TenMinutes);
}

#[test]
fn carrier_frequencies_match_table() {
    assert_eq!(CarrierFrequency::Delta.to_centihz(), 10000);
    assert_eq!(CarrierFrequency::Theta.to_centihz(), 20000);
    assert_eq!(CarrierFrequency::Alpha.to_centihz(), 30000);
    assert_eq!(CarrierFrequency::Beta.to_centihz(), 40000);
    assert_eq!(CarrierFrequency::Gamma.to_centihz(), 50000);
    assert_eq!(CarrierFrequency::SolfeggioSolarPlexus.to_centihz(), 52800);
    assert_eq!(CarrierFrequency::TuningForkRoot.to_centihz(), 19418);
    assert_eq!(CarrierFrequency::TuningForkCrown.to_centihz(), 17206);
    assert_eq!(CarrierFrequency::Custom(19999).to_centihz(), 19999);
}

#[test]
fn beat_frequencies_match_table() {
    assert_eq!(BeatFrequency::Delta.to_centihz(), 200);
    assert_eq!(BeatFrequency::Theta.to_centihz(), 600);
    assert_eq!(BeatFrequency::Alpha.to_centihz(), 1000);
    assert_eq!(BeatFrequency::Beta.to_centihz(), 2000);
    assert_eq!(BeatFrequency::Gamma.to_centihz(), 4000);
    assert_eq!(BeatFrequency::Custom(9990).to_centihz(), 9990);
}

#[test]
fn preset_labels_are_human_readable() {
    assert_eq!(Preset::Focus.label(), "Focus");
    assert_eq!(Preset::HighFocus.label(), "High Focus");
    assert_eq!(Preset::CrownAstral.label(), "Crown Chakra Astral");
    assert_eq!(
        Preset::SolfeggioSolarPlexus.label(),
        "Solfeggio Solar Plexus Chakra"
    );
    assert_eq!(Preset::TuningForkThirdEye.label(), "Tuning Fork Third Eye Chakra");
}

#[test]
fn every_preset_resolves_to_valid_parameters() {
    for preset in preset_list() {
        let group = BinauralPresetGroup::from(preset);
        let params = group.resolve().expect("every built-in preset is valid");
        assert!(params.left_millihz() > 0);
        assert!(params.right_millihz() > 0);
        assert!(params.duration_minutes >= 1);
    }
}
