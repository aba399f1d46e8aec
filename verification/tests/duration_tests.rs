use binaural_beats::duration::{duration_list, Duration, ToMinutes};

#[test]
fn duration_list_has_exact_items() {
    let existing_list = duration_list();
    let expected_list = vec![
        Duration::FiveMinutes,
        Duration::TenMinutes,
        Duration::FifteenMinutes,
        Duration::TwentyMinutes,
        Duration::ThirtyMinutes,
        Duration::ThirtyFiveMinutes,
        Duration::FortyMinutes,
        Duration::FiftyMinutes,
        Duration::SixtyMinutes,
    ];

    assert_eq!(existing_list, expected_list);
}

#[test]
fn duration_list_has_expected_sequence_for_items() {
    let existing_list = duration_list();
    let expected_list = vec![
        Duration::FiveMinutes,
        Duration::TenMinutes,
        Duration::FifteenMinutes,
        Duration::TwentyMinutes,
        Duration::ThirtyMinutes,
        Duration::ThirtyFiveMinutes,
        Duration::FortyMinutes,
        Duration::FiftyMinutes,
        Duration::SixtyMinutes,
    ];

    assert_eq!(existing_list.len(), expected_list.len());

    for (index, existing_value) in existing_list.iter().enumerate() {
        let expected_entry = expected_list.get(index).unwrap();
        assert_eq!(existing_value, expected_entry);
    }
}

#[test]
fn duration_to_minutes_matches_each_bucket() {
    assert_eq!(Duration::FiveMinutes.to_minutes(), 5);
    assert_eq!(Duration::TenMinutes.to_minutes(), 10);
    assert_eq!(Duration::FifteenMinutes.to_minutes(), 15);
    assert_eq!(Duration::TwentyMinutes.to_minutes(), 20);
    assert_eq!(Duration::ThirtyMinutes.to_minutes(), 30);
    assert_eq!(Duration::ThirtyFiveMinutes.to_minutes(), 35);
    assert_eq!(Duration::FortyMinutes.to_minutes(), 40);
    assert_eq!(Duration::FiftyMinutes.to_minutes(), 50);
    assert_eq!(Duration::SixtyMinutes.to_minutes(), 60);
}

#[test]
fn duration_label_matches_each_bucket() {
    assert_eq!(Duration::FiveMinutes.label(), "5 min");
    assert_eq!(Duration::TenMinutes.label(), "10 min");
    assert_eq!(Duration::FifteenMinutes.label(), "15 min");
    assert_eq!(Duration::TwentyMinutes.label(), "20 min");
    assert_eq!(Duration::ThirtyMinutes.label(), "30 min");
    assert_eq!(Duration::ThirtyFiveMinutes.label(), "35 min");
    assert_eq!(Duration::FortyMinutes.label(), "40 min");
    assert_eq!(Duration::FiftyMinutes.label(), "50 min");
    assert_eq!(Duration::SixtyMinutes.label(), "60 min");
}
