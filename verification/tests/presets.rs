use std::collections::HashSet;
use translate::preset::{
    preset_category, preset_filename, preset_name, PresetCategory, PresetId, PRESET_COUNT,
};

#[test]
fn preset_count_matches_enum_variants() {
    assert_eq!(PRESET_COUNT, PresetId::variants().len());
}

#[test]
fn preset_index_round_trip() {
    for index in 0..PRESET_COUNT {
        assert_eq!(PresetId::from_index(index).to_index(), index);
    }
    assert_eq!(PresetId::from_index(0), PresetId::CarHatchback);
    assert_eq!(PresetId::from_index(5), PresetId::MonoRadio);
    assert_eq!(PresetId::ClubBooth.to_index(), 3);
}

#[test]
fn variants_are_display_names_in_order() {
    let names = PresetId::variants();
    assert_eq!(
        names,
        vec![
            "Hatchback",
            "Phone Speaker",
            "Tablet / Laptop",
            "Club Booth",
            "Concert Venue",
            "Mono Radio"
        ]
    );
}

#[test]
fn every_preset_has_its_own_file() {
    let mut files = HashSet::new();
    for index in 0..PRESET_COUNT {
        let preset = PresetId::from_index(index);
        assert!(files.insert(preset_filename(preset)));
    }
    assert_eq!(preset_filename(PresetId::CarHatchback), "car-hatchback.wav");
    assert_eq!(preset_filename(PresetId::MonoRadio), "mono-radio.wav");
}

#[test]
fn preset_descriptions() {
    assert_eq!(preset_name(PresetId::TabletLaptop), "Tablet / Laptop");
    assert_eq!(preset_category(PresetId::ConcertVenue), PresetCategory::ConcertVenues);
    assert_eq!(preset_category(PresetId::PhoneSpeaker).label(), "Phones");
    assert_eq!(PresetCategory::MonoDevices.label(), "Mono devices");
    assert_eq!(PresetCategory::TabletsLaptops.label(), "Tablets / Laptops");
    assert_eq!(PresetCategory::ConcertVenues.label(), "Concert / Venues");
    assert_eq!(PresetCategory::Cars.label(), "Cars");
    assert_eq!(PresetCategory::Clubs.label(), "Clubs");
}
