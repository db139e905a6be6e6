//! The bundled presets, their categories and the descriptive data of each.

use vstd::prelude::*;

verus! {

/// Number of bundled presets (one per variant of [`PresetId`]).
pub const PRESET_COUNT: usize = 6;

/// One of the bundled listening environments.
#[derive(Clone, Copy, Debug, PartialEq, Eq, Structural)]
pub enum PresetId {
    CarHatchback,
    PhoneSpeaker,
    TabletLaptop,
    ClubBooth,
    ConcertVenue,
    MonoRadio,
}

/// Position of a preset in declaration order.
pub open spec fn preset_index(p: PresetId) -> nat {
    match p {
        PresetId::CarHatchback => 0,
        PresetId::PhoneSpeaker => 1,
        PresetId::TabletLaptop => 2,
        PresetId::ClubBooth => 3,
        PresetId::ConcertVenue => 4,
        PresetId::MonoRadio => 5,
    }
}

/// The preset at a position in declaration order (meaningful below `PRESET_COUNT`).
pub open spec fn preset_at(i: int) -> PresetId {
    if i == 0 {
        PresetId::CarHatchback
    } else if i == 1 {
        PresetId::PhoneSpeaker
    } else if i == 2 {
        PresetId::TabletLaptop
    } else if i == 3 {
        PresetId::ClubBooth
    } else if i == 4 {
        PresetId::ConcertVenue
    } else {
        PresetId::MonoRadio
    }
}

impl PresetId {
    /// Position of this preset in declaration order.
    pub fn to_index(self) -> (i: usize)
        ensures
            i == preset_index(self),
            i < PRESET_COUNT,
    {
        match self {
            PresetId::CarHatchback => 0,
            PresetId::PhoneSpeaker => 1,
            PresetId::TabletLaptop => 2,
            PresetId::ClubBooth => 3,
            PresetId::ConcertVenue => 4,
            PresetId::MonoRadio => 5,
        }
    }

    /// The preset at position `index`; there is none past the last variant.
    pub fn from_index(index: usize) -> (p: PresetId)
        requires
            index < PRESET_COUNT,
        ensures
            p == preset_at(index as int),
            preset_index(p) == index,
    {
        if index == 0 {
            PresetId::CarHatchback
        } else if index == 1 {
            PresetId::PhoneSpeaker
        } else if index == 2 {
            PresetId::TabletLaptop
        } else if index == 3 {
            PresetId::ClubBooth
        } else if index == 4 {
            PresetId::ConcertVenue
        } else {
            PresetId::MonoRadio
        }
    }
}

/// Converting a preset to its position and back gives the same preset, and
/// every position below `PRESET_COUNT` belongs to exactly one preset.
pub proof fn lemma_preset_index_round_trip(p: PresetId, i: nat)
    ensures
        preset_at(preset_index(p) as int) == p,
        preset_index(p) < PRESET_COUNT,
        i < PRESET_COUNT ==> preset_index(preset_at(i as int)) == i,
{
}

/// How the Quick Cycle transport advances: on request only, or on a timer.
#[derive(Clone, Copy, Debug, PartialEq, Eq, Structural)]
pub enum QuickCycleMode {
    Manual,
    Timed,
}

/// The family of playback devices a preset belongs to.
#[derive(Clone, Copy, Debug, PartialEq, Eq, Structural)]
pub enum PresetCategory {
    Cars,
    Phones,
    TabletsLaptops,
    Clubs,
    ConcertVenues,
    MonoDevices,
}

/// Display text of a category.
pub open spec fn category_label(c: PresetCategory) -> Seq<char> {
    match c {
        PresetCategory::Cars => "Cars"@,
        PresetCategory::Phones => "Phones"@,
        PresetCategory::TabletsLaptops => "Tablets / Laptops"@,
        PresetCategory::Clubs => "Clubs"@,
        PresetCategory::ConcertVenues => "Concert / Venues"@,
        PresetCategory::MonoDevices => "Mono devices"@,
    }
}

impl PresetCategory {
    /// Display text of this category.
    pub fn label(self) -> (s: &'static str)
        ensures
            s@ == category_label(self),
    {
        match self {
            PresetCategory::Cars => "Cars",
            PresetCategory::Phones => "Phones",
            PresetCategory::TabletsLaptops => "Tablets / Laptops",
            PresetCategory::Clubs => "Clubs",
            PresetCategory::ConcertVenues => "Concert / Venues",
            PresetCategory::MonoDevices => "Mono devices",
        }
    }
}

/// Category of each preset.
pub open spec fn category_of(id: PresetId) -> PresetCategory {
    match id {
        PresetId::CarHatchback => PresetCategory::Cars,
        PresetId::PhoneSpeaker => PresetCategory::Phones,
        PresetId::TabletLaptop => PresetCategory::TabletsLaptops,
        PresetId::ClubBooth => PresetCategory::Clubs,
        PresetId::ConcertVenue => PresetCategory::ConcertVenues,
        PresetId::MonoRadio => PresetCategory::MonoDevices,
    }
}

/// Display name of each preset.
pub open spec fn name_of(id: PresetId) -> Seq<char> {
    match id {
        PresetId::CarHatchback => "Hatchback"@,
        PresetId::PhoneSpeaker => "Phone Speaker"@,
        PresetId::TabletLaptop => "Tablet / Laptop"@,
        PresetId::ClubBooth => "Club Booth"@,
        PresetId::ConcertVenue => "Concert Venue"@,
        PresetId::MonoRadio => "Mono Radio"@,
    }
}

/// Name of the bundled impulse-response file of each preset.
pub open spec fn file_name_of(id: PresetId) -> Seq<char> {
    match id {
        PresetId::CarHatchback => "car-hatchback.wav"@,
        PresetId::PhoneSpeaker => "phone-speaker.wav"@,
        PresetId::TabletLaptop => "tablet-laptop.wav"@,
        PresetId::ClubBooth => "club-booth.wav"@,
        PresetId::ConcertVenue => "concert-venue.wav"@,
        PresetId::MonoRadio => "mono-radio.wav"@,
    }
}

/// The stable identifier under which a preset is saved with a project.
pub open spec fn id_text(id: PresetId) -> Seq<char> {
    match id {
        PresetId::CarHatchback => "car-hatchback"@,
        PresetId::PhoneSpeaker => "phone-speaker"@,
        PresetId::TabletLaptop => "tablet-laptop"@,
        PresetId::ClubBooth => "club-booth"@,
        PresetId::ConcertVenue => "concert-venue"@,
        PresetId::MonoRadio => "mono-radio"@,
    }
}

impl PresetId {
    /// The stable identifier under which this preset is saved with a project.
    pub fn id(self) -> (s: &'static str)
        ensures
            s@ == id_text(self),
    {
        match self {
            PresetId::CarHatchback => "car-hatchback",
            PresetId::PhoneSpeaker => "phone-speaker",
            PresetId::TabletLaptop => "tablet-laptop",
            PresetId::ClubBooth => "club-booth",
            PresetId::ConcertVenue => "concert-venue",
            PresetId::MonoRadio => "mono-radio",
        }
    }
}

/// Each preset's impulse response lives in the file named after the preset's
/// own identifier, with the `.wav` extension.
pub proof fn lemma_file_name_is_own_id(p: PresetId)
    ensures
        file_name_of(p) == id_text(p) + ".wav"@,
{
    reveal_strlit(".wav");
    reveal_strlit("car-hatchback");
    reveal_strlit("phone-speaker");
    reveal_strlit("tablet-laptop");
    reveal_strlit("club-booth");
    reveal_strlit("concert-venue");
    reveal_strlit("mono-radio");
    reveal_strlit("car-hatchback.wav");
    reveal_strlit("phone-speaker.wav");
    reveal_strlit("tablet-laptop.wav");
    reveal_strlit("club-booth.wav");
    reveal_strlit("concert-venue.wav");
    reveal_strlit("mono-radio.wav");
    assert(file_name_of(p) =~= id_text(p) + ".wav"@);
}

/// The identifiers of two different presets differ.
pub proof fn lemma_ids_distinct(a: PresetId, b: PresetId)
    requires
        a != b,
    ensures
        id_text(a) != id_text(b),
{
    reveal_strlit("car-hatchback");
    reveal_strlit("phone-speaker");
    reveal_strlit("tablet-laptop");
    reveal_strlit("club-booth");
    reveal_strlit("concert-venue");
    reveal_strlit("mono-radio");
    assert(id_text(a)[0] != id_text(b)[0] || id_text(a)[1] != id_text(b)[1]);
}

/// The bundled file of each preset, by name.
pub proof fn lemma_file_names_of_presets()
    ensures
        file_name_of(PresetId::CarHatchback) == "car-hatchback.wav"@,
        file_name_of(PresetId::PhoneSpeaker) == "phone-speaker.wav"@,
        file_name_of(PresetId::TabletLaptop) == "tablet-laptop.wav"@,
        file_name_of(PresetId::ClubBooth) == "club-booth.wav"@,
        file_name_of(PresetId::ConcertVenue) == "concert-venue.wav"@,
        file_name_of(PresetId::MonoRadio) == "mono-radio.wav"@,
{
}

/// The descriptive data that belongs to one bundled preset.
pub struct BundledDescriptor {
    pub id: PresetId,
    pub category: PresetCategory,
    pub name: &'static str,
    pub file_name: &'static str,
}

/// The descriptor of a preset.
pub fn descriptor(id: PresetId) -> (d: BundledDescriptor)
    ensures
        d.id == id,
        d.category == category_of(id),
        d.name@ == name_of(id),
        d.file_name@ == file_name_of(id),
        d.file_name@ == id_text(id) + ".wav"@,
{
    proof {
        lemma_file_name_is_own_id(id);
    }
    match id {
        PresetId::CarHatchback => BundledDescriptor {
            id,
            category: PresetCategory::Cars,
            name: "Hatchback",
            file_name: "car-hatchback.wav",
        },
        PresetId::PhoneSpeaker => BundledDescriptor {
            id,
            category: PresetCategory::Phones,
            name: "Phone Speaker",
            file_name: "phone-speaker.wav",
        },
        PresetId::TabletLaptop => BundledDescriptor {
            id,
            category: PresetCategory::TabletsLaptops,
            name: "Tablet / Laptop",
            file_name: "tablet-laptop.wav",
        },
        PresetId::ClubBooth => BundledDescriptor {
            id,
            category: PresetCategory::Clubs,
            name: "Club Booth",
            file_name: "club-booth.wav",
        },
        PresetId::ConcertVenue => BundledDescriptor {
            id,
            category: PresetCategory::ConcertVenues,
            name: "Concert Venue",
            file_name: "concert-venue.wav",
        },
        PresetId::MonoRadio => BundledDescriptor {
            id,
            category: PresetCategory::MonoDevices,
            name: "Mono Radio",
            file_name: "mono-radio.wav",
        },
    }
}

/// Display name of a preset.
pub fn preset_name(id: PresetId) -> (s: &'static str)
    ensures
        s@ == name_of(id),
{
    descriptor(id).name
}

/// Category of a preset.
pub fn preset_category(id: PresetId) -> (c: PresetCategory)
    ensures
        c == category_of(id),
{
    descriptor(id).category
}

/// File name of the impulse response bundled for a preset.
pub fn preset_filename(id: PresetId) -> (s: &'static str)
    ensures
        s@ == file_name_of(id),
        s@ == id_text(id) + ".wav"@,
{
    proof {
        lemma_file_name_is_own_id(id);
    }
    descriptor(id).file_name
}

impl PresetId {
    /// Display names of all presets, in declaration order.
    pub fn variants() -> (v: Vec<&'static str>)
        ensures
            v@.len() == PRESET_COUNT,
            forall|i: int| 0 <= i < PRESET_COUNT ==> #[trigger] v@[i]@ == name_of(preset_at(i)),
    {
        let mut v: Vec<&'static str> = Vec::new();
        let mut i: usize = 0;
        while i < PRESET_COUNT
            invariant
                i <= PRESET_COUNT,
                v@.len() == i,
                forall|j: int| 0 <= j < i ==> #[trigger] v@[j]@ == name_of(preset_at(j)),
            decreases PRESET_COUNT - i,
        {
            v.push(preset_name(PresetId::from_index(i)));
            i = i + 1;
        }
        v
    }
}

/// Every preset has its own impulse-response file: two different presets
/// never share a file name.
pub proof fn lemma_file_names_distinct(a: PresetId, b: PresetId)
    requires
        a != b,
    ensures
        file_name_of(a) != file_name_of(b),
{
    reveal_strlit("car-hatchback.wav");
    reveal_strlit("phone-speaker.wav");
    reveal_strlit("tablet-laptop.wav");
    reveal_strlit("club-booth.wav");
    reveal_strlit("concert-venue.wav");
    reveal_strlit("mono-radio.wav");
    assert(file_name_of(a)[0] != file_name_of(b)[0] || file_name_of(a)[1] != file_name_of(b)[1]);
}

/// Each preset's display name and category, and each category's label.
pub proof fn lemma_preset_descriptions()
    ensures
        name_of(PresetId::CarHatchback) == "Hatchback"@,
        name_of(PresetId::PhoneSpeaker) == "Phone Speaker"@,
        name_of(PresetId::TabletLaptop) == "Tablet / Laptop"@,
        name_of(PresetId::ClubBooth) == "Club Booth"@,
        name_of(PresetId::ConcertVenue) == "Concert Venue"@,
        name_of(PresetId::MonoRadio) == "Mono Radio"@,
        category_of(PresetId::CarHatchback) == PresetCategory::Cars,
        category_of(PresetId::PhoneSpeaker) == PresetCategory::Phones,
        category_of(PresetId::TabletLaptop) == PresetCategory::TabletsLaptops,
        category_of(PresetId::ClubBooth) == PresetCategory::Clubs,
        category_of(PresetId::ConcertVenue) == PresetCategory::ConcertVenues,
        category_of(PresetId::MonoRadio) == PresetCategory::MonoDevices,
        category_label(PresetCategory::Cars) == "Cars"@,
        category_label(PresetCategory::Phones) == "Phones"@,
        category_label(PresetCategory::TabletsLaptops) == "Tablets / Laptops"@,
        category_label(PresetCategory::Clubs) == "Clubs"@,
        category_label(PresetCategory::ConcertVenues) == "Concert / Venues"@,
        category_label(PresetCategory::MonoDevices) == "Mono devices"@,
{
}

/// Declaration order of the presets, which is also the order of their
/// positions.
pub proof fn lemma_preset_order()
    ensures
        preset_at(0) == PresetId::CarHatchback,
        preset_at(1) == PresetId::PhoneSpeaker,
        preset_at(2) == PresetId::TabletLaptop,
        preset_at(3) == PresetId::ClubBooth,
        preset_at(4) == PresetId::ConcertVenue,
        preset_at(5) == PresetId::MonoRadio,
        forall|p: PresetId| preset_at(preset_index(p) as int) == p,
{
}

} // verus!
