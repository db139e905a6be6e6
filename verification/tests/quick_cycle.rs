use translate::preset::{PresetId, PRESET_COUNT};
use translate::quick_cycle::{preset_from_u32, preset_to_u32, QuickCycleAction, QuickCycleShared, NONE_INDEX};

fn order_of(shared: &QuickCycleShared) -> Vec<PresetId> {
    shared.snapshot().slots.iter().map(|slot| slot.preset).collect()
}

#[test]
fn default_cycle_list_is_declaration_order_all_enabled() {
    let shared = QuickCycleShared::default();
    let snapshot = shared.snapshot();
    for slot in 0..PRESET_COUNT {
        assert_eq!(snapshot.slots[slot].preset, PresetId::from_index(slot));
        assert!(snapshot.slots[slot].enabled);
    }
    assert_eq!(shared.current_preset(), None);
    assert_eq!(shared.next_preset(), None);
    assert!(!shared.is_running());
}

#[test]
fn move_up_and_down_reorder_and_undo() {
    let mut shared = QuickCycleShared::new();
    shared.move_up(2);
    assert_eq!(
        order_of(&shared),
        vec![
            PresetId::CarHatchback,
            PresetId::TabletLaptop,
            PresetId::PhoneSpeaker,
            PresetId::ClubBooth,
            PresetId::ConcertVenue,
            PresetId::MonoRadio
        ]
    );
    shared.move_down(1);
    assert_eq!(order_of(&shared), order_of(&QuickCycleShared::new()));
    shared.move_up(0);
    shared.move_down(5);
    shared.move_up(17);
    shared.move_down(40);
    assert_eq!(order_of(&shared), order_of(&QuickCycleShared::new()));
    shared.move_down(4);
    assert_eq!(order_of(&shared)[4], PresetId::MonoRadio);
    assert_eq!(order_of(&shared)[5], PresetId::ConcertVenue);
}

#[test]
fn enabled_flags_read_back() {
    let mut shared = QuickCycleShared::new();
    shared.set_slot_enabled(3, false);
    assert!(!shared.is_slot_enabled(3));
    assert!(shared.is_slot_enabled(2));
    assert!(!shared.snapshot().slots[3].enabled);
    shared.set_slot_enabled(3, true);
    assert!(shared.is_slot_enabled(3));
}

#[test]
fn taken_action_is_the_requested_one_once() {
    let mut shared = QuickCycleShared::new();
    assert_eq!(shared.take_action(), QuickCycleAction::NoAction);
    shared.request_action(QuickCycleAction::Previous);
    shared.request_action(QuickCycleAction::Next);
    assert_eq!(shared.take_action(), QuickCycleAction::Next);
    assert_eq!(shared.take_action(), QuickCycleAction::NoAction);
}

#[test]
fn status_reads_back() {
    let mut shared = QuickCycleShared::new();
    shared.set_status(Some(PresetId::ClubBooth), Some(PresetId::MonoRadio), true);
    assert_eq!(shared.current_preset(), Some(PresetId::ClubBooth));
    assert_eq!(shared.next_preset(), Some(PresetId::MonoRadio));
    assert!(shared.is_running());
    shared.set_status(None, None, false);
    assert_eq!(shared.current_preset(), None);
    assert!(!shared.is_running());
}

#[test]
fn action_codes_round_trip() {
    let actions = [
        QuickCycleAction::NoAction,
        QuickCycleAction::Previous,
        QuickCycleAction::StartOrCycle,
        QuickCycleAction::PauseOrStop,
        QuickCycleAction::Next,
        QuickCycleAction::ReturnToReference,
    ];
    for (code, action) in actions.iter().enumerate() {
        assert_eq!(action.code(), code as u32);
        assert_eq!(QuickCycleAction::from_code(action.code()), *action);
    }
    assert_eq!(QuickCycleAction::from_code(6), QuickCycleAction::NoAction);
    assert_eq!(QuickCycleAction::from_code(u32::MAX), QuickCycleAction::NoAction);
}

#[test]
fn preset_codes_round_trip() {
    assert_eq!(preset_from_u32(NONE_INDEX), None);
    assert_eq!(preset_to_u32(PresetId::ConcertVenue), 4);
    assert_eq!(preset_from_u32(4), Some(PresetId::ConcertVenue));
}

#[test]
fn reordering_keeps_every_preset_exactly_once() {
    let mut shared = QuickCycleShared::new();
    for step in 0..40usize {
        shared.move_up((step * 7) % 6);
        shared.move_down((step * 5) % 6);
    }
    let mut seen: Vec<usize> = order_of(&shared).iter().map(|p| p.to_index()).collect();
    seen.sort();
    assert_eq!(seen, vec![0, 1, 2, 3, 4, 5]);
}
