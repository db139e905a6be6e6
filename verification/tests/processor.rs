use translate::preset::{PresetId, QuickCycleMode};
use translate::processor::{next_enabled_slot, BlockControls, TranslateProcessor};
use translate::quick_cycle::{QuickCycleAction, QuickCycleShared};

fn controls(mode: QuickCycleMode, num_samples: usize) -> BlockControls {
    BlockControls {
        bypass: false,
        base_preset: PresetId::PhoneSpeaker,
        mode,
        return_to_reference: true,
        switch_samples: 100,
        num_samples,
    }
}

#[test]
fn next_enabled_slot_skips_disabled_slots() {
    let mut shared = QuickCycleShared::new();
    shared.set_slot_enabled(0, false);
    shared.set_slot_enabled(2, false);
    let snapshot = shared.snapshot();
    assert_eq!(next_enabled_slot(&snapshot, None, true, None), Some(1));
    assert_eq!(next_enabled_slot(&snapshot, Some(1), true, None), Some(3));
    assert_eq!(next_enabled_slot(&snapshot, Some(5), true, None), Some(1));
    assert_eq!(next_enabled_slot(&snapshot, None, false, None), Some(5));
    assert_eq!(next_enabled_slot(&snapshot, Some(3), false, None), Some(1));
    assert_eq!(next_enabled_slot(&snapshot, Some(1), false, None), Some(5));
}

#[test]
fn next_enabled_slot_none_when_all_disabled() {
    let mut shared = QuickCycleShared::new();
    for slot in 0..6 {
        shared.set_slot_enabled(slot, false);
    }
    let snapshot = shared.snapshot();
    assert_eq!(next_enabled_slot(&snapshot, None, true, None), None);
    assert_eq!(next_enabled_slot(&snapshot, Some(2), false, None), None);
}

#[test]
fn only_slot_enabled_is_found_again() {
    let mut shared = QuickCycleShared::new();
    for slot in 0..6 {
        shared.set_slot_enabled(slot, slot == 4);
    }
    let snapshot = shared.snapshot();
    assert_eq!(next_enabled_slot(&snapshot, Some(4), true, None), Some(4));
    assert_eq!(next_enabled_slot(&snapshot, Some(4), false, None), Some(4));
}

#[test]
fn manual_cycle_steps_and_returns_to_reference() {
    let mut shared = QuickCycleShared::new();
    let mut processor = TranslateProcessor::default();
    processor.prepare(PresetId::PhoneSpeaker, 100, &mut shared);
    assert_eq!(shared.current_preset(), Some(PresetId::PhoneSpeaker));
    assert_eq!(shared.next_preset(), None);

    let block = controls(QuickCycleMode::Manual, 64);
    assert_eq!(processor.process(&mut shared, &block), Some(PresetId::PhoneSpeaker));
    assert_eq!(shared.next_preset(), Some(PresetId::CarHatchback));

    shared.request_action(QuickCycleAction::StartOrCycle);
    assert_eq!(processor.process(&mut shared, &block), Some(PresetId::CarHatchback));
    assert_eq!(shared.current_preset(), Some(PresetId::CarHatchback));
    assert_eq!(shared.next_preset(), Some(PresetId::PhoneSpeaker));
    assert!(!shared.is_running());

    shared.request_action(QuickCycleAction::Next);
    assert_eq!(processor.process(&mut shared, &block), Some(PresetId::PhoneSpeaker));
    shared.request_action(QuickCycleAction::Previous);
    assert_eq!(processor.process(&mut shared, &block), Some(PresetId::CarHatchback));

    shared.request_action(QuickCycleAction::ReturnToReference);
    assert_eq!(processor.process(&mut shared, &block), Some(PresetId::PhoneSpeaker));
    assert_eq!(shared.next_preset(), Some(PresetId::CarHatchback));
}

#[test]
fn disabled_and_reordered_slots_are_followed() {
    let mut shared = QuickCycleShared::new();
    shared.move_up(5);
    shared.set_slot_enabled(0, false);
    let mut processor = TranslateProcessor::new();
    processor.prepare(PresetId::ClubBooth, 100, &mut shared);
    let block = controls(QuickCycleMode::Manual, 32);
    shared.request_action(QuickCycleAction::Next);
    assert_eq!(processor.process(&mut shared, &block), Some(PresetId::PhoneSpeaker));
    shared.request_action(QuickCycleAction::Previous);
    assert_eq!(processor.process(&mut shared, &block), Some(PresetId::ConcertVenue));
    shared.request_action(QuickCycleAction::Previous);
    assert_eq!(processor.process(&mut shared, &block), Some(PresetId::MonoRadio));
}

#[test]
fn timed_cycle_steps_when_switch_time_elapses() {
    let mut shared = QuickCycleShared::new();
    let mut processor = TranslateProcessor::new();
    processor.prepare(PresetId::PhoneSpeaker, 100, &mut shared);
    let block = controls(QuickCycleMode::Timed, 40);

    shared.request_action(QuickCycleAction::StartOrCycle);
    assert_eq!(processor.process(&mut shared, &block), Some(PresetId::CarHatchback));
    assert!(shared.is_running());
    assert!(processor.is_cycle_running());
    assert_eq!(processor.process(&mut shared, &block), Some(PresetId::CarHatchback));
    assert_eq!(processor.process(&mut shared, &block), Some(PresetId::PhoneSpeaker));
    assert_eq!(processor.process(&mut shared, &block), Some(PresetId::PhoneSpeaker));
    assert_eq!(processor.process(&mut shared, &block), Some(PresetId::PhoneSpeaker));
    assert_eq!(processor.process(&mut shared, &block), Some(PresetId::TabletLaptop));

    shared.request_action(QuickCycleAction::PauseOrStop);
    assert_eq!(processor.process(&mut shared, &block), Some(PresetId::PhoneSpeaker));
    assert!(!shared.is_running());
}

#[test]
fn pause_without_return_keeps_the_slot() {
    let mut shared = QuickCycleShared::new();
    let mut processor = TranslateProcessor::new();
    processor.prepare(PresetId::MonoRadio, 10, &mut shared);
    let mut block = controls(QuickCycleMode::Timed, 4);
    block.return_to_reference = false;
    shared.request_action(QuickCycleAction::StartOrCycle);
    assert_eq!(processor.process(&mut shared, &block), Some(PresetId::CarHatchback));
    shared.request_action(QuickCycleAction::PauseOrStop);
    assert_eq!(processor.process(&mut shared, &block), Some(PresetId::CarHatchback));
    assert!(!shared.is_running());
    for _ in 0..10 {
        assert_eq!(processor.process(&mut shared, &block), Some(PresetId::CarHatchback));
    }
}

#[test]
fn bypass_resets_and_reports() {
    let mut shared = QuickCycleShared::new();
    let mut processor = TranslateProcessor::new();
    processor.prepare(PresetId::ClubBooth, 10, &mut shared);
    let mut block = controls(QuickCycleMode::Timed, 4);
    shared.request_action(QuickCycleAction::StartOrCycle);
    processor.process(&mut shared, &block);
    block.bypass = true;
    assert_eq!(processor.process(&mut shared, &block), None);
    assert!(!processor.is_cycle_running());
    assert_eq!(shared.current_preset(), Some(PresetId::ClubBooth));
    assert_eq!(shared.next_preset(), None);
}

#[test]
fn crossfade_hands_over_after_its_length() {
    let mut processor = TranslateProcessor::new();
    assert!(processor.advance_crossfade().is_none());
    assert!(!processor.sync_ir_target(PresetId::CarHatchback, true, 4));
    assert!(processor.sync_ir_target(PresetId::ClubBooth, true, 3));
    assert_eq!(processor.queued_preset(), PresetId::ClubBooth);
    assert_eq!(processor.current_preset(), PresetId::CarHatchback);
    let first = processor.advance_crossfade().unwrap();
    assert_eq!((first.position, first.samples, first.completed), (0, 3, false));
    let second = processor.advance_crossfade().unwrap();
    assert_eq!((second.position, second.completed), (1, false));
    let third = processor.advance_crossfade().unwrap();
    assert_eq!((third.position, third.completed), (2, true));
    assert_eq!(processor.current_preset(), PresetId::ClubBooth);
    assert_eq!(processor.pending_preset(), None);
    assert!(processor.advance_crossfade().is_none());
}

#[test]
fn crossfade_restarts_on_decay_change_and_has_at_least_one_sample() {
    let mut processor = TranslateProcessor::new();
    assert!(processor.sync_ir_target(PresetId::CarHatchback, false, 0));
    let step = processor.advance_crossfade().unwrap();
    assert_eq!((step.position, step.samples, step.completed), (0, 1, true));
    assert_eq!(processor.current_preset(), PresetId::CarHatchback);
}

#[test]
fn reported_next_preset_is_what_next_plays() {
    let mut shared = QuickCycleShared::new();
    shared.set_slot_enabled(0, false);
    shared.set_slot_enabled(1, false);
    shared.move_down(3);
    let mut processor = TranslateProcessor::new();
    processor.prepare(PresetId::MonoRadio, 100, &mut shared);
    let block = controls(QuickCycleMode::Manual, 16);
    for _ in 0..8 {
        processor.process(&mut shared, &block);
        let announced = shared.next_preset().unwrap();
        shared.request_action(QuickCycleAction::Next);
        assert_eq!(processor.process(&mut shared, &block), Some(announced));
    }
}
