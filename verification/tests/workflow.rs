use translate::preset::{PresetId, QuickCycleMode};
use translate::ui::ab_button_label;
use translate::workflow::{
    CompareSlotId, ParameterSnapshot, WorkflowShared, DEFAULT_SAMPLE_RATE_BITS, UNIT_GAIN_BITS,
};

fn snapshot(preset: PresetId, mix: f32) -> ParameterSnapshot {
    ParameterSnapshot {
        preset,
        decay: 1.0f32.to_bits(),
        mix: mix.to_bits(),
        width: 1.0f32.to_bits(),
        low: 0.0f32.to_bits(),
        high: (-3.0f32).to_bits(),
        output: 1.0f32.to_bits(),
        mono: false,
        bypass: false,
        quick_cycle_mode: QuickCycleMode::Timed,
        quick_cycle_switch_time_ms: 2500,
        quick_cycle_crossfade_ms: 30,
        loudness_lock: true,
        quick_cycle_return_to_reference: true,
        safety_limiter: false,
    }
}

#[test]
fn defaults_match_float_values() {
    assert_eq!(DEFAULT_SAMPLE_RATE_BITS, 44_100.0f32.to_bits());
    assert_eq!(UNIT_GAIN_BITS, 1.0f32.to_bits());
    let shared = WorkflowShared::default();
    let s = shared.snapshot();
    assert_eq!(f32::from_bits(s.sample_rate), 44_100.0);
    assert_eq!(f32::from_bits(s.loudness_compensation_gain), 1.0);
    assert_eq!(f32::from_bits(s.input_peak), 0.0);
    assert_eq!(s.active_preset, None);
    assert_eq!(s.active_compare_slot, CompareSlotId::NoSlot);
    assert!(!s.has_a_snapshot && !s.has_b_snapshot);
}

#[test]
fn stored_snapshots_are_recalled() {
    let mut shared = WorkflowShared::new();
    assert!(shared.recall_a().is_none());
    shared.store_a(snapshot(PresetId::ClubBooth, 0.5));
    assert!(shared.snapshot().has_a_snapshot);
    assert!(!shared.snapshot().has_b_snapshot);
    shared.store_b(snapshot(PresetId::MonoRadio, 0.25));
    let a = shared.recall_a().unwrap();
    let b = shared.recall_b().unwrap();
    assert_eq!(a.preset, PresetId::ClubBooth);
    assert_eq!(f32::from_bits(a.mix), 0.5);
    assert_eq!(b.preset, PresetId::MonoRadio);
    assert_eq!(f32::from_bits(b.mix), 0.25);
    shared.store_a(snapshot(PresetId::PhoneSpeaker, 1.0));
    assert_eq!(shared.recall_a().unwrap().preset, PresetId::PhoneSpeaker);
    assert_eq!(shared.recall_b().unwrap().preset, PresetId::MonoRadio);
}

#[test]
fn status_and_meters_read_back() {
    let mut shared = WorkflowShared::new();
    shared.update_status(
        48_000.0f32.to_bits(),
        0,
        2048,
        Some(PresetId::ConcertVenue),
        0.5f32.to_bits(),
        (-1.5f32).to_bits(),
        true,
    );
    shared.update_meters(0.25f32.to_bits(), 0.75f32.to_bits());
    shared.set_active_compare_slot(CompareSlotId::B);
    let s = shared.snapshot();
    assert_eq!(f32::from_bits(s.sample_rate), 48_000.0);
    assert_eq!(s.ir_samples, 2048);
    assert_eq!(s.active_preset, Some(PresetId::ConcertVenue));
    assert_eq!(f32::from_bits(s.loudness_compensation_gain), 0.5);
    assert_eq!(f32::from_bits(s.limiter_gain_reduction_db), -1.5);
    assert!(s.bypass_active);
    assert_eq!(f32::from_bits(s.input_peak), 0.25);
    assert_eq!(f32::from_bits(s.output_peak), 0.75);
    assert_eq!(s.active_compare_slot, CompareSlotId::B);
    shared.update_status(44_100.0f32.to_bits(), 3, 10, None, 1.0f32.to_bits(), 0, false);
    assert_eq!(shared.snapshot().active_preset, None);
}

#[test]
fn compare_slot_codes_round_trip() {
    for slot in [CompareSlotId::NoSlot, CompareSlotId::A, CompareSlotId::B] {
        assert_eq!(CompareSlotId::from_code(slot.code()), slot);
    }
    assert_eq!(CompareSlotId::A.code(), 1);
    assert_eq!(CompareSlotId::from_code(9), CompareSlotId::NoSlot);
}

#[test]
fn ab_labels() {
    assert_eq!(ab_button_label("Use A", true), "Use A *");
    assert_eq!(ab_button_label("Use B", false), "Use B");
}
