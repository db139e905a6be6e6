use translate::ir::{BundledIr, IrState, StereoIr};
use translate::preset::{PresetId, PRESET_COUNT};

fn ir_for(id: PresetId, rate: u32) -> StereoIr<i32> {
    let len = id.to_index() + 2;
    StereoIr {
        sample_rate: rate,
        left: (0..len as i32).collect(),
        right: (0..len as i32 + 1).map(|x| -x).collect(),
    }
}

fn halve(ir: &StereoIr<i32>, rate: u32) -> StereoIr<i32> {
    let keep = (ir.len() + 1) / 2;
    StereoIr {
        sample_rate: rate,
        left: ir.left.iter().copied().take(keep).collect(),
        right: ir.right.iter().copied().take(keep).collect(),
    }
}

#[test]
fn stereo_ir_len_is_shorter_channel() {
    let ir = StereoIr { sample_rate: 1, left: vec![1, 2, 3], right: vec![4, 5] };
    assert_eq!(ir.len(), 2);
    let ir = StereoIr { sample_rate: 1, left: vec![1], right: vec![4, 5] };
    assert_eq!(ir.len(), 1);
}

#[test]
fn load_all_decodes_every_preset_in_order() {
    let loaded: Result<Vec<BundledIr<i32>>, String> =
        BundledIr::load_all(|id| Ok(ir_for(id, 48_000)));
    let loaded = loaded.unwrap();
    assert_eq!(loaded.len(), PRESET_COUNT);
    for (index, preset) in loaded.iter().enumerate() {
        assert_eq!(preset.id, PresetId::from_index(index));
        assert_eq!(preset.ir.len(), index + 2);
    }
}

#[test]
fn load_all_stops_at_first_failure() {
    let loaded: Result<Vec<BundledIr<i32>>, String> = BundledIr::load_all(|id| {
        if id == PresetId::ClubBooth || id == PresetId::MonoRadio {
            Err(format!("bad {:?}", id))
        } else {
            Ok(ir_for(id, 48_000))
        }
    });
    assert_eq!(loaded.unwrap_err(), "bad ClubBooth");
}

#[test]
fn prepare_resamples_each_preset_once_per_rate() {
    let mut state: IrState<i32> = IrState::default();
    assert_eq!(state.max_prepared_len(), 1);
    let loads = std::cell::Cell::new(0);
    let load = || {
        loads.set(loads.get() + 1);
        BundledIr::load_all(|id| Ok::<_, String>(ir_for(id, 48_000))).unwrap()
    };
    state.prepare_for_sample_rate(44_100, load, halve);
    assert_eq!(loads.get(), 1);
    for index in 0..PRESET_COUNT {
        let id = PresetId::from_index(index);
        let prepared = state.prepared_preset(id);
        assert_eq!(prepared.id, id);
        assert_eq!(prepared.ir.sample_rate, 44_100);
        assert_eq!(state.prepared_ir_len(id), (index + 3) / 2);
    }
    assert_eq!(state.max_prepared_len(), 4);

    let calls = std::cell::Cell::new(0);
    let counting = |ir: &StereoIr<i32>, rate: u32| {
        calls.set(calls.get() + 1);
        halve(ir, rate)
    };
    state.prepare_for_sample_rate(44_100, || Vec::new(), &counting);
    assert_eq!(calls.get(), 0);
    state.prepare_for_sample_rate(
        96_000,
        || panic!("already loaded"),
        |ir: &StereoIr<i32>, rate: u32| StereoIr { sample_rate: rate, left: ir.left.clone(), right: ir.right.clone() },
    );
    assert_eq!(state.max_prepared_len(), 7);
    assert_eq!(state.prepared_preset(PresetId::CarHatchback).ir.sample_rate, 96_000);
}

#[test]
fn resampling_needed_only_for_other_rates_and_longer_responses() {
    let ir = StereoIr { sample_rate: 48_000, left: vec![1, 2, 3], right: vec![4, 5, 6] };
    assert!(!ir.needs_resampling(48_000));
    assert!(ir.needs_resampling(44_100));
    let single = StereoIr { sample_rate: 48_000, left: vec![1, 2], right: vec![4] };
    assert!(!single.needs_resampling(44_100));
}
