//! Workflow state shared between the audio side and the editor: the A/B
//! compare snapshots, the active compare slot, and the status and meter
//! readings. Gains, levels and rates travel as the IEEE-754 bit patterns of
//! their single-precision values, exactly as the editor and the audio side
//! exchange them.

use vstd::prelude::*;
use crate::preset::{PresetId, QuickCycleMode, PRESET_COUNT};
use crate::quick_cycle::{NONE_INDEX, preset_from_u32, preset_to_u32};

verus! {

/// Bit pattern of a single-precision zero.
pub const ZERO_BITS: u32 = 0;

/// Bit pattern of the single-precision unit gain.
pub const UNIT_GAIN_BITS: u32 = 0x3f80_0000;

/// Bit pattern of the single-precision default sample rate (44.1 kHz).
pub const DEFAULT_SAMPLE_RATE_BITS: u32 = 0x472c_4400;

/// Which A/B snapshot was last recalled.
#[derive(Clone, Copy, Debug, PartialEq, Eq, Structural)]
pub enum CompareSlotId {
    NoSlot,
    A,
    B,
}

/// Numeric code of a compare slot.
pub open spec fn slot_code(s: CompareSlotId) -> u32 {
    match s {
        CompareSlotId::NoSlot => 0,
        CompareSlotId::A => 1,
        CompareSlotId::B => 2,
    }
}

/// Compare slot of a numeric code; unknown codes mean no slot.
pub open spec fn slot_of_code(code: u32) -> CompareSlotId {
    if code == 1 {
        CompareSlotId::A
    } else if code == 2 {
        CompareSlotId::B
    } else {
        CompareSlotId::NoSlot
    }
}

impl CompareSlotId {
    /// Numeric code of this slot.
    pub fn code(self) -> (c: u32)
        ensures
            c == slot_code(self),
    {
        match self {
            CompareSlotId::NoSlot => 0,
            CompareSlotId::A => 1,
            CompareSlotId::B => 2,
        }
    }

    /// The slot with numeric code `code`; any unknown code is `NoSlot`.
    pub fn from_code(code: u32) -> (s: CompareSlotId)
        ensures
            s == slot_of_code(code),
    {
        match code {
            1 => CompareSlotId::A,
            2 => CompareSlotId::B,
            _ => CompareSlotId::NoSlot,
        }
    }
}

/// Decoding the code of a compare slot gives the slot back.
pub proof fn lemma_slot_code_round_trip(s: CompareSlotId)
    ensures
        slot_of_code(slot_code(s)) == s,
{
}

/// The numeric codes of the compare slots, and every other code read as no
/// slot.
pub proof fn lemma_slot_codes(code: u32)
    ensures
        slot_code(CompareSlotId::NoSlot) == 0,
        slot_code(CompareSlotId::A) == 1,
        slot_code(CompareSlotId::B) == 2,
        code > 2 ==> slot_of_code(code) == CompareSlotId::NoSlot,
        code <= 2 ==> slot_code(slot_of_code(code)) == code,
{
}

/// The plugin settings captured by "Store A" or "Store B".
#[derive(Clone, Copy, Debug)]
pub struct ParameterSnapshot {
    pub preset: PresetId,
    /// Bit pattern of the decay amount.
    pub decay: u32,
    /// Bit pattern of the dry/wet mix.
    pub mix: u32,
    /// Bit pattern of the stereo width.
    pub width: u32,
    /// Bit pattern of the low-shelf gain in dB.
    pub low: u32,
    /// Bit pattern of the high-shelf gain in dB.
    pub high: u32,
    /// Bit pattern of the output gain.
    pub output: u32,
    pub mono: bool,
    pub bypass: bool,
    pub quick_cycle_mode: QuickCycleMode,
    pub quick_cycle_switch_time_ms: i32,
    pub quick_cycle_crossfade_ms: i32,
    pub loudness_lock: bool,
    pub quick_cycle_return_to_reference: bool,
    pub safety_limiter: bool,
}

/// The workflow state as the editor reads it at one moment.
#[derive(Clone, Copy, Debug)]
pub struct WorkflowSnapshot {
    /// Bit pattern of the input peak level.
    pub input_peak: u32,
    /// Bit pattern of the output peak level.
    pub output_peak: u32,
    /// Bit pattern of the host sample rate.
    pub sample_rate: u32,
    pub latency_samples: u32,
    pub ir_samples: u32,
    pub active_preset: Option<PresetId>,
    /// Bit pattern of the loudness compensation gain.
    pub loudness_compensation_gain: u32,
    /// Bit pattern of the limiter gain reduction in dB.
    pub limiter_gain_reduction_db: u32,
    pub bypass_active: bool,
    pub active_compare_slot: CompareSlotId,
    pub has_a_snapshot: bool,
    pub has_b_snapshot: bool,
}

/// The two A/B compare snapshots.
#[derive(Debug)]
struct CompareState {
    a: Option<ParameterSnapshot>,
    b: Option<ParameterSnapshot>,
}

/// Shared workflow state.
#[derive(Debug)]
pub struct WorkflowShared {
    input_peak: u32,
    output_peak: u32,
    sample_rate: u32,
    latency_samples: u32,
    ir_samples: u32,
    active_preset: u32,
    loudness_compensation_gain: u32,
    limiter_gain_reduction_db: u32,
    bypass_active: bool,
    active_compare_slot: u32,
    compare_state: CompareState,
}

/// What the shared workflow state holds, as mathematical values.
pub struct WorkflowState {
    pub input_peak: u32,
    pub output_peak: u32,
    pub sample_rate: u32,
    pub latency_samples: u32,
    pub ir_samples: u32,
    pub active_preset: Option<PresetId>,
    pub loudness_compensation_gain: u32,
    pub limiter_gain_reduction_db: u32,
    pub bypass_active: bool,
    pub active_compare_slot: CompareSlotId,
    pub a: Option<ParameterSnapshot>,
    pub b: Option<ParameterSnapshot>,
}

impl WorkflowState {
    /// The state after "Store A".
    pub open spec fn stored_a(self, snapshot: ParameterSnapshot) -> WorkflowState {
        WorkflowState { a: Some(snapshot), ..self }
    }

    /// The state after "Store B".
    pub open spec fn stored_b(self, snapshot: ParameterSnapshot) -> WorkflowState {
        WorkflowState { b: Some(snapshot), ..self }
    }

    /// The state after a compare slot is marked active.
    pub open spec fn with_compare_slot(self, slot: CompareSlotId) -> WorkflowState {
        WorkflowState { active_compare_slot: slot, ..self }
    }

    /// The state after the audio side reports its status.
    pub open spec fn with_status(
        self,
        sample_rate: u32,
        latency_samples: u32,
        ir_samples: u32,
        active_preset: Option<PresetId>,
        loudness_compensation_gain: u32,
        limiter_gain_reduction_db: u32,
        bypass_active: bool,
    ) -> WorkflowState {
        WorkflowState {
            sample_rate,
            latency_samples,
            ir_samples,
            active_preset,
            loudness_compensation_gain,
            limiter_gain_reduction_db,
            bypass_active,
            ..self
        }
    }

    /// The state after the audio side reports its meter readings.
    pub open spec fn with_meters(self, input_peak: u32, output_peak: u32) -> WorkflowState {
        WorkflowState { input_peak, output_peak, ..self }
    }

    /// What the editor reads from this state.
    pub open spec fn snapshot(self) -> WorkflowSnapshot {
        WorkflowSnapshot {
            input_peak: self.input_peak,
            output_peak: self.output_peak,
            sample_rate: self.sample_rate,
            latency_samples: self.latency_samples,
            ir_samples: self.ir_samples,
            active_preset: self.active_preset,
            loudness_compensation_gain: self.loudness_compensation_gain,
            limiter_gain_reduction_db: self.limiter_gain_reduction_db,
            bypass_active: self.bypass_active,
            active_compare_slot: self.active_compare_slot,
            has_a_snapshot: self.a is Some,
            has_b_snapshot: self.b is Some,
        }
    }
}

impl View for WorkflowShared {
    type V = WorkflowState;

    closed spec fn view(&self) -> WorkflowState {
        WorkflowState {
            input_peak: self.input_peak,
            output_peak: self.output_peak,
            sample_rate: self.sample_rate,
            latency_samples: self.latency_samples,
            ir_samples: self.ir_samples,
            active_preset: crate::quick_cycle::preset_of_code(self.active_preset),
            loudness_compensation_gain: self.loudness_compensation_gain,
            limiter_gain_reduction_db: self.limiter_gain_reduction_db,
            bypass_active: self.bypass_active,
            active_compare_slot: slot_of_code(self.active_compare_slot),
            a: self.compare_state.a,
            b: self.compare_state.b,
        }
    }
}

impl WorkflowShared {
    /// The stored preset code is valid.
    pub closed spec fn wf(&self) -> bool {
        self.active_preset == NONE_INDEX || self.active_preset < PRESET_COUNT
    }

    /// Nothing measured or stored yet: silent meters, the default sample
    /// rate, unit loudness gain, no preset, no compare slot.
    pub fn new() -> (w: WorkflowShared)
        ensures
            w.wf(),
            w@.input_peak == ZERO_BITS,
            w@.output_peak == ZERO_BITS,
            w@.sample_rate == DEFAULT_SAMPLE_RATE_BITS,
            w@.latency_samples == 0,
            w@.ir_samples == 0,
            w@.active_preset is None,
            w@.loudness_compensation_gain == UNIT_GAIN_BITS,
            w@.limiter_gain_reduction_db == ZERO_BITS,
            !w@.bypass_active,
            w@.active_compare_slot == CompareSlotId::NoSlot,
            w@.a is None,
            w@.b is None,
    {
        WorkflowShared {
            input_peak: ZERO_BITS,
            output_peak: ZERO_BITS,
            sample_rate: DEFAULT_SAMPLE_RATE_BITS,
            latency_samples: 0,
            ir_samples: 0,
            active_preset: NONE_INDEX,
            loudness_compensation_gain: UNIT_GAIN_BITS,
            limiter_gain_reduction_db: ZERO_BITS,
            bypass_active: false,
            active_compare_slot: CompareSlotId::NoSlot.code(),
            compare_state: CompareState { a: None, b: None },
        }
    }

    /// Keeps `snapshot` as compare slot A.
    pub fn store_a(&mut self, snapshot: ParameterSnapshot)
        requires
            old(self).wf(),
        ensures
            final(self).wf(),
            final(self)@ == old(self)@.stored_a(snapshot),
            final(self)@.a == Some(snapshot),
            final(self)@.b == old(self)@.b,
            final(self)@.active_compare_slot == old(self)@.active_compare_slot,
    {
        self.compare_state.a = Some(snapshot);
    }

    /// Keeps `snapshot` as compare slot B.
    pub fn store_b(&mut self, snapshot: ParameterSnapshot)
        requires
            old(self).wf(),
        ensures
            final(self).wf(),
            final(self)@ == old(self)@.stored_b(snapshot),
            final(self)@.b == Some(snapshot),
            final(self)@.a == old(self)@.a,
            final(self)@.active_compare_slot == old(self)@.active_compare_slot,
    {
        self.compare_state.b = Some(snapshot);
    }

    /// The snapshot kept in slot A, if any.
    pub fn recall_a(&self) -> (s: Option<ParameterSnapshot>)
        ensures
            s == self@.a,
    {
        self.compare_state.a
    }

    /// The snapshot kept in slot B, if any.
    pub fn recall_b(&self) -> (s: Option<ParameterSnapshot>)
        ensures
            s == self@.b,
    {
        self.compare_state.b
    }

    /// Marks `slot` as the compare slot last recalled.
    pub fn set_active_compare_slot(&mut self, slot: CompareSlotId)
        requires
            old(self).wf(),
        ensures
            final(self).wf(),
            final(self)@ == old(self)@.with_compare_slot(slot),
            final(self)@.active_compare_slot == slot,
            final(self)@.a == old(self)@.a && final(self)@.b == old(self)@.b,
    {
        self.active_compare_slot = slot.code();
        proof {
            lemma_slot_code_round_trip(slot);
        }
    }

    /// Records the status that the audio side reports.
    pub fn update_status(
        &mut self,
        sample_rate: u32,
        latency_samples: u32,
        ir_samples: u32,
        active_preset: Option<PresetId>,
        loudness_compensation_gain: u32,
        limiter_gain_reduction_db: u32,
        bypass_active: bool,
    )
        requires
            old(self).wf(),
        ensures
            final(self).wf(),
            final(self)@ == old(self)@.with_status(
                sample_rate,
                latency_samples,
                ir_samples,
                active_preset,
                loudness_compensation_gain,
                limiter_gain_reduction_db,
                bypass_active,
            ),
            final(self)@.sample_rate == sample_rate,
            final(self)@.latency_samples == latency_samples,
            final(self)@.ir_samples == ir_samples,
            final(self)@.active_preset == active_preset,
            final(self)@.loudness_compensation_gain == loudness_compensation_gain,
            final(self)@.limiter_gain_reduction_db == limiter_gain_reduction_db,
            final(self)@.bypass_active == bypass_active,
            final(self)@.a == old(self)@.a && final(self)@.b == old(self)@.b,
            final(self)@.input_peak == old(self)@.input_peak,
    {
        self.sample_rate = sample_rate;
        self.latency_samples = latency_samples;
        self.ir_samples = ir_samples;
        self.active_preset = match active_preset {
            Some(preset) => preset_to_u32(preset),
            None => NONE_INDEX,
        };
        self.loudness_compensation_gain = loudness_compensation_gain;
        self.limiter_gain_reduction_db = limiter_gain_reduction_db;
        self.bypass_active = bypass_active;
        proof {
            crate::quick_cycle::lemma_preset_code_round_trip(active_preset);
        }
    }

    /// Records the meter readings of the last block.
    pub fn update_meters(&mut self, input_peak: u32, output_peak: u32)
        requires
            old(self).wf(),
        ensures
            final(self).wf(),
            final(self)@ == old(self)@.with_meters(input_peak, output_peak),
            final(self)@.input_peak == input_peak && final(self)@.output_peak == output_peak,
            final(self)@.a == old(self)@.a && final(self)@.b == old(self)@.b,
    {
        self.input_peak = input_peak;
        self.output_peak = output_peak;
    }

    /// Everything the editor shows, read at once.
    pub fn snapshot(&self) -> (s: WorkflowSnapshot)
        requires
            self.wf(),
        ensures
            s == self@.snapshot(),
            s.has_a_snapshot == (self@.a is Some),
            s.has_b_snapshot == (self@.b is Some),
            s.active_compare_slot == self@.active_compare_slot,
            s.active_preset == self@.active_preset,
    {
        WorkflowSnapshot {
            input_peak: self.input_peak,
            output_peak: self.output_peak,
            sample_rate: self.sample_rate,
            latency_samples: self.latency_samples,
            ir_samples: self.ir_samples,
            active_preset: preset_from_u32(self.active_preset),
            loudness_compensation_gain: self.loudness_compensation_gain,
            limiter_gain_reduction_db: self.limiter_gain_reduction_db,
            bypass_active: self.bypass_active,
            active_compare_slot: CompareSlotId::from_code(self.active_compare_slot),
            has_a_snapshot: self.compare_state.a.is_some(),
            has_b_snapshot: self.compare_state.b.is_some(),
        }
    }
}

impl Default for WorkflowShared {
    fn default() -> (w: WorkflowShared)
        ensures
            w.wf(),
            w@.input_peak == ZERO_BITS,
            w@.output_peak == ZERO_BITS,
            w@.sample_rate == DEFAULT_SAMPLE_RATE_BITS,
            w@.latency_samples == 0,
            w@.ir_samples == 0,
            w@.active_preset is None,
            w@.loudness_compensation_gain == UNIT_GAIN_BITS,
            w@.limiter_gain_reduction_db == ZERO_BITS,
            !w@.bypass_active,
            w@.active_compare_slot == CompareSlotId::NoSlot,
            w@.a is None,
            w@.b is None,
    {
        WorkflowShared::new()
    }
}

/// A snapshot kept in a compare slot is what that slot recalls until it is
/// stored again; storing one slot leaves the other alone; the editor sees a
/// slot as filled once something is stored in it.
pub proof fn lemma_store_then_recall(w: WorkflowState, x: ParameterSnapshot, y: ParameterSnapshot)
    ensures
        w.stored_a(x).a == Some(x),
        w.stored_a(x).b == w.b,
        w.stored_b(y).b == Some(y),
        w.stored_b(y).a == w.a,
        w.stored_a(x).stored_b(y).a == Some(x),
        w.stored_a(x).snapshot().has_a_snapshot,
        w.stored_b(y).snapshot().has_b_snapshot,
        w.stored_a(x).snapshot().has_b_snapshot == (w.b is Some),
        w.stored_a(y).stored_a(x).a == Some(x),
{
}

/// The editor reads back the status, meters and compare slot last reported.
pub proof fn lemma_status_reads_back(
    w: WorkflowState,
    sample_rate: u32,
    latency_samples: u32,
    ir_samples: u32,
    active_preset: Option<PresetId>,
    gain: u32,
    reduction: u32,
    bypass_active: bool,
    input_peak: u32,
    output_peak: u32,
    slot: CompareSlotId,
)
    ensures
        ({
            let s = w.with_status(
                sample_rate,
                latency_samples,
                ir_samples,
                active_preset,
                gain,
                reduction,
                bypass_active,
            ).snapshot();
            &&& s.sample_rate == sample_rate
            &&& s.latency_samples == latency_samples
            &&& s.ir_samples == ir_samples
            &&& s.active_preset == active_preset
            &&& s.loudness_compensation_gain == gain
            &&& s.limiter_gain_reduction_db == reduction
            &&& s.bypass_active == bypass_active
            &&& s.input_peak == w.input_peak
        }),
        w.with_meters(input_peak, output_peak).snapshot().input_peak == input_peak,
        w.with_meters(input_peak, output_peak).snapshot().output_peak == output_peak,
        w.with_compare_slot(slot).snapshot().active_compare_slot == slot,
        w.with_compare_slot(slot).a == w.a && w.with_compare_slot(slot).b == w.b,
{
}

/// The editor sees a compare slot as filled exactly when that slot holds a
/// snapshot: an empty slot A is never shown as filled, whatever slot B holds,
/// and the other way round.
pub proof fn lemma_filled_flags_match_slots(w: WorkflowState, x: ParameterSnapshot)
    ensures
        w.snapshot().has_a_snapshot <==> w.a is Some,
        w.snapshot().has_b_snapshot <==> w.b is Some,
        w.a is None ==> !w.stored_b(x).snapshot().has_a_snapshot,
        w.b is None ==> !w.stored_a(x).snapshot().has_b_snapshot,
        w.stored_a(x).snapshot().has_a_snapshot,
        w.stored_b(x).snapshot().has_b_snapshot,
{
}

} // verus!
