//! Control side of the audio processor: the Quick Cycle stepping engine,
//! which preset the audio side plays, and the crossfade between presets.
//! The sample arithmetic itself runs outside this crate; it asks this state
//! machine what to play, feeds it the block sizes and crossfade lengths it
//! measures, and follows the steps it reports.

use vstd::prelude::*;
use crate::preset::{PresetId, QuickCycleMode, PRESET_COUNT};
use crate::quick_cycle::{
    CycleSlot, QuickCycleAction, QuickCycleShared, QuickCycleSnapshot, QuickCycleState,
};

verus! {

/// Slot the search starts from: the current slot, or the end that makes the
/// first candidate the first slot in the search direction.
pub open spec fn search_start(current_slot: Option<usize>, forward: bool) -> int {
    match current_slot {
        Some(s) => s as int,
        None => if forward {
            PRESET_COUNT - 1
        } else {
            0
        },
    }
}

/// The slot `offset` places away from `start` in the search direction,
/// wrapping around the list.
pub open spec fn candidate_slot(start: int, offset: int, forward: bool) -> int {
    if forward {
        (start + offset) % (PRESET_COUNT as int)
    } else {
        (start + PRESET_COUNT - offset) % (PRESET_COUNT as int)
    }
}

/// First enabled slot among the candidates at offsets `offset..=PRESET_COUNT`.
pub open spec fn scan_enabled(slots: Seq<CycleSlot>, start: int, forward: bool, offset: int) -> Option<usize>
    decreases PRESET_COUNT + 1 - offset,
{
    if offset < 1 || offset > PRESET_COUNT {
        None
    } else if slots[candidate_slot(start, offset, forward)].enabled {
        Some(candidate_slot(start, offset, forward) as usize)
    } else {
        scan_enabled(slots, start, forward, offset + 1)
    }
}

/// Whether some slot of the list is enabled.
pub open spec fn any_enabled(slots: Seq<CycleSlot>) -> bool {
    exists|i: int| 0 <= i < PRESET_COUNT && #[trigger] slots[i].enabled
}

/// The next enabled slot after `current_slot` (or from the start of the list)
/// in the search direction; none when every slot is disabled.
pub open spec fn next_enabled(slots: Seq<CycleSlot>, current_slot: Option<usize>, forward: bool) -> Option<usize> {
    if !any_enabled(slots) {
        None
    } else {
        scan_enabled(slots, search_start(current_slot, forward), forward, 1)
    }
}

/// Finds the next enabled slot after `current_slot`, wrapping around the list;
/// `None` when every slot is disabled.
pub fn next_enabled_slot(
    snapshot: &QuickCycleSnapshot,
    current_slot: Option<usize>,
    forward: bool,
    _base_preset: Option<PresetId>,
) -> (r: Option<usize>)
    requires
        current_slot matches Some(s) ==> s + PRESET_COUNT <= usize::MAX,
    ensures
        r == next_enabled(snapshot.slots@, current_slot, forward),
        r matches Some(k) ==> exists|d: int|
            1 <= d <= PRESET_COUNT && k == candidate_slot(search_start(current_slot, forward), d, forward)
                && forall|e: int|
                1 <= e < d ==> !#[trigger] snapshot.slots@[candidate_slot(
                    search_start(current_slot, forward),
                    e,
                    forward,
                )].enabled,
        r matches Some(k) ==> k < PRESET_COUNT && snapshot.slots@[k as int].enabled,
        r is None <==> !any_enabled(snapshot.slots@),
{
    let mut i: usize = 0;
    let mut any = false;
    while i < PRESET_COUNT
        invariant
            i <= PRESET_COUNT,
            any <==> exists|j: int| 0 <= j < i && #[trigger] snapshot.slots@[j].enabled,
        decreases PRESET_COUNT - i,
    {
        if snapshot.slots[i].enabled {
            any = true;
        }
        i = i + 1;
    }
    proof {
        if let Some(s) = current_slot {
            if s < PRESET_COUNT {
                lemma_next_enabled_skips_disabled(snapshot.slots@, current_slot, forward);
            }
        } else {
            lemma_next_enabled_skips_disabled(snapshot.slots@, current_slot, forward);
        }
    }
    if !any {
        return None;
    }
    let len = PRESET_COUNT;
    let start = match current_slot {
        Some(s) => s,
        None => if forward {
            len - 1
        } else {
            0
        },
    };
    assert(start as int == search_start(current_slot, forward));
    let ghost slots = snapshot.slots@;
    let mut offset: usize = 1;
    while offset <= len
        invariant
            len == PRESET_COUNT,
            1 <= offset <= len + 1,
            start as int == search_start(current_slot, forward),
            start + PRESET_COUNT <= usize::MAX,
            slots == snapshot.slots@,
            any_enabled(slots),
            scan_enabled(slots, start as int, forward, 1) == scan_enabled(slots, start as int, forward, offset as int),
            forall|d: int| 1 <= d < offset ==> !#[trigger] slots[candidate_slot(start as int, d, forward)].enabled,
        decreases len + 1 - offset,
    {
        let slot = if forward {
            (start + offset) % len
        } else {
            (start + len - offset) % len
        };
        assert(slot as int == candidate_slot(start as int, offset as int, forward));
        if snapshot.slots[slot].enabled {
            proof {
                lemma_scan_found(slots, start as int, forward, offset as int);
            }
            return Some(slot);
        }
        offset = offset + 1;
    }
    proof {
        lemma_scan_covers(slots, start as int, forward);
    }
    None
}

proof fn lemma_scan_found(slots: Seq<CycleSlot>, start: int, forward: bool, offset: int)
    requires
        1 <= offset <= PRESET_COUNT,
        slots[candidate_slot(start, offset, forward)].enabled,
    ensures
        scan_enabled(slots, start, forward, offset) == Some(candidate_slot(start, offset, forward) as usize),
{
}

/// Every slot is a candidate at some offset in `1..=PRESET_COUNT`; so if every
/// candidate was disabled, no slot is enabled.
proof fn lemma_scan_covers(slots: Seq<CycleSlot>, start: int, forward: bool)
    requires
        0 <= start,
        any_enabled(slots),
    ensures
        exists|d: int| 1 <= d <= PRESET_COUNT && #[trigger] slots[candidate_slot(start, d, forward)].enabled,
{
    let i = choose|i: int| 0 <= i < PRESET_COUNT && #[trigger] slots[i].enabled;
    let r = start % 6;
    let d = if forward {
        if i > r { i - r } else { i - r + 6 }
    } else {
        if r > i { r - i } else { r - i + 6 }
    };
    assert(candidate_slot(start, d, forward) == i) by {
        assert(start == 6 * (start / 6) + r);
        if forward {
            assert((start + d) == 6 * (start / 6) + i + (if i > r { 0int } else { 6 }));
        } else {
            assert((start + 6 - d) == 6 * (start / 6) + i + (if r > i { 6int } else { 0 }));
        }
    }
    assert(slots[candidate_slot(start, d, forward)].enabled);
}

/// The control state of the processor, as mathematical values.
pub struct ControlState {
    /// Preset whose impulse response plays (or fades out).
    pub current_preset: PresetId,
    /// Preset being faded in, if a crossfade is under way.
    pub pending_preset: Option<PresetId>,
    /// Length of the crossfade, in samples.
    pub crossfade_samples: nat,
    /// Samples of the crossfade done so far.
    pub crossfade_position: nat,
    /// Whether the cycle has taken over from the reference preset.
    pub cycle_active: bool,
    /// Whether a timed cycle runs.
    pub cycle_running: bool,
    /// Slot of the cycle list that plays while the cycle is active.
    pub cycle_current_slot: Option<usize>,
    /// Preset that was playing when the cycle took over.
    pub cycle_reference_preset: PresetId,
    /// Samples left until the timed cycle steps on.
    pub samples_until_cycle_step: nat,
}

impl ControlState {
    /// The invariant of the control state.
    pub open spec fn valid(self) -> bool {
        &&& self.crossfade_samples >= 1
        &&& self.crossfade_position <= self.crossfade_samples
        &&& (self.pending_preset is None ==> self.crossfade_position == self.crossfade_samples)
        &&& (self.cycle_active <==> self.cycle_current_slot is Some)
        &&& (self.cycle_current_slot matches Some(k) ==> k < PRESET_COUNT)
        &&& (self.cycle_running ==> self.cycle_active)
    }

    /// One step through the cycle list; the first step from the reference
    /// remembers the reference. With no slot enabled nothing changes.
    pub open spec fn stepped(self, slots: Seq<CycleSlot>, base_preset: PresetId, forward: bool) -> ControlState {
        match next_enabled(slots, self.cycle_current_slot, forward) {
            Some(k) => ControlState {
                cycle_reference_preset: if self.cycle_active {
                    self.cycle_reference_preset
                } else {
                    base_preset
                },
                cycle_active: true,
                cycle_current_slot: Some(k),
                ..self
            },
            None => self,
        }
    }

    /// Back to the reference preset: the cycle stops and lets go of its slot.
    pub open spec fn returned(self) -> ControlState {
        ControlState {
            cycle_active: false,
            cycle_running: false,
            cycle_current_slot: None,
            ..self
        }
    }

    /// Starts the timed cycle, stepping first if the cycle is not active yet;
    /// it runs only if some slot could be reached.
    pub open spec fn timed_started(
        self,
        slots: Seq<CycleSlot>,
        base_preset: PresetId,
        switch_samples: nat,
    ) -> ControlState {
        let s = if !self.cycle_active {
            self.stepped(slots, base_preset, true)
        } else {
            self
        };
        if s.cycle_active {
            ControlState { cycle_running: true, samples_until_cycle_step: switch_samples, ..s }
        } else {
            s
        }
    }

    /// Pauses or stops the cycle; with "return to reference" it also lets go
    /// of the cycle.
    pub open spec fn paused(self, return_to_reference: bool) -> ControlState {
        if return_to_reference {
            self.returned()
        } else {
            ControlState { cycle_running: false, ..self }
        }
    }

    /// The effect of a transport request.
    pub open spec fn after_action(
        self,
        action: QuickCycleAction,
        slots: Seq<CycleSlot>,
        mode: QuickCycleMode,
        return_to_reference: bool,
        base_preset: PresetId,
        switch_samples: nat,
    ) -> ControlState {
        match action {
            QuickCycleAction::NoAction => self,
            QuickCycleAction::Previous => self.stepped(slots, base_preset, false),
            QuickCycleAction::Next => self.stepped(slots, base_preset, true),
            QuickCycleAction::StartOrCycle => match mode {
                QuickCycleMode::Manual => self.stepped(slots, base_preset, true),
                QuickCycleMode::Timed => self.timed_started(slots, base_preset, switch_samples),
            },
            QuickCycleAction::PauseOrStop => self.paused(return_to_reference),
            QuickCycleAction::ReturnToReference => self.returned(),
        }
    }

    /// The timed cycle after a block of `num_samples` samples: it steps on when
    /// the block reaches the step, and counts down otherwise.
    pub open spec fn after_block(
        self,
        slots: Seq<CycleSlot>,
        mode: QuickCycleMode,
        base_preset: PresetId,
        num_samples: nat,
        switch_samples: nat,
    ) -> ControlState {
        if !self.cycle_running || mode != QuickCycleMode::Timed {
            self
        } else if self.samples_until_cycle_step <= num_samples {
            ControlState {
                samples_until_cycle_step: switch_samples,
                ..self.stepped(slots, base_preset, true)
            }
        } else {
            ControlState {
                samples_until_cycle_step: (self.samples_until_cycle_step - num_samples) as nat,
                ..self
            }
        }
    }

    /// The preset to play: the current slot's while the cycle is active, the
    /// base preset otherwise.
    pub open spec fn effective(self, slots: Seq<CycleSlot>, base_preset: PresetId) -> PresetId {
        match self.cycle_current_slot {
            Some(k) => slots[k as int].preset,
            None => base_preset,
        }
    }

    /// The preset the cycle would move to next, if any slot is enabled.
    pub open spec fn upcoming(self, slots: Seq<CycleSlot>) -> Option<PresetId> {
        match next_enabled(slots, self.cycle_current_slot, true) {
            Some(n) => Some(slots[n as int].preset),
            None => None,
        }
    }

    /// The preset that the processor plays or fades towards.
    pub open spec fn queued(self) -> PresetId {
        match self.pending_preset {
            Some(p) => p,
            None => self.current_preset,
        }
    }

    /// Aims the processor at `preset`: unless it is already queued with a
    /// matching decay, a crossfade of `crossfade_samples` (at least one)
    /// samples starts towards it.
    pub open spec fn retargeted(self, preset: PresetId, decay_matches: bool, crossfade_samples: nat) -> ControlState {
        if self.queued() == preset && decay_matches {
            self
        } else {
            ControlState {
                crossfade_samples: if crossfade_samples >= 1 {
                    crossfade_samples
                } else {
                    1
                },
                pending_preset: Some(preset),
                crossfade_position: 0,
                ..self
            }
        }
    }

    /// One sample further into the crossfade; at its end the pending preset
    /// becomes the current one.
    pub open spec fn advanced(self) -> ControlState {
        match self.pending_preset {
            None => self,
            Some(p) => if self.crossfade_position + 1 >= self.crossfade_samples {
                ControlState {
                    current_preset: p,
                    pending_preset: None,
                    crossfade_position: self.crossfade_samples,
                    ..self
                }
            } else {
                ControlState { crossfade_position: self.crossfade_position + 1, ..self }
            },
        }
    }

    /// `n` samples further into the crossfade.
    pub open spec fn advanced_by(self, n: nat) -> ControlState
        decreases n,
    {
        if n == 0 {
            self
        } else {
            self.advanced().advanced_by((n - 1) as nat)
        }
    }

    /// The state after `prepare`: `base_preset` plays, no crossfade, the cycle
    /// is off and the timed step is `switch_samples` away.
    pub open spec fn prepared(self, base_preset: PresetId, switch_samples: nat) -> ControlState {
        ControlState {
            current_preset: base_preset,
            pending_preset: None,
            crossfade_position: self.crossfade_samples,
            cycle_active: false,
            cycle_running: false,
            cycle_current_slot: None,
            cycle_reference_preset: base_preset,
            samples_until_cycle_step: switch_samples,
            ..self
        }
    }

    /// The state after `reset`: the crossfade counter is at its end and the
    /// timed cycle no longer runs.
    pub open spec fn after_reset(self) -> ControlState {
        ControlState {
            crossfade_position: self.crossfade_samples,
            cycle_running: false,
            ..self
        }
    }
}

/// Position within a crossfade, reported for one sample.
#[derive(Clone, Copy, Debug)]
pub struct CrossfadeStep {
    /// Samples of the crossfade done before this one.
    pub position: usize,
    /// Length of the crossfade.
    pub samples: usize,
    /// Whether the crossfade ended with this sample.
    pub completed: bool,
}

/// The control part of the processor.
#[derive(Debug)]
pub struct TranslateProcessor {
    current_preset: PresetId,
    pending_preset: Option<PresetId>,
    preset_crossfade_samples: usize,
    preset_crossfade_position: usize,
    cycle_active: bool,
    cycle_running: bool,
    cycle_current_slot: Option<usize>,
    cycle_reference_preset: PresetId,
    samples_until_cycle_step: usize,
}

impl View for TranslateProcessor {
    type V = ControlState;

    closed spec fn view(&self) -> ControlState {
        ControlState {
            current_preset: self.current_preset,
            pending_preset: self.pending_preset,
            crossfade_samples: self.preset_crossfade_samples as nat,
            crossfade_position: self.preset_crossfade_position as nat,
            cycle_active: self.cycle_active,
            cycle_running: self.cycle_running,
            cycle_current_slot: self.cycle_current_slot,
            cycle_reference_preset: self.cycle_reference_preset,
            samples_until_cycle_step: self.samples_until_cycle_step as nat,
        }
    }
}

/// What the audio side hands the control side for one block.
#[derive(Clone, Copy, Debug)]
pub struct BlockControls {
    /// Whether the plugin is bypassed.
    pub bypass: bool,
    /// The preset chosen by the preset parameter.
    pub base_preset: PresetId,
    /// The Quick Cycle mode.
    pub mode: QuickCycleMode,
    /// Whether stopping the cycle returns to the reference preset.
    pub return_to_reference: bool,
    /// The timed-cycle switch time in samples (at least one).
    pub switch_samples: usize,
    /// Number of samples in the block.
    pub num_samples: usize,
}

impl TranslateProcessor {
    /// A processor that plays the first preset, with no crossfade and the cycle off.
    pub fn new() -> (p: TranslateProcessor)
        ensures
            p@.valid(),
            p@.current_preset == PresetId::CarHatchback,
            p@.pending_preset is None,
            p@.crossfade_samples == 1,
            p@.crossfade_position == 1,
            !p@.cycle_active,
            !p@.cycle_running,
            p@.cycle_current_slot is None,
            p@.cycle_reference_preset == PresetId::CarHatchback,
            p@.samples_until_cycle_step == 1,
    {
        TranslateProcessor {
            current_preset: PresetId::CarHatchback,
            pending_preset: None,
            preset_crossfade_samples: 1,
            preset_crossfade_position: 1,
            cycle_active: false,
            cycle_running: false,
            cycle_current_slot: None,
            cycle_reference_preset: PresetId::CarHatchback,
            samples_until_cycle_step: 1,
        }
    }

    /// Preset whose impulse response plays (or fades out).
    pub fn current_preset(&self) -> (p: PresetId)
        ensures
            p == self@.current_preset,
    {
        self.current_preset
    }

    /// Preset being faded in, if a crossfade is under way.
    pub fn pending_preset(&self) -> (p: Option<PresetId>)
        ensures
            p == self@.pending_preset,
    {
        self.pending_preset
    }

    /// The preset that is played or faded towards.
    pub fn queued_preset(&self) -> (p: PresetId)
        ensures
            p == self@.queued(),
    {
        match self.pending_preset {
            Some(p) => p,
            None => self.current_preset,
        }
    }

    /// Whether a timed cycle runs.
    pub fn is_cycle_running(&self) -> (b: bool)
        ensures
            b == self@.cycle_running,
    {
        self.cycle_running
    }

    /// One step through the cycle list, remembering the reference preset on
    /// the first step.
    pub fn step_cycle(&mut self, snapshot: &QuickCycleSnapshot, base_preset: PresetId, forward: bool)
        requires
            old(self)@.valid(),
        ensures
            final(self)@ == old(self)@.stepped(snapshot.slots@, base_preset, forward),
            final(self)@.valid(),
            any_enabled(snapshot.slots@) ==> final(self)@.cycle_active && (final(self)@.cycle_current_slot matches Some(
                k,
            ) && k < PRESET_COUNT && snapshot.slots@[k as int].enabled),
            any_enabled(snapshot.slots@) && !old(self)@.cycle_active ==> final(self)@.cycle_reference_preset
                == base_preset,
            old(self)@.cycle_active ==> final(self)@.cycle_reference_preset == old(self)@.cycle_reference_preset,
            !any_enabled(snapshot.slots@) ==> final(self)@ == old(self)@,
            final(self)@.cycle_running == old(self)@.cycle_running,
            final(self)@.current_preset == old(self)@.current_preset,
            final(self)@.pending_preset == old(self)@.pending_preset,
    {
        proof {
            lemma_next_enabled_skips_disabled(snapshot.slots@, self.cycle_current_slot, forward);
        }
        let base = if self.cycle_active {
            Some(base_preset)
        } else {
            None
        };
        if let Some(next_slot) = next_enabled_slot(snapshot, self.cycle_current_slot, forward, base) {
            if !self.cycle_active {
                self.cycle_reference_preset = base_preset;
                self.cycle_active = true;
            }
            self.cycle_current_slot = Some(next_slot);
        }
    }

    /// Starts the timed cycle; the next step is `switch_samples` away.
    pub fn start_timed_cycle(
        &mut self,
        snapshot: &QuickCycleSnapshot,
        base_preset: PresetId,
        switch_samples: usize,
    )
        requires
            old(self)@.valid(),
        ensures
            final(self)@ == old(self)@.timed_started(snapshot.slots@, base_preset, switch_samples as nat),
            final(self)@.valid(),
            old(self)@.cycle_active ==> final(self)@.cycle_running && final(self)@.cycle_current_slot
                == old(self)@.cycle_current_slot && final(self)@.samples_until_cycle_step == switch_samples,
            any_enabled(snapshot.slots@) ==> final(self)@.cycle_running
                && final(self)@.samples_until_cycle_step == switch_samples,
    {
        proof {
            lemma_timed_start_runs(self@, snapshot.slots@, base_preset, switch_samples as nat, false);
        }
        if !self.cycle_active {
            self.step_cycle(snapshot, base_preset, true);
        }
        if self.cycle_active {
            self.cycle_running = true;
            self.samples_until_cycle_step = switch_samples;
        }
    }

    /// Pauses (timed) or stops (manual) the cycle, returning to the reference
    /// preset if `return_to_reference` is set.
    pub fn pause_or_stop_cycle(&mut self, mode: QuickCycleMode, return_to_reference: bool)
        requires
            old(self)@.valid(),
        ensures
            final(self)@ == old(self)@.paused(return_to_reference),
            final(self)@.valid(),
            !final(self)@.cycle_running,
            return_to_reference ==> !final(self)@.cycle_active && final(self)@.cycle_current_slot is None,
            !return_to_reference ==> final(self)@.cycle_current_slot == old(self)@.cycle_current_slot
                && final(self)@.cycle_active == old(self)@.cycle_active,
    {
        self.cycle_running = false;
        if mode == QuickCycleMode::Manual && return_to_reference {
            self.return_to_reference();
        } else if mode == QuickCycleMode::Timed && return_to_reference {
            self.return_to_reference();
        }
    }

    /// Leaves the cycle: the base preset plays again.
    pub fn return_to_reference(&mut self)
        requires
            old(self)@.valid(),
        ensures
            final(self)@ == old(self)@.returned(),
            final(self)@.valid(),
            !final(self)@.cycle_active && !final(self)@.cycle_running,
            final(self)@.cycle_current_slot is None,
            final(self)@.current_preset == old(self)@.current_preset,
            final(self)@.pending_preset == old(self)@.pending_preset,
    {
        self.cycle_active = false;
        self.cycle_running = false;
        self.cycle_current_slot = None;
    }

    /// Carries out a transport request.
    pub fn handle_cycle_action(
        &mut self,
        action: QuickCycleAction,
        snapshot: &QuickCycleSnapshot,
        mode: QuickCycleMode,
        return_to_reference: bool,
        base_preset: PresetId,
        switch_samples: usize,
    )
        requires
            old(self)@.valid(),
        ensures
            final(self)@ == old(self)@.after_action(
                action,
                snapshot.slots@,
                mode,
                return_to_reference,
                base_preset,
                switch_samples as nat,
            ),
            final(self)@.valid(),
            action == QuickCycleAction::NoAction ==> final(self)@ == old(self)@,
            action == QuickCycleAction::Previous ==> final(self)@.cycle_current_slot == (if any_enabled(snapshot.slots@) {
                next_enabled(snapshot.slots@, old(self)@.cycle_current_slot, false)
            } else {
                old(self)@.cycle_current_slot
            }) && final(self)@.cycle_running == old(self)@.cycle_running,
            action == QuickCycleAction::Next || (action == QuickCycleAction::StartOrCycle && mode
                == QuickCycleMode::Manual) ==> final(self)@.cycle_current_slot == (if any_enabled(snapshot.slots@) {
                next_enabled(snapshot.slots@, old(self)@.cycle_current_slot, true)
            } else {
                old(self)@.cycle_current_slot
            }) && final(self)@.cycle_running == old(self)@.cycle_running,
            action == QuickCycleAction::StartOrCycle && mode == QuickCycleMode::Timed && (old(self)@.cycle_active
                || any_enabled(snapshot.slots@)) ==> final(self)@.cycle_running
                && final(self)@.samples_until_cycle_step == switch_samples,
            action == QuickCycleAction::StartOrCycle && mode == QuickCycleMode::Timed && old(self)@.cycle_active
                ==> final(self)@.cycle_current_slot == old(self)@.cycle_current_slot,
            action == QuickCycleAction::PauseOrStop ==> !final(self)@.cycle_running && (if return_to_reference {
                final(self)@.cycle_current_slot is None
            } else {
                final(self)@.cycle_current_slot == old(self)@.cycle_current_slot
            }),
            action == QuickCycleAction::ReturnToReference ==> !final(self)@.cycle_running
                && !final(self)@.cycle_active && final(self)@.cycle_current_slot is None,
    {
        proof {
            lemma_next_enabled_skips_disabled(snapshot.slots@, self.cycle_current_slot, true);
            lemma_next_enabled_skips_disabled(snapshot.slots@, self.cycle_current_slot, false);
            lemma_timed_start_runs(self@, snapshot.slots@, base_preset, switch_samples as nat, return_to_reference);
        }
        match action {
            QuickCycleAction::NoAction => {},
            QuickCycleAction::Previous => self.step_cycle(snapshot, base_preset, false),
            QuickCycleAction::Next => self.step_cycle(snapshot, base_preset, true),
            QuickCycleAction::StartOrCycle => match mode {
                QuickCycleMode::Manual => self.step_cycle(snapshot, base_preset, true),
                QuickCycleMode::Timed => self.start_timed_cycle(snapshot, base_preset, switch_samples),
            },
            QuickCycleAction::PauseOrStop => self.pause_or_stop_cycle(mode, return_to_reference),
            QuickCycleAction::ReturnToReference => self.return_to_reference(),
        }
    }

    /// Counts a block of `num_samples` samples against the timed cycle,
    /// stepping on when the block reaches the step.
    pub fn handle_timed_cycle(
        &mut self,
        snapshot: &QuickCycleSnapshot,
        mode: QuickCycleMode,
        base_preset: PresetId,
        num_samples: usize,
        switch_samples: usize,
    )
        requires
            old(self)@.valid(),
        ensures
            final(self)@ == old(self)@.after_block(
                snapshot.slots@,
                mode,
                base_preset,
                num_samples as nat,
                switch_samples as nat,
            ),
            final(self)@.valid(),
            !old(self)@.cycle_running || mode != QuickCycleMode::Timed ==> final(self)@ == old(self)@,
            old(self)@.cycle_running && mode == QuickCycleMode::Timed && old(self)@.samples_until_cycle_step
                > num_samples ==> final(self)@.samples_until_cycle_step == old(self)@.samples_until_cycle_step
                - num_samples && final(self)@.cycle_current_slot == old(self)@.cycle_current_slot,
            old(self)@.cycle_running && mode == QuickCycleMode::Timed && old(self)@.samples_until_cycle_step
                <= num_samples ==> final(self)@.samples_until_cycle_step == switch_samples
                && final(self)@.cycle_running && (if any_enabled(snapshot.slots@) {
                final(self)@.cycle_current_slot == next_enabled(snapshot.slots@, old(self)@.cycle_current_slot, true)
            } else {
                final(self)@.cycle_current_slot == old(self)@.cycle_current_slot
            }),
    {
        proof {
            lemma_next_enabled_skips_disabled(snapshot.slots@, self.cycle_current_slot, true);
        }
        if !self.cycle_running || mode != QuickCycleMode::Timed {
            return;
        }
        if self.samples_until_cycle_step <= num_samples {
            self.step_cycle(snapshot, base_preset, true);
            self.samples_until_cycle_step = switch_samples;
        } else {
            self.samples_until_cycle_step = self.samples_until_cycle_step - num_samples;
        }
    }

    /// The preset to play for this block.
    pub fn effective_preset(&self, base_preset: PresetId, snapshot: &QuickCycleSnapshot) -> (p: PresetId)
        requires
            self@.valid(),
        ensures
            p == self@.effective(snapshot.slots@, base_preset),
            self@.cycle_current_slot matches Some(k) ==> p == snapshot.slots@[k as int].preset,
            self@.cycle_current_slot is None ==> p == base_preset,
    {
        if let Some(slot) = self.cycle_current_slot {
            snapshot.slots[slot].preset
        } else {
            base_preset
        }
    }

    /// The preset that the cycle would move to next.
    pub fn next_cycle_preset(&self, snapshot: &QuickCycleSnapshot, base_preset: PresetId) -> (p: Option<PresetId>)
        requires
            self@.valid(),
        ensures
            p == self@.upcoming(snapshot.slots@),
            p is None <==> !any_enabled(snapshot.slots@),
            p matches Some(q) ==> exists|k: int|
                0 <= k < PRESET_COUNT && snapshot.slots@[k].enabled && #[trigger] snapshot.slots@[k].preset == q
                    && next_enabled(snapshot.slots@, self@.cycle_current_slot, true) == Some(k as usize),
    {
        proof {
            lemma_next_enabled_skips_disabled(snapshot.slots@, self.cycle_current_slot, true);
            if let Some(k) = next_enabled(snapshot.slots@, self@.cycle_current_slot, true) {
                assert(snapshot.slots@[k as int].preset == snapshot.slots@[k as int].preset);
            }
        }
        if let Some(slot) = self.cycle_current_slot {
            match next_enabled_slot(snapshot, Some(slot), true, None) {
                Some(next) => Some(snapshot.slots[next].preset),
                None => None,
            }
        } else {
            match next_enabled_slot(snapshot, None, true, Some(base_preset)) {
                Some(next) => Some(snapshot.slots[next].preset),
                None => None,
            }
        }
    }

    /// Aims the processor at `preset`. Unless it is already queued and
    /// `decay_matches` (the queued decay is within tolerance of the wanted
    /// one), a crossfade of `crossfade_samples` samples (at least one) starts
    /// towards it; the result says whether one started.
    pub fn sync_ir_target(&mut self, preset: PresetId, decay_matches: bool, crossfade_samples: usize) -> (started: bool)
        requires
            old(self)@.valid(),
        ensures
            final(self)@ == old(self)@.retargeted(preset, decay_matches, crossfade_samples as nat),
            final(self)@.valid(),
            started == !(old(self)@.queued() == preset && decay_matches),
            !started ==> final(self)@ == old(self)@,
            started ==> final(self)@.pending_preset == Some(preset) && final(self)@.crossfade_position == 0
                && final(self)@.crossfade_samples == (if crossfade_samples >= 1 {
                crossfade_samples as nat
            } else {
                1
            }) && final(self)@.current_preset == old(self)@.current_preset
                && final(self)@.cycle_current_slot == old(self)@.cycle_current_slot
                && final(self)@.cycle_active == old(self)@.cycle_active
                && final(self)@.cycle_running == old(self)@.cycle_running,
    {
        let queued_preset = self.queued_preset();
        if queued_preset == preset && decay_matches {
            return false;
        }
        let samples = if crossfade_samples >= 1 {
            crossfade_samples
        } else {
            1
        };
        self.preset_crossfade_samples = samples;
        self.pending_preset = Some(preset);
        self.preset_crossfade_position = 0;
        true
    }

    /// One sample of the crossfade, if one is under way: reports where in the
    /// crossfade this sample lies, and whether the pending preset took over.
    pub fn advance_crossfade(&mut self) -> (step: Option<CrossfadeStep>)
        requires
            old(self)@.valid(),
            old(self)@.crossfade_position < usize::MAX,
        ensures
            final(self)@ == old(self)@.advanced(),
            final(self)@.valid(),
            old(self)@.pending_preset is None ==> final(self)@ == old(self)@,
            old(self)@.pending_preset is Some && old(self)@.crossfade_position + 1 >= old(self)@.crossfade_samples
                ==> final(self)@.current_preset == old(self)@.pending_preset->Some_0 && final(self)@.pending_preset is None,
            old(self)@.pending_preset is Some && old(self)@.crossfade_position + 1 < old(self)@.crossfade_samples
                ==> final(self)@.crossfade_position == old(self)@.crossfade_position + 1 && final(self)@.pending_preset
                == old(self)@.pending_preset && final(self)@.current_preset == old(self)@.current_preset,
            step is None <==> old(self)@.pending_preset is None,
            step matches Some(st) ==> {
                &&& st.position == old(self)@.crossfade_position
                &&& st.samples == old(self)@.crossfade_samples
                &&& st.completed == (final(self)@.pending_preset is None)
            },
    {
        match self.pending_preset {
            None => None,
            Some(pending) => {
                let position = self.preset_crossfade_position;
                let samples = self.preset_crossfade_samples;
                self.preset_crossfade_position = position + 1;
                let completed = self.preset_crossfade_position >= samples;
                if completed {
                    self.current_preset = pending;
                    self.pending_preset = None;
                    self.preset_crossfade_position = samples;
                }
                Some(CrossfadeStep { position, samples, completed })
            },
        }
    }

    /// Gets ready to play `base_preset`: no crossfade, the cycle off, the
    /// timed step `switch_samples` away; the status is reported.
    pub fn prepare(&mut self, base_preset: PresetId, switch_samples: usize, quick_cycle: &mut QuickCycleShared)
        requires
            old(self)@.valid(),
            old(quick_cycle).wf(),
        ensures
            final(self)@ == old(self)@.prepared(base_preset, switch_samples as nat),
            final(self)@.valid(),
            final(self)@.current_preset == base_preset && final(self)@.pending_preset is None,
            !final(self)@.cycle_active && !final(self)@.cycle_running && final(self)@.cycle_current_slot is None,
            final(self)@.cycle_reference_preset == base_preset,
            final(self)@.samples_until_cycle_step == switch_samples,
            final(quick_cycle)@.current == Some(base_preset) && final(quick_cycle)@.next is None
                && !final(quick_cycle)@.running,
            final(quick_cycle).wf(),
            final(quick_cycle)@ == old(quick_cycle)@.with_status(Some(base_preset), None, false),
    {
        self.current_preset = base_preset;
        self.pending_preset = None;
        self.preset_crossfade_position = if self.preset_crossfade_samples >= 1 {
            self.preset_crossfade_samples
        } else {
            1
        };
        self.cycle_active = false;
        self.cycle_running = false;
        self.cycle_current_slot = None;
        self.cycle_reference_preset = self.current_preset;
        self.samples_until_cycle_step = switch_samples;
        quick_cycle.set_status(Some(self.current_preset), None, false);
    }

    /// Ends any crossfade count and stops the timed cycle; the status is reported.
    pub fn reset(&mut self, quick_cycle: &mut QuickCycleShared)
        requires
            old(self)@.valid(),
            old(quick_cycle).wf(),
        ensures
            final(self)@ == old(self)@.after_reset(),
            final(self)@.valid(),
            !final(self)@.cycle_running,
            final(self)@.current_preset == old(self)@.current_preset,
            final(self)@.cycle_current_slot == old(self)@.cycle_current_slot,
            final(quick_cycle)@.current == Some(old(self)@.current_preset) && final(quick_cycle)@.next is None
                && !final(quick_cycle)@.running,
            final(quick_cycle).wf(),
            final(quick_cycle)@ == old(quick_cycle)@.with_status(Some(old(self)@.current_preset), None, false),
    {
        self.preset_crossfade_position = if self.preset_crossfade_samples >= 1 {
            self.preset_crossfade_samples
        } else {
            1
        };
        self.cycle_running = false;
        quick_cycle.set_status(Some(self.current_preset), None, false);
    }

    /// The control part of processing one block: when bypassed, resets and
    /// returns `None`; otherwise takes the waiting transport request, runs the
    /// timed cycle for the block, reports the status and returns the preset
    /// to play.
    pub fn process(&mut self, quick_cycle: &mut QuickCycleShared, block: &BlockControls) -> (target: Option<PresetId>)
        requires
            old(self)@.valid(),
            old(quick_cycle).wf(),
        ensures
            final(self)@.valid(),
            final(quick_cycle).wf(),
            block.bypass ==> {
                &&& target is None
                &&& final(self)@ == old(self)@.after_reset()
                &&& final(quick_cycle)@ == old(quick_cycle)@.with_status(
                    Some(old(self)@.current_preset),
                    None,
                    false,
                )
            },
            !block.bypass ==> ({
                let slots = old(quick_cycle)@.slots();
                let acted = old(self)@.after_action(
                    old(quick_cycle)@.pending,
                    slots,
                    block.mode,
                    block.return_to_reference,
                    block.base_preset,
                    block.switch_samples as nat,
                );
                let st = acted.after_block(
                    slots,
                    block.mode,
                    block.base_preset,
                    block.num_samples as nat,
                    block.switch_samples as nat,
                );
                &&& final(self)@ == st
                &&& target == Some(st.effective(slots, block.base_preset))
                &&& final(quick_cycle)@ == old(quick_cycle)@.taken().with_status(
                    Some(st.effective(slots, block.base_preset)),
                    st.upcoming(slots),
                    st.cycle_running && block.mode == QuickCycleMode::Timed,
                )
            }),
            !block.bypass ==> {
                &&& target is Some
                &&& final(quick_cycle)@.current == target
                &&& final(quick_cycle)@.pending == QuickCycleAction::NoAction
                &&& final(quick_cycle)@.running == (final(self)@.cycle_running && block.mode == QuickCycleMode::Timed)
                &&& final(quick_cycle)@.order == old(quick_cycle)@.order
                &&& final(quick_cycle)@.enabled == old(quick_cycle)@.enabled
                &&& final(self)@.cycle_current_slot is None ==> target == Some(block.base_preset)
            },
    {
        if block.bypass {
            self.reset(quick_cycle);
            return None;
        }
        let snapshot = quick_cycle.snapshot();
        let action = quick_cycle.take_action();
        self.handle_cycle_action(
            action,
            &snapshot,
            block.mode,
            block.return_to_reference,
            block.base_preset,
            block.switch_samples,
        );
        self.handle_timed_cycle(&snapshot, block.mode, block.base_preset, block.num_samples, block.switch_samples);
        let target = self.effective_preset(block.base_preset, &snapshot);
        let next = self.next_cycle_preset(&snapshot, block.base_preset);
        let running = self.cycle_running && block.mode == QuickCycleMode::Timed;
        quick_cycle.set_status(Some(target), next, running);
        Some(target)
    }
}

impl Default for TranslateProcessor {
    fn default() -> (p: TranslateProcessor)
        ensures
            p@.valid(),
            p@.current_preset == PresetId::CarHatchback,
            p@.pending_preset is None,
            p@.crossfade_samples == 1,
            p@.crossfade_position == 1,
            !p@.cycle_active,
            !p@.cycle_running,
            p@.cycle_current_slot is None,
            p@.cycle_reference_preset == PresetId::CarHatchback,
            p@.samples_until_cycle_step == 1,
    {
        TranslateProcessor::new()
    }
}

/// What a scan from `offset` returns: the first enabled candidate at an
/// offset in `offset..=PRESET_COUNT`, all candidates before it disabled; or
/// nothing, when all of them are disabled.
proof fn lemma_scan_result(slots: Seq<CycleSlot>, start: int, forward: bool, offset: int)
    requires
        1 <= offset,
    ensures
        scan_enabled(slots, start, forward, offset) matches Some(k) ==> exists|d: int|
            offset <= d <= PRESET_COUNT && k == candidate_slot(start, d, forward)
                && #[trigger] slots[candidate_slot(start, d, forward)].enabled
                && forall|e: int| offset <= e < d ==> !#[trigger] slots[candidate_slot(start, e, forward)].enabled,
        scan_enabled(slots, start, forward, offset) is None ==> forall|e: int|
            offset <= e <= PRESET_COUNT ==> !#[trigger] slots[candidate_slot(start, e, forward)].enabled,
    decreases PRESET_COUNT + 1 - offset,
{
    if offset <= PRESET_COUNT {
        if !slots[candidate_slot(start, offset, forward)].enabled {
            lemma_scan_result(slots, start, forward, offset + 1);
            if let Some(k) = scan_enabled(slots, start, forward, offset + 1) {
                let d = choose|d: int|
                    offset + 1 <= d <= PRESET_COUNT && k == candidate_slot(start, d, forward)
                        && #[trigger] slots[candidate_slot(start, d, forward)].enabled
                        && forall|e: int| offset + 1 <= e < d ==> !#[trigger] slots[candidate_slot(start, e, forward)].enabled;
                assert forall|e: int| offset <= e < d implies !#[trigger] slots[candidate_slot(start, e, forward)].enabled by {
                    if e > offset {
                    }
                }
            }
        } else {
            let d = offset;
            assert(forall|e: int| offset <= e < d ==> !#[trigger] slots[candidate_slot(start, e, forward)].enabled);
        }
    }
}

/// A scan from `offset` returns the candidate at offset `d` when that one is
/// enabled and all candidates between are disabled.
proof fn lemma_scan_first(slots: Seq<CycleSlot>, start: int, forward: bool, offset: int, d: int)
    requires
        1 <= offset <= d <= PRESET_COUNT,
        slots[candidate_slot(start, d, forward)].enabled,
        forall|e: int| offset <= e < d ==> !#[trigger] slots[candidate_slot(start, e, forward)].enabled,
    ensures
        scan_enabled(slots, start, forward, offset) == Some(candidate_slot(start, d, forward) as usize),
    decreases d - offset,
{
    if offset < d {
        assert(!slots[candidate_slot(start, offset, forward)].enabled);
        lemma_scan_first(slots, start, forward, offset + 1, d);
    }
}

/// The slot a step lands on is enabled, every slot that the step passes over
/// (in its direction, wrapping around) is disabled, and a step finds a slot
/// whenever some slot is enabled.
pub proof fn lemma_next_enabled_skips_disabled(slots: Seq<CycleSlot>, current_slot: Option<usize>, forward: bool)
    requires
        slots.len() == PRESET_COUNT,
        current_slot matches Some(s) ==> s < PRESET_COUNT,
    ensures
        next_enabled(slots, current_slot, forward) is None <==> !any_enabled(slots),
        next_enabled(slots, current_slot, forward) matches Some(k) ==> {
            &&& k < PRESET_COUNT
            &&& slots[k as int].enabled
            &&& exists|d: int|
                1 <= d <= PRESET_COUNT && k == candidate_slot(search_start(current_slot, forward), d, forward)
                    && forall|e: int|
                    1 <= e < d ==> !#[trigger] slots[candidate_slot(search_start(current_slot, forward), e, forward)].enabled
        },
{
    let start = search_start(current_slot, forward);
    lemma_scan_result(slots, start, forward, 1);
    if any_enabled(slots) {
        lemma_scan_covers(slots, start, forward);
        if scan_enabled(slots, start, forward, 1) is None {
            let d = choose|d: int| 1 <= d <= PRESET_COUNT && #[trigger] slots[candidate_slot(start, d, forward)].enabled;
            assert(!slots[candidate_slot(start, d, forward)].enabled);
        }
    }
}

/// Stepping back right after stepping forward from an enabled slot lands on
/// that slot again.
pub proof fn lemma_previous_undoes_next(slots: Seq<CycleSlot>, s: usize)
    requires
        slots.len() == PRESET_COUNT,
        s < PRESET_COUNT,
        slots[s as int].enabled,
    ensures
        next_enabled(slots, Some(s), true) matches Some(k) && next_enabled(slots, Some(k), false) == Some(s),
{
    assert(any_enabled(slots));
    lemma_next_enabled_skips_disabled(slots, Some(s), true);
    let k = next_enabled(slots, Some(s), true)->Some_0;
    let d = choose|d: int|
        1 <= d <= PRESET_COUNT && k == candidate_slot(s as int, d, true)
            && forall|e: int| 1 <= e < d ==> !#[trigger] slots[candidate_slot(s as int, e, true)].enabled;
    assert(candidate_slot(k as int, d, false) == s as int);
    assert forall|e: int| 1 <= e < d implies !#[trigger] slots[candidate_slot(k as int, e, false)].enabled by {
        assert(candidate_slot(k as int, e, false) == candidate_slot(s as int, d - e, true));
    }
    lemma_scan_first(slots, k as int, false, 1, d);
}

/// On a state where the cycle plays an enabled slot, "Previous" after
/// "Next" brings the cycle back to that slot.
pub proof fn lemma_step_back_returns(st: ControlState, slots: Seq<CycleSlot>, base_preset: PresetId)
    requires
        st.valid(),
        slots.len() == PRESET_COUNT,
        st.cycle_current_slot matches Some(s) && slots[s as int].enabled,
    ensures
        st.stepped(slots, base_preset, true).stepped(slots, base_preset, false).cycle_current_slot
            == st.cycle_current_slot,
        st.stepped(slots, base_preset, true).stepped(slots, base_preset, false).effective(slots, base_preset)
            == st.effective(slots, base_preset),
{
    let s = st.cycle_current_slot->Some_0;
    lemma_previous_undoes_next(slots, s);
}

/// Every control transition keeps the control state valid.
pub proof fn lemma_transitions_keep_valid(
    st: ControlState,
    slots: Seq<CycleSlot>,
    action: QuickCycleAction,
    mode: QuickCycleMode,
    return_to_reference: bool,
    base_preset: PresetId,
    forward: bool,
    preset: PresetId,
    decay_matches: bool,
    crossfade_samples: nat,
    num_samples: nat,
    switch_samples: nat,
)
    requires
        st.valid(),
        slots.len() == PRESET_COUNT,
    ensures
        st.stepped(slots, base_preset, forward).valid(),
        st.returned().valid(),
        st.paused(return_to_reference).valid(),
        st.timed_started(slots, base_preset, switch_samples).valid(),
        st.after_action(action, slots, mode, return_to_reference, base_preset, switch_samples).valid(),
        st.after_block(slots, mode, base_preset, num_samples, switch_samples).valid(),
        st.retargeted(preset, decay_matches, crossfade_samples).valid(),
        st.advanced().valid(),
        st.prepared(base_preset, switch_samples).valid(),
        st.after_reset().valid(),
{
    lemma_next_enabled_skips_disabled(slots, st.cycle_current_slot, forward);
    lemma_next_enabled_skips_disabled(slots, st.cycle_current_slot, true);
    lemma_next_enabled_skips_disabled(slots, st.cycle_current_slot, false);
}

/// "Return to Reference", and stopping with return to reference set, bring
/// back the base preset and stop the cycle; the next step then starts from
/// the top of the cycle list again.
pub proof fn lemma_return_to_reference(
    st: ControlState,
    slots: Seq<CycleSlot>,
    mode: QuickCycleMode,
    base_preset: PresetId,
    switch_samples: nat,
)
    ensures
        ({
            let r = st.after_action(
                QuickCycleAction::ReturnToReference,
                slots,
                mode,
                false,
                base_preset,
                switch_samples,
            );
            &&& r.effective(slots, base_preset) == base_preset
            &&& !r.cycle_active && !r.cycle_running
            &&& r.upcoming(slots) == (match next_enabled(slots, None, true) {
                Some(n) => Some(slots[n as int].preset),
                None => None,
            })
        }),
        ({
            let r = st.after_action(QuickCycleAction::PauseOrStop, slots, mode, true, base_preset, switch_samples);
            &&& r.effective(slots, base_preset) == base_preset
            &&& !r.cycle_active && !r.cycle_running
        }),
        ({
            let r = st.after_action(QuickCycleAction::PauseOrStop, slots, mode, false, base_preset, switch_samples);
            &&& !r.cycle_running
            &&& r.cycle_current_slot == st.cycle_current_slot
        }),
{
}

/// While the cycle is active the processor plays the preset of an enabled
/// slot right after a step: a step that lands somewhere lands on an enabled
/// slot, and a step with no slot enabled changes nothing.
pub proof fn lemma_step_plays_enabled_slot(
    st: ControlState,
    slots: Seq<CycleSlot>,
    base_preset: PresetId,
    forward: bool,
)
    requires
        st.valid(),
        slots.len() == PRESET_COUNT,
    ensures
        any_enabled(slots) ==> ({
            let n = st.stepped(slots, base_preset, forward);
            &&& n.cycle_active
            &&& n.cycle_current_slot matches Some(k) && slots[k as int].enabled
                && n.effective(slots, base_preset) == slots[k as int].preset
            &&& n.cycle_reference_preset == (if st.cycle_active {
                st.cycle_reference_preset
            } else {
                base_preset
            })
        }),
        !any_enabled(slots) ==> st.stepped(slots, base_preset, forward) == st,
{
    lemma_next_enabled_skips_disabled(slots, st.cycle_current_slot, forward);
}

/// The preset reported as next is the one that a "Next" request (or a
/// manual "Cycle", or a timed step) then plays; with no slot enabled there is
/// no next preset and the request changes nothing.
pub proof fn lemma_upcoming_is_next_step(
    st: ControlState,
    slots: Seq<CycleSlot>,
    base_preset: PresetId,
    return_to_reference: bool,
    switch_samples: nat,
)
    requires
        st.valid(),
        slots.len() == PRESET_COUNT,
    ensures
        st.upcoming(slots) matches Some(p) ==> st.after_action(
            QuickCycleAction::Next,
            slots,
            QuickCycleMode::Manual,
            return_to_reference,
            base_preset,
            switch_samples,
        ).effective(slots, base_preset) == p && st.after_action(
            QuickCycleAction::StartOrCycle,
            slots,
            QuickCycleMode::Manual,
            return_to_reference,
            base_preset,
            switch_samples,
        ).effective(slots, base_preset) == p,
        st.upcoming(slots) is None ==> st.after_action(
            QuickCycleAction::Next,
            slots,
            QuickCycleMode::Manual,
            return_to_reference,
            base_preset,
            switch_samples,
        ) == st,
{
    lemma_next_enabled_skips_disabled(slots, st.cycle_current_slot, true);
}

/// Aiming the processor at the preset it already plays or fades towards, with
/// a matching decay, changes nothing at all: a crossfade under way keeps its
/// position. Aiming it anywhere else starts a fresh crossfade of at least one
/// sample towards that preset, leaving the playing preset and the cycle alone.
pub proof fn lemma_retarget_same_is_no_op(st: ControlState, preset: PresetId, decay_matches: bool, n: nat)
    ensures
        (st.pending_preset == Some(preset) || (st.pending_preset is None && st.current_preset == preset))
            && decay_matches ==> st.retargeted(preset, decay_matches, n) == st,
        !decay_matches || (st.pending_preset is Some && st.pending_preset != Some(preset)) || (
        st.pending_preset is None && st.current_preset != preset) ==> {
            let r = st.retargeted(preset, decay_matches, n);
            &&& r.pending_preset == Some(preset)
            &&& r.crossfade_position == 0
            &&& r.crossfade_samples == (if n >= 1 {
                n
            } else {
                1
            })
            &&& r.current_preset == st.current_preset
            &&& r.cycle_active == st.cycle_active
            &&& r.cycle_running == st.cycle_running
            &&& r.cycle_current_slot == st.cycle_current_slot
            &&& r.samples_until_cycle_step == st.samples_until_cycle_step
        },
{
}

/// Re-aiming at the pending preset between samples, as the audio side does
/// every block, does not hold a crossfade back: one sample of the crossfade
/// after a re-aim is the same as one sample without it.
pub proof fn lemma_resync_keeps_crossfade_going(st: ControlState, n: nat)
    requires
        st.valid(),
        st.pending_preset is Some,
    ensures
        st.retargeted(st.pending_preset->Some_0, true, n).advanced() == st.advanced(),
        st.advanced().crossfade_position > st.crossfade_position || st.advanced().pending_preset is None,
{
}

/// A crossfade started towards `p` hands over to `p` after its length even
/// when the processor is re-aimed at `p` before every sample.
pub proof fn lemma_crossfade_completes_under_resync(st: ControlState, p: PresetId, k: nat, n: nat)
    requires
        st.valid(),
        st.pending_preset == Some(p),
        k == st.crossfade_samples - st.crossfade_position,
        k >= 1,
    ensures
        resynced_advanced_by(st, p, n, k).pending_preset is None,
        resynced_advanced_by(st, p, n, k).current_preset == p,
    decreases k,
{
    let r = st.retargeted(p, true, n);
    assert(r == st);
    if k == 1 {
        assert(resynced_advanced_by(st, p, n, 1) == resynced_advanced_by(st.advanced(), p, n, 0));
    } else {
        let a = st.advanced();
        assert(a.pending_preset == Some(p));
        assert(a.crossfade_position == st.crossfade_position + 1);
        lemma_crossfade_completes_under_resync(a, p, (k - 1) as nat, n);
    }
}

/// `k` samples of crossfade, re-aiming at `p` before each one.
pub open spec fn resynced_advanced_by(st: ControlState, p: PresetId, n: nat, k: nat) -> ControlState
    decreases k,
{
    if k == 0 {
        st
    } else {
        resynced_advanced_by(st.retargeted(p, true, n).advanced(), p, n, (k - 1) as nat)
    }
}

/// Starting the timed cycle makes it run, with the next step `switch_samples`
/// away, whenever some slot can be played: a cycle that is already active
/// (paused, or stepped by hand) runs on from the slot it holds, and an
/// inactive one first steps onto an enabled slot. Only with no slot enabled
/// on an inactive cycle does nothing happen.
pub proof fn lemma_timed_start_runs(
    st: ControlState,
    slots: Seq<CycleSlot>,
    base_preset: PresetId,
    switch_samples: nat,
    return_to_reference: bool,
)
    requires
        st.valid(),
        slots.len() == PRESET_COUNT,
    ensures
        st.cycle_active ==> {
            let r = st.timed_started(slots, base_preset, switch_samples);
            &&& r.cycle_running
            &&& r.cycle_active
            &&& r.cycle_current_slot == st.cycle_current_slot
            &&& r.cycle_reference_preset == st.cycle_reference_preset
            &&& r.samples_until_cycle_step == switch_samples
        },
        any_enabled(slots) ==> {
            let r = st.timed_started(slots, base_preset, switch_samples);
            &&& r.cycle_running
            &&& r.samples_until_cycle_step == switch_samples
            &&& r.cycle_current_slot matches Some(k) && k < PRESET_COUNT
        },
        !st.cycle_active && !any_enabled(slots) ==> st.timed_started(slots, base_preset, switch_samples) == st,
        st.after_action(
            QuickCycleAction::StartOrCycle,
            slots,
            QuickCycleMode::Timed,
            return_to_reference,
            base_preset,
            switch_samples,
        ) == st.timed_started(slots, base_preset, switch_samples),
{
    lemma_next_enabled_skips_disabled(slots, st.cycle_current_slot, true);
}

/// A crossfade under way advances one sample at a time without finishing
/// early.
pub proof fn lemma_crossfade_progress(st: ControlState, j: nat)
    requires
        st.valid(),
        st.pending_preset is Some,
        st.crossfade_position + j < st.crossfade_samples,
    ensures
        st.advanced_by(j) == (ControlState { crossfade_position: st.crossfade_position + j, ..st }),
    decreases j,
{
    if j > 0 {
        let n = st.advanced();
        assert(n == ControlState { crossfade_position: st.crossfade_position + 1, ..st });
        lemma_crossfade_progress(n, (j - 1) as nat);
    }
}

/// A crossfade started towards `preset` over `n` samples (at least one)
/// keeps the old preset playing, with the new one pending, for its first
/// `n - 1` samples, and hands over to `preset` with sample `n`.
pub proof fn lemma_crossfade_completes(st: ControlState, preset: PresetId, decay_matches: bool, n: nat, j: nat)
    requires
        st.valid(),
        !(st.queued() == preset && decay_matches),
    ensures
        ({
            let total = if n >= 1 { n } else { 1 };
            let started = st.retargeted(preset, decay_matches, n);
            &&& started.pending_preset == Some(preset)
            &&& started.crossfade_position == 0
            &&& started.crossfade_samples == total
            &&& (j < total ==> started.advanced_by(j).pending_preset == Some(preset)
                && started.advanced_by(j).current_preset == st.current_preset
                && started.advanced_by(j).crossfade_position == j)
            &&& started.advanced_by(total).pending_preset is None
            &&& started.advanced_by(total).current_preset == preset
        }),
{
    let total = if n >= 1 { n } else { 1 };
    let started = st.retargeted(preset, decay_matches, n);
    assert(started.valid());
    if j < total {
        lemma_crossfade_progress(started, j);
    }
    let total1 = (total - 1) as nat;
    lemma_crossfade_progress(started, total1);
    let before = started.advanced_by(total1);
    assert(before.advanced().pending_preset is None);
    lemma_advanced_by_split(started, total1);
}

proof fn lemma_advanced_by_split(st: ControlState, n: nat)
    ensures
        st.advanced_by(n + 1) == st.advanced_by(n).advanced(),
    decreases n,
{
    assert(st.advanced_by(n + 1) == st.advanced().advanced_by(n));
    if n > 0 {
        lemma_advanced_by_split(st.advanced(), (n - 1) as nat);
        assert(st.advanced_by(n) == st.advanced().advanced_by((n - 1) as nat));
    } else {
        assert(st.advanced().advanced_by(0) == st.advanced());
    }
}

} // verus!
