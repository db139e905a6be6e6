//! Quick Cycle shared state: the ordered, switchable list of presets that the
//! transport steps through, the action the editor has requested, and the
//! status that the audio side reports back.

use vstd::prelude::*;
use crate::preset::{PresetId, PRESET_COUNT};

verus! {

/// Code that marks "no preset" in the status fields.
pub const NONE_INDEX: u32 = 0xffff_ffff;

/// A transport request made from the editor.
#[derive(Clone, Copy, Debug, PartialEq, Eq, Structural)]
pub enum QuickCycleAction {
    NoAction,
    Previous,
    StartOrCycle,
    PauseOrStop,
    Next,
    ReturnToReference,
}

/// Numeric code of an action.
pub open spec fn action_code(a: QuickCycleAction) -> u32 {
    match a {
        QuickCycleAction::NoAction => 0,
        QuickCycleAction::Previous => 1,
        QuickCycleAction::StartOrCycle => 2,
        QuickCycleAction::PauseOrStop => 3,
        QuickCycleAction::Next => 4,
        QuickCycleAction::ReturnToReference => 5,
    }
}

/// Action of a numeric code; unknown codes mean no action.
pub open spec fn action_of_code(code: u32) -> QuickCycleAction {
    if code == 1 {
        QuickCycleAction::Previous
    } else if code == 2 {
        QuickCycleAction::StartOrCycle
    } else if code == 3 {
        QuickCycleAction::PauseOrStop
    } else if code == 4 {
        QuickCycleAction::Next
    } else if code == 5 {
        QuickCycleAction::ReturnToReference
    } else {
        QuickCycleAction::NoAction
    }
}

impl QuickCycleAction {
    /// Numeric code of this action.
    pub fn code(self) -> (c: u32)
        ensures
            c == action_code(self),
    {
        match self {
            QuickCycleAction::NoAction => 0,
            QuickCycleAction::Previous => 1,
            QuickCycleAction::StartOrCycle => 2,
            QuickCycleAction::PauseOrStop => 3,
            QuickCycleAction::Next => 4,
            QuickCycleAction::ReturnToReference => 5,
        }
    }

    /// The action with numeric code `code`; any unknown code is `None`.
    pub fn from_code(code: u32) -> (a: QuickCycleAction)
        ensures
            a == action_of_code(code),
    {
        match code {
            1 => QuickCycleAction::Previous,
            2 => QuickCycleAction::StartOrCycle,
            3 => QuickCycleAction::PauseOrStop,
            4 => QuickCycleAction::Next,
            5 => QuickCycleAction::ReturnToReference,
            _ => QuickCycleAction::NoAction,
        }
    }
}

/// Decoding the code of an action gives the action back.
pub proof fn lemma_action_code_round_trip(a: QuickCycleAction)
    ensures
        action_of_code(action_code(a)) == a,
{
}

/// The numeric codes of the transport actions, and every other code read as
/// no action.
pub proof fn lemma_action_codes(code: u32)
    ensures
        action_code(QuickCycleAction::NoAction) == 0,
        action_code(QuickCycleAction::Previous) == 1,
        action_code(QuickCycleAction::StartOrCycle) == 2,
        action_code(QuickCycleAction::PauseOrStop) == 3,
        action_code(QuickCycleAction::Next) == 4,
        action_code(QuickCycleAction::ReturnToReference) == 5,
        code > 5 ==> action_of_code(code) == QuickCycleAction::NoAction,
        code <= 5 ==> action_code(action_of_code(code)) == code,
{
}

/// Status code of an optional preset.
pub open spec fn preset_code(p: Option<PresetId>) -> u32 {
    match p {
        Some(id) => crate::preset::preset_index(id) as u32,
        None => NONE_INDEX,
    }
}

/// Optional preset of a status code (meaningful for codes made by `preset_code`).
pub open spec fn preset_of_code(code: u32) -> Option<PresetId> {
    if code == NONE_INDEX {
        None
    } else {
        Some(crate::preset::preset_at(code as int))
    }
}

/// Status code of a preset.
pub fn preset_to_u32(preset: PresetId) -> (c: u32)
    ensures
        c == crate::preset::preset_index(preset),
        c < PRESET_COUNT,
{
    preset.to_index() as u32
}

/// Preset of a status code; `NONE_INDEX` stands for no preset.
pub fn preset_from_u32(value: u32) -> (p: Option<PresetId>)
    requires
        value == NONE_INDEX || value < PRESET_COUNT,
    ensures
        p == preset_of_code(value),
        value == NONE_INDEX <==> p is None,
        p matches Some(id) ==> crate::preset::preset_index(id) == value,
{
    if value == NONE_INDEX {
        None
    } else {
        Some(PresetId::from_index(value as usize))
    }
}

fn optional_preset_code(p: Option<PresetId>) -> (c: u32)
    ensures
        c == preset_code(p),
{
    match p {
        Some(id) => preset_to_u32(id),
        None => NONE_INDEX,
    }
}

/// Encoding an optional preset as a status code and decoding it gives it back.
pub proof fn lemma_preset_code_round_trip(p: Option<PresetId>)
    ensures
        preset_of_code(preset_code(p)) == p,
        preset_code(p) == NONE_INDEX || preset_code(p) < PRESET_COUNT,
{
}

/// One entry of the cycle list.
#[derive(Clone, Copy, Debug)]
pub struct CycleSlot {
    pub preset: PresetId,
    pub enabled: bool,
}

/// The cycle list as read at one moment.
#[derive(Clone, Copy, Debug)]
pub struct QuickCycleSnapshot {
    pub slots: [CycleSlot; PRESET_COUNT],
}

/// Shared Quick Cycle state.
#[derive(Debug)]
pub struct QuickCycleShared {
    enabled: [bool; PRESET_COUNT],
    order: [u32; PRESET_COUNT],
    pending_action: u32,
    current_preset: u32,
    next_preset: u32,
    running: bool,
}

/// What the shared Quick Cycle state holds, as mathematical values.
pub struct QuickCycleState {
    /// Enabled flag of each slot.
    pub enabled: Seq<bool>,
    /// Index of the preset that each slot holds.
    pub order: Seq<u32>,
    /// The action waiting to be taken.
    pub pending: QuickCycleAction,
    /// The preset reported as playing.
    pub current: Option<PresetId>,
    /// The preset reported as next in the cycle.
    pub next: Option<PresetId>,
    /// Whether a timed cycle is reported as running.
    pub running: bool,
}

/// `order` holds each of `0..PRESET_COUNT` exactly once.
pub open spec fn is_slot_permutation(order: Seq<u32>) -> bool {
    &&& order.len() == PRESET_COUNT
    &&& forall|i: int| 0 <= i < PRESET_COUNT ==> #[trigger] order[i] < PRESET_COUNT
    &&& forall|i: int, j: int|
        0 <= i < PRESET_COUNT && 0 <= j < PRESET_COUNT && i != j ==> #[trigger] order[i]
            != #[trigger] order[j]
}

impl QuickCycleState {
    /// A valid state: the slots hold every preset once and each slot has a flag.
    pub open spec fn valid(self) -> bool {
        &&& is_slot_permutation(self.order)
        &&& self.enabled.len() == PRESET_COUNT
    }

    /// Preset held by slot `slot`.
    pub open spec fn slot_preset(self, slot: int) -> PresetId {
        crate::preset::preset_at(self.order[slot] as int)
    }

    /// The cycle list: each slot with its preset and enabled flag.
    pub open spec fn slots(self) -> Seq<CycleSlot> {
        Seq::new(
            PRESET_COUNT as nat,
            |i: int| CycleSlot { preset: self.slot_preset(i), enabled: self.enabled[i] },
        )
    }

    /// The state after slot `slot` is switched on or off.
    pub open spec fn with_slot_enabled(self, slot: int, enabled: bool) -> QuickCycleState {
        QuickCycleState { enabled: self.enabled.update(slot, enabled), ..self }
    }

    /// The state after slot `slot` moves up one place (the first slot, and
    /// slots past the end, stay).
    pub open spec fn moved_up(self, slot: int) -> QuickCycleState {
        if 1 <= slot < PRESET_COUNT {
            QuickCycleState { order: swap_with_previous(self.order, slot), ..self }
        } else {
            self
        }
    }

    /// The state after slot `slot` moves down one place (the last slot, and
    /// slots past the end, stay).
    pub open spec fn moved_down(self, slot: int) -> QuickCycleState {
        if 0 <= slot && slot + 1 < PRESET_COUNT {
            QuickCycleState { order: swap_with_previous(self.order, slot + 1), ..self }
        } else {
            self
        }
    }

    /// The state after `action` is requested.
    pub open spec fn requested(self, action: QuickCycleAction) -> QuickCycleState {
        QuickCycleState { pending: action, ..self }
    }

    /// The state after the waiting action is taken.
    pub open spec fn taken(self) -> QuickCycleState {
        QuickCycleState { pending: QuickCycleAction::NoAction, ..self }
    }

    /// The state after the audio side reports its status.
    pub open spec fn with_status(
        self,
        current: Option<PresetId>,
        next: Option<PresetId>,
        running: bool,
    ) -> QuickCycleState {
        QuickCycleState { current, next, running, ..self }
    }
}

impl View for QuickCycleShared {
    type V = QuickCycleState;

    closed spec fn view(&self) -> QuickCycleState {
        QuickCycleState {
            enabled: self.enabled@,
            order: self.order@,
            pending: action_of_code(self.pending_action),
            current: preset_of_code(self.current_preset),
            next: preset_of_code(self.next_preset),
            running: self.running,
        }
    }
}

impl QuickCycleShared {
    /// The order is a permutation of the presets and the status codes are valid.
    pub closed spec fn wf(&self) -> bool {
        &&& is_slot_permutation(self.order@)
        &&& (self.current_preset == NONE_INDEX || self.current_preset < PRESET_COUNT)
        &&& (self.next_preset == NONE_INDEX || self.next_preset < PRESET_COUNT)
    }

    /// A well-formed value has a valid view.
    pub proof fn lemma_wf_valid(&self)
        requires
            self.wf(),
        ensures
            self@.valid(),
    {
    }

    /// All slots enabled, in declaration order, no request, nothing playing.
    pub fn new() -> (s: QuickCycleShared)
        ensures
            s.wf(),
            s@.enabled == seq![true, true, true, true, true, true],
            s@.order == seq![0u32, 1, 2, 3, 4, 5],
            s@.pending == QuickCycleAction::NoAction,
            s@.current is None,
            s@.next is None,
            !s@.running,
    {
        let s = QuickCycleShared {
            enabled: [true, true, true, true, true, true],
            order: [0, 1, 2, 3, 4, 5],
            pending_action: QuickCycleAction::NoAction.code(),
            current_preset: NONE_INDEX,
            next_preset: NONE_INDEX,
            running: false,
        };
        assert(s.enabled@ =~= seq![true, true, true, true, true, true]);
        assert(s.order@ =~= seq![0u32, 1, 2, 3, 4, 5]);
        s
    }

    /// The cycle list as it stands: each slot with its preset and enabled flag.
    pub fn snapshot(&self) -> (snap: QuickCycleSnapshot)
        requires
            self.wf(),
        ensures
            snap.slots@ == self@.slots(),
            forall|i: int|
                0 <= i < PRESET_COUNT ==> crate::preset::preset_index(#[trigger] snap.slots@[i].preset)
                    == self@.order[i] && snap.slots@[i].enabled == self@.enabled[i],
    {
        let mut slots = [CycleSlot { preset: PresetId::CarHatchback, enabled: false }; PRESET_COUNT];
        let mut slot: usize = 0;
        while slot < PRESET_COUNT
            invariant
                self.wf(),
                slot <= PRESET_COUNT,
                forall|i: int|
                    0 <= i < slot ==> (#[trigger] slots@[i]).preset == self@.slot_preset(i)
                        && slots@[i].enabled == self@.enabled[i],
            decreases PRESET_COUNT - slot,
        {
            let index = self.order[slot] as usize % PRESET_COUNT;
            slots[slot] = CycleSlot { preset: PresetId::from_index(index), enabled: self.enabled[slot] };
            slot = slot + 1;
        }
        assert(slots@ =~= self@.slots());
        assert forall|i: int| 0 <= i < PRESET_COUNT implies crate::preset::preset_index(#[trigger] slots@[i].preset)
            == self@.order[i] by {
            crate::preset::lemma_preset_index_round_trip(slots@[i].preset, self@.order[i] as nat);
        }
        QuickCycleSnapshot { slots }
    }

    /// Whether slot `slot` takes part in the cycle.
    pub fn is_slot_enabled(&self, slot: usize) -> (b: bool)
        requires
            slot < PRESET_COUNT,
        ensures
            b == self@.enabled[slot as int],
    {
        self.enabled[slot]
    }

    /// Lets slot `slot` take part in the cycle, or not; nothing else changes.
    pub fn set_slot_enabled(&mut self, slot: usize, enabled: bool)
        requires
            old(self).wf(),
            slot < PRESET_COUNT,
        ensures
            final(self).wf(),
            final(self)@ == old(self)@.with_slot_enabled(slot as int, enabled),
            final(self)@.enabled.len() == PRESET_COUNT,
            final(self)@.enabled[slot as int] == enabled,
            forall|i: int| 0 <= i < PRESET_COUNT && i != slot ==> #[trigger] final(self)@.enabled[i] == old(self)@.enabled[i],
            final(self)@.order == old(self)@.order,
            final(self)@.pending == old(self)@.pending,
    {
        self.enabled[slot] = enabled;
        assert(self@.enabled =~= old(self)@.with_slot_enabled(slot as int, enabled).enabled);
    }

    /// Swaps slot `slot` with the slot above it; the first slot, and any
    /// slot past the end, stay where they are.
    pub fn move_up(&mut self, slot: usize)
        requires
            old(self).wf(),
        ensures
            final(self).wf(),
            final(self)@ == old(self)@.moved_up(slot as int),
            1 <= slot < PRESET_COUNT ==> final(self)@.order[slot - 1] == old(self)@.order[slot as int]
                && final(self)@.order[slot as int] == old(self)@.order[slot - 1],
            forall|i: int|
                0 <= i < PRESET_COUNT && i != slot && i + 1 != slot ==> #[trigger] final(self)@.order[i]
                    == old(self)@.order[i],
            !(1 <= slot < PRESET_COUNT) ==> final(self)@.order == old(self)@.order,
            final(self)@.enabled == old(self)@.enabled,
    {
        proof {
            lemma_moves_swap_neighbours(old(self)@, slot as int);
        }
        if slot == 0 || slot >= PRESET_COUNT {
            return;
        }
        let current = self.order[slot];
        let previous = self.order[slot - 1];
        self.order[slot - 1] = current;
        self.order[slot] = previous;
        assert(self.order@ =~= swap_with_previous(old(self).order@, slot as int));
        proof {
            lemma_swap_keeps_permutation(old(self).order@, slot as int);
        }
    }

    /// Swaps slot `slot` with the slot below it; the last slot, and any
    /// slot past the end, stay where they are.
    pub fn move_down(&mut self, slot: usize)
        requires
            old(self).wf(),
            slot < usize::MAX,
        ensures
            final(self).wf(),
            final(self)@ == old(self)@.moved_down(slot as int),
            slot + 1 < PRESET_COUNT ==> final(self)@.order[slot as int] == old(self)@.order[slot + 1]
                && final(self)@.order[slot + 1] == old(self)@.order[slot as int],
            forall|i: int|
                0 <= i < PRESET_COUNT && i != slot && i != slot + 1 ==> #[trigger] final(self)@.order[i]
                    == old(self)@.order[i],
            slot + 1 >= PRESET_COUNT ==> final(self)@.order == old(self)@.order,
            final(self)@.enabled == old(self)@.enabled,
    {
        proof {
            lemma_moves_swap_neighbours(old(self)@, slot as int);
        }
        if slot + 1 >= PRESET_COUNT {
            return;
        }
        let current = self.order[slot];
        let next = self.order[slot + 1];
        self.order[slot + 1] = current;
        self.order[slot] = next;
        assert(self.order@ =~= swap_with_previous(old(self).order@, slot + 1));
        proof {
            lemma_swap_keeps_permutation(old(self).order@, slot + 1);
        }
    }

    /// Leaves `action` for the audio side to take.
    pub fn request_action(&mut self, action: QuickCycleAction)
        requires
            old(self).wf(),
        ensures
            final(self).wf(),
            final(self)@ == old(self)@.requested(action),
            final(self)@.pending == action,
            final(self)@.order == old(self)@.order && final(self)@.enabled == old(self)@.enabled,
    {
        self.pending_action = action.code();
    }

    /// Takes the waiting action, leaving none behind.
    pub fn take_action(&mut self) -> (action: QuickCycleAction)
        requires
            old(self).wf(),
        ensures
            action == old(self)@.pending,
            final(self).wf(),
            final(self)@ == old(self)@.taken(),
            final(self)@.pending == QuickCycleAction::NoAction,
            final(self)@.order == old(self)@.order && final(self)@.enabled == old(self)@.enabled,
            final(self)@.current == old(self)@.current && final(self)@.next == old(self)@.next,
    {
        let code = self.pending_action;
        self.pending_action = QuickCycleAction::NoAction.code();
        QuickCycleAction::from_code(code)
    }

    /// Reports what is playing, what comes next and whether a timed cycle runs.
    pub fn set_status(&mut self, current: Option<PresetId>, next: Option<PresetId>, running: bool)
        requires
            old(self).wf(),
        ensures
            final(self).wf(),
            final(self)@ == old(self)@.with_status(current, next, running),
            final(self)@.current == current && final(self)@.next == next && final(self)@.running == running,
            final(self)@.order == old(self)@.order && final(self)@.enabled == old(self)@.enabled,
            final(self)@.pending == old(self)@.pending,
    {
        self.current_preset = optional_preset_code(current);
        self.next_preset = optional_preset_code(next);
        self.running = running;
        proof {
            lemma_preset_code_round_trip(current);
            lemma_preset_code_round_trip(next);
        }
    }

    /// The preset reported as playing.
    pub fn current_preset(&self) -> (p: Option<PresetId>)
        requires
            self.wf(),
        ensures
            p == self@.current,
    {
        preset_from_u32(self.current_preset)
    }

    /// The preset reported as next in the cycle.
    pub fn next_preset(&self) -> (p: Option<PresetId>)
        requires
            self.wf(),
        ensures
            p == self@.next,
    {
        preset_from_u32(self.next_preset)
    }

    /// Whether a timed cycle is reported as running.
    pub fn is_running(&self) -> (b: bool)
        ensures
            b == self@.running,
    {
        self.running
    }
}

impl Default for QuickCycleShared {
    fn default() -> (s: QuickCycleShared)
        ensures
            s.wf(),
            s@.enabled == seq![true, true, true, true, true, true],
            s@.order == seq![0u32, 1, 2, 3, 4, 5],
            s@.pending == QuickCycleAction::NoAction,
            s@.current is None,
            s@.next is None,
            !s@.running,
    {
        QuickCycleShared::new()
    }
}

/// `order` with positions `i - 1` and `i` exchanged.
pub open spec fn swap_with_previous(order: Seq<u32>, i: int) -> Seq<u32> {
    order.update(i - 1, order[i]).update(i, order[i - 1])
}

/// Exchanging two neighbouring slots keeps the order a permutation.
pub proof fn lemma_swap_keeps_permutation(order: Seq<u32>, i: int)
    requires
        is_slot_permutation(order),
        1 <= i < PRESET_COUNT,
    ensures
        is_slot_permutation(swap_with_previous(order, i)),
{
    let s = swap_with_previous(order, i);
    assert forall|a: int, b: int|
        0 <= a < PRESET_COUNT && 0 <= b < PRESET_COUNT && a != b implies #[trigger] s[a]
        != #[trigger] s[b] by {
        let oa = if a == i - 1 { i } else if a == i { i - 1 } else { a };
        let ob = if b == i - 1 { i } else if b == i { i - 1 } else { b };
        assert(s[a] == order[oa]);
        assert(s[b] == order[ob]);
    }
}

/// Moving slot `slot` up exchanges it with the slot above it (for every slot
/// but the first), and moving it down exchanges it with the slot below it
/// (for every slot but the last); every other slot, and every enabled flag,
/// stays as it was. Slots that cannot move leave the list unchanged.
pub proof fn lemma_moves_swap_neighbours(s: QuickCycleState, slot: int)
    requires
        s.valid(),
    ensures
        1 <= slot < PRESET_COUNT ==> s.moved_up(slot).order[slot - 1] == s.order[slot]
            && s.moved_up(slot).order[slot] == s.order[slot - 1],
        forall|i: int|
            0 <= i < PRESET_COUNT && i != slot && i + 1 != slot ==> #[trigger] s.moved_up(slot).order[i] == s.order[i],
        !(1 <= slot < PRESET_COUNT) ==> s.moved_up(slot).order == s.order,
        0 <= slot && slot + 1 < PRESET_COUNT ==> s.moved_down(slot).order[slot] == s.order[slot + 1]
            && s.moved_down(slot).order[slot + 1] == s.order[slot],
        forall|i: int|
            0 <= i < PRESET_COUNT && i != slot && i != slot + 1 ==> #[trigger] s.moved_down(slot).order[i] == s.order[i],
        !(0 <= slot && slot + 1 < PRESET_COUNT) ==> s.moved_down(slot).order == s.order,
        s.moved_up(slot).order.len() == PRESET_COUNT,
        s.moved_down(slot).order.len() == PRESET_COUNT,
        s.moved_up(slot).enabled == s.enabled,
        s.moved_down(slot).enabled == s.enabled,
{
}

/// Seen through the snapshot: after `move_up(slot)` (1 <= slot) the slot
/// above shows the preset that `slot` showed and `slot` shows the one above,
/// so an entry can reach the top of the list; `move_down` mirrors this.
pub proof fn lemma_moves_swap_snapshot_presets(s: QuickCycleState, slot: int)
    requires
        s.valid(),
        0 <= slot < PRESET_COUNT,
    ensures
        1 <= slot ==> s.moved_up(slot).slot_preset(slot - 1) == s.slot_preset(slot)
            && s.moved_up(slot).slot_preset(slot) == s.slot_preset(slot - 1),
        slot + 1 < PRESET_COUNT ==> s.moved_down(slot).slot_preset(slot) == s.slot_preset(slot + 1)
            && s.moved_down(slot).slot_preset(slot + 1) == s.slot_preset(slot),
{
    lemma_moves_swap_neighbours(s, slot);
}

/// Moving a slot up and then moving the slot above it back down restores the
/// cycle list.
pub proof fn lemma_move_up_then_down_restores(s: QuickCycleState, slot: int)
    requires
        s.valid(),
        1 <= slot < PRESET_COUNT,
    ensures
        s.moved_up(slot).moved_down(slot - 1) == s,
{
    assert(s.moved_up(slot).moved_down(slot - 1).order =~= s.order);
}

/// Moving a slot down and then moving the slot below it back up restores the
/// cycle list.
pub proof fn lemma_move_down_then_up_restores(s: QuickCycleState, slot: int)
    requires
        s.valid(),
        0 <= slot,
        slot + 1 < PRESET_COUNT,
    ensures
        s.moved_down(slot).moved_up(slot + 1) == s,
{
    assert(s.moved_down(slot).moved_up(slot + 1).order =~= s.order);
}

/// Reordering and switching slots keep a valid cycle list valid.
pub proof fn lemma_edits_keep_valid(s: QuickCycleState, slot: int, enabled: bool)
    requires
        s.valid(),
    ensures
        s.moved_up(slot).valid(),
        s.moved_down(slot).valid(),
        0 <= slot < PRESET_COUNT ==> s.with_slot_enabled(slot, enabled).valid(),
{
    if 1 <= slot < PRESET_COUNT {
        lemma_swap_keeps_permutation(s.order, slot);
    }
    if 0 <= slot && slot + 1 < PRESET_COUNT {
        lemma_swap_keeps_permutation(s.order, slot + 1);
    }
}

/// Switching a slot on or off changes that slot's flag only.
pub proof fn lemma_enable_reads_back(s: QuickCycleState, slot: int, enabled: bool, other: int)
    requires
        s.valid(),
        0 <= slot < PRESET_COUNT,
        0 <= other < PRESET_COUNT,
    ensures
        s.with_slot_enabled(slot, enabled).enabled[slot] == enabled,
        other != slot ==> s.with_slot_enabled(slot, enabled).enabled[other] == s.enabled[other],
        s.with_slot_enabled(slot, enabled).order == s.order,
{
}

/// The action that is taken is the one last requested; after it is taken
/// there is no action left, and nothing else has changed.
pub proof fn lemma_take_returns_request(s: QuickCycleState, a: QuickCycleAction, b: QuickCycleAction)
    ensures
        s.requested(b).requested(a).pending == a,
        s.requested(a).taken().pending == QuickCycleAction::NoAction,
        s.requested(a).taken() == s.taken(),
        s.taken().taken().pending == QuickCycleAction::NoAction,
{
}

/// The status read back is the status last reported.
pub proof fn lemma_status_reads_back(
    s: QuickCycleState,
    current: Option<PresetId>,
    next: Option<PresetId>,
    running: bool,
)
    ensures
        s.with_status(current, next, running).current == current,
        s.with_status(current, next, running).next == next,
        s.with_status(current, next, running).running == running,
        s.with_status(current, next, running).order == s.order,
        s.with_status(current, next, running).enabled == s.enabled,
        s.with_status(current, next, running).pending == s.pending,
{
}

/// In a valid cycle list every preset sits in exactly one slot.
pub proof fn lemma_each_preset_in_one_slot(s: QuickCycleState, p: PresetId)
    requires
        s.valid(),
    ensures
        exists|i: int| 0 <= i < PRESET_COUNT && #[trigger] s.slot_preset(i) == p,
        forall|i: int, j: int|
            0 <= i < PRESET_COUNT && 0 <= j < PRESET_COUNT && i != j ==> #[trigger] s.slot_preset(i)
                != #[trigger] s.slot_preset(j),
{
    let o = s.order;
    let v = crate::preset::preset_index(p);
    assert(o[0] < 6 && o[1] < 6 && o[2] < 6 && o[3] < 6 && o[4] < 6 && o[5] < 6);
    assert(o[0] != o[1] && o[0] != o[2] && o[0] != o[3] && o[0] != o[4] && o[0] != o[5]);
    assert(o[1] != o[2] && o[1] != o[3] && o[1] != o[4] && o[1] != o[5]);
    assert(o[2] != o[3] && o[2] != o[4] && o[2] != o[5]);
    assert(o[3] != o[4] && o[3] != o[5]);
    assert(o[4] != o[5]);
    assert(o[0] == v || o[1] == v || o[2] == v || o[3] == v || o[4] == v || o[5] == v);
    if o[0] == v {
        assert(s.slot_preset(0) == p);
    } else if o[1] == v {
        assert(s.slot_preset(1) == p);
    } else if o[2] == v {
        assert(s.slot_preset(2) == p);
    } else if o[3] == v {
        assert(s.slot_preset(3) == p);
    } else if o[4] == v {
        assert(s.slot_preset(4) == p);
    } else {
        assert(s.slot_preset(5) == p);
    }
    assert forall|i: int, j: int|
        0 <= i < PRESET_COUNT && 0 <= j < PRESET_COUNT && i != j implies #[trigger] s.slot_preset(i)
        != #[trigger] s.slot_preset(j) by {
        assert(crate::preset::preset_index(crate::preset::preset_at(o[i] as int)) == o[i]);
        assert(crate::preset::preset_index(crate::preset::preset_at(o[j] as int)) == o[j]);
    }
}

} // verus!
