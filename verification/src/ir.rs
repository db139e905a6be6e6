//! The impulse-response bank: the bundled impulse responses as decoded, and
//! the same responses prepared for the host's sample rate. The sample type is
//! left open; the audio side stores its own samples here.

use vstd::prelude::*;
use crate::preset::{PresetId, PRESET_COUNT};

verus! {

/// A two-channel impulse response.
#[derive(Debug, Clone)]
pub struct StereoIr<S> {
    pub sample_rate: u32,
    pub left: Vec<S>,
    pub right: Vec<S>,
}

/// Number of frames of an impulse response: the shorter channel's length.
pub open spec fn ir_len<S>(ir: StereoIr<S>) -> nat {
    if ir.left@.len() <= ir.right@.len() {
        ir.left@.len()
    } else {
        ir.right@.len()
    }
}

impl<S> StereoIr<S> {
    /// Number of frames: the shorter channel's length.
    pub fn len(&self) -> (n: usize)
        ensures
            n == ir_len(*self),
    {
        let l = self.left.len();
        let r = self.right.len();
        if l <= r {
            l
        } else {
            r
        }
    }

    /// Whether resampling to `target_sample_rate` changes anything: not when
    /// the rate is already the target, nor for a response of at most one frame
    /// (either is kept as it is).
    pub fn needs_resampling(&self, target_sample_rate: u32) -> (b: bool)
        ensures
            b == (self.sample_rate != target_sample_rate && ir_len(*self) > 1),
    {
        !(self.sample_rate == target_sample_rate || self.len() <= 1)
    }
}

/// A bundled impulse response as decoded.
#[derive(Debug, Clone)]
pub struct BundledIr<S> {
    pub id: PresetId,
    pub ir: StereoIr<S>,
}

/// A bundled impulse response prepared for the host's sample rate.
#[derive(Debug, Clone)]
pub struct PreparedPreset<S> {
    pub id: PresetId,
    pub ir: StereoIr<S>,
}

/// Longest impulse response among `prepared` (zero when there is none).
pub open spec fn max_ir_len<S>(prepared: Seq<PreparedPreset<S>>) -> nat
    decreases prepared.len(),
{
    if prepared.len() == 0 {
        0
    } else {
        let rest = max_ir_len(prepared.drop_last());
        let last = ir_len(prepared.last().ir);
        if rest >= last {
            rest
        } else {
            last
        }
    }
}

/// `decode` can succeed on preset `id`.
pub open spec fn decodes_preset<S, E, D: Fn(PresetId) -> Result<StereoIr<S>, E>>(decode: D, id: PresetId) -> bool {
    exists|ir: StereoIr<S>| call_ensures(decode, (id,), Ok(ir))
}

impl<S> BundledIr<S> {
    /// Decodes the impulse response of every preset, in declaration order,
    /// with `decode`; the first failure is returned as it is.
    pub fn load_all<E, D>(decode: D) -> (r: Result<Vec<BundledIr<S>>, E>)
        where
            D: Fn(PresetId) -> Result<StereoIr<S>, E>,
        requires
            forall|id: PresetId| call_requires(decode, (id,)),
        ensures
            r matches Ok(v) ==> {
                &&& v@.len() == PRESET_COUNT
                &&& forall|i: int|
                    0 <= i < PRESET_COUNT ==> #[trigger] v@[i].id == crate::preset::preset_at(i)
                        && call_ensures(decode, (crate::preset::preset_at(i),), Ok(v@[i].ir))
            },
            r matches Err(e) ==> exists|i: int|
                0 <= i < PRESET_COUNT && call_ensures(decode, (#[trigger] crate::preset::preset_at(i),), Err(e))
                    && forall|j: int| 0 <= j < i ==> #[trigger] decodes_preset(decode, crate::preset::preset_at(j)),
    {
        let mut presets: Vec<BundledIr<S>> = Vec::new();
        let mut i: usize = 0;
        while i < PRESET_COUNT
            invariant
                i <= PRESET_COUNT,
                presets@.len() == i,
                forall|id: PresetId| call_requires(decode, (id,)),
                forall|j: int|
                    0 <= j < i ==> #[trigger] presets@[j].id == crate::preset::preset_at(j)
                        && call_ensures(decode, (crate::preset::preset_at(j),), Ok(presets@[j].ir)),
            decreases PRESET_COUNT - i,
        {
            let id = PresetId::from_index(i);
            match decode(id) {
                Ok(ir) => presets.push(BundledIr { id, ir }),
                Err(e) => {
                    assert forall|j: int| 0 <= j < i implies #[trigger] decodes_preset(decode, crate::preset::preset_at(j)) by {
                        assert(presets@[j].id == crate::preset::preset_at(j));
                        assert(call_ensures(decode, (crate::preset::preset_at(j),), Ok(presets@[j].ir)));
                    }
                    assert(call_ensures(decode, (crate::preset::preset_at(i as int),), Err(e)));
                    return Err(e);
                },
            }
            i = i + 1;
        }
        Ok(presets)
    }
}

/// The bundled impulse responses hold one response per preset, in
/// declaration order, so every preset can be found among them.
pub proof fn lemma_bundled_cover_presets<S>(raw: Seq<BundledIr<S>>, id: PresetId)
    requires
        raw.len() == PRESET_COUNT,
        forall|i: int| 0 <= i < PRESET_COUNT ==> #[trigger] raw[i].id == crate::preset::preset_at(i),
    ensures
        exists|i: int| 0 <= i < raw.len() && #[trigger] raw[i].id == id,
{
    let i = crate::preset::preset_index(id) as int;
    assert(raw[i].id == id);
}

/// What the bank holds, as mathematical values.
pub struct IrBank<S> {
    /// The bundled impulse responses as decoded.
    pub raw: Seq<BundledIr<S>>,
    /// The impulse responses prepared for `prepared_rate`.
    pub prepared: Seq<PreparedPreset<S>>,
    /// The sample rate the prepared responses are for.
    pub prepared_rate: Option<u32>,
    /// Length of the longest prepared response.
    pub max_len: nat,
}

impl<S> IrBank<S> {
    /// The prepared responses match the decoded ones one for one, and `max_len`
    /// is the longest of them.
    pub open spec fn valid(self) -> bool {
        &&& self.max_len == max_ir_len(self.prepared)
    }

    /// Whether some prepared response belongs to `id`.
    pub open spec fn has_prepared(self, id: PresetId) -> bool {
        exists|i: int| 0 <= i < self.prepared.len() && #[trigger] self.prepared[i].id == id
    }
}

/// The impulse-response bank.
#[derive(Debug)]
pub struct IrState<S> {
    raw_presets: Vec<BundledIr<S>>,
    prepared_presets: Vec<PreparedPreset<S>>,
    prepared_sample_rate: Option<u32>,
    max_prepared_len: usize,
}

impl<S> View for IrState<S> {
    type V = IrBank<S>;

    closed spec fn view(&self) -> IrBank<S> {
        IrBank {
            raw: self.raw_presets@,
            prepared: self.prepared_presets@,
            prepared_rate: self.prepared_sample_rate,
            max_len: self.max_prepared_len as nat,
        }
    }
}

/// Taking one more response into account raises the longest length to that
/// response's length if it is longer.
proof fn lemma_max_ir_len_push<S>(prepared: Seq<PreparedPreset<S>>, p: PreparedPreset<S>)
    ensures
        max_ir_len(prepared.push(p)) == (if max_ir_len(prepared) >= ir_len(p.ir) {
            max_ir_len(prepared)
        } else {
            ir_len(p.ir)
        }),
{
    assert(prepared.push(p).drop_last() =~= prepared);
}

/// No response is longer than the longest one.
pub proof fn lemma_max_ir_len_bounds<S>(prepared: Seq<PreparedPreset<S>>, i: int)
    requires
        0 <= i < prepared.len(),
    ensures
        ir_len(prepared[i].ir) <= max_ir_len(prepared),
    decreases prepared.len(),
{
    if i < prepared.len() - 1 {
        lemma_max_ir_len_bounds(prepared.drop_last(), i);
    }
}

impl<S> IrState<S> {
    /// An empty bank: nothing decoded, nothing prepared.
    pub fn new() -> (s: IrState<S>)
        ensures
            s@.raw.len() == 0,
            s@.prepared.len() == 0,
            s@.prepared_rate is None,
            s@.max_len == 0,
            s@.valid(),
    {
        IrState {
            raw_presets: Vec::new(),
            prepared_presets: Vec::new(),
            prepared_sample_rate: None,
            max_prepared_len: 0,
        }
    }

    /// Prepares the bank for `target_sample_rate`. Nothing happens when it is
    /// already prepared for that rate. Otherwise the bundled responses are
    /// obtained from `load` if none are held yet, and each is handed to
    /// `resample` together with the rate; the results, in the same order,
    /// become the prepared responses.
    pub fn prepare_for_sample_rate<L, R>(&mut self, target_sample_rate: u32, load: L, resample: R)
        where
            L: FnOnce() -> Vec<BundledIr<S>>,
            R: Fn(&StereoIr<S>, u32) -> StereoIr<S>,
        requires
            old(self)@.valid(),
            call_requires(load, ()),
            forall|ir: &StereoIr<S>, rate: u32| call_requires(resample, (ir, rate)),
        ensures
            final(self)@.valid(),
            old(self)@.prepared_rate == Some(target_sample_rate) ==> final(self)@ == old(self)@,
            old(self)@.prepared_rate != Some(target_sample_rate) ==> {
                &&& old(self)@.raw.len() > 0 ==> final(self)@.raw == old(self)@.raw
                &&& old(self)@.raw.len() == 0 ==> exists|loaded: Vec<BundledIr<S>>|
                    call_ensures(load, (), loaded) && final(self)@.raw == loaded@
                &&& final(self)@.prepared.len() == final(self)@.raw.len()
                &&& forall|i: int|
                    0 <= i < final(self)@.raw.len() ==> #[trigger] final(self)@.prepared[i].id
                        == final(self)@.raw[i].id && call_ensures(
                        resample,
                        (&final(self)@.raw[i].ir, target_sample_rate),
                        final(self)@.prepared[i].ir,
                    )
                &&& final(self)@.prepared_rate == Some(target_sample_rate)
            },
    {
        if self.prepared_sample_rate == Some(target_sample_rate) {
            return;
        }
        let ghost mut loaded: Vec<BundledIr<S>> = self.raw_presets;
        let ghost was_empty = self.raw_presets@.len() == 0;
        if self.raw_presets.len() == 0 {
            let v = load();
            proof {
                loaded = v;
            }
            self.raw_presets = v;
        }
        let ghost raw = self.raw_presets@;
        assert(was_empty ==> call_ensures(load, (), loaded) && raw == loaded@);
        self.prepared_presets = Vec::new();
        self.max_prepared_len = 0;
        let n = self.raw_presets.len();
        let mut i: usize = 0;
        while i < n
            invariant
                n == self.raw_presets@.len(),
                raw == self.raw_presets@,
                i <= n,
                self.prepared_presets@.len() == i,
                self.max_prepared_len == max_ir_len(self.prepared_presets@),
                forall|ir: &StereoIr<S>, rate: u32| call_requires(resample, (ir, rate)),
                forall|j: int|
                    0 <= j < i ==> #[trigger] self.prepared_presets@[j].id == self.raw_presets@[j].id
                        && call_ensures(
                        resample,
                        (&self.raw_presets@[j].ir, target_sample_rate),
                        self.prepared_presets@[j].ir,
                    ),
            decreases n - i,
        {
            let ir = resample(&self.raw_presets[i].ir, target_sample_rate);
            let len = ir.len();
            let p = PreparedPreset { id: self.raw_presets[i].id, ir };
            proof {
                lemma_max_ir_len_push(self.prepared_presets@, p);
            }
            if len > self.max_prepared_len {
                self.max_prepared_len = len;
            }
            self.prepared_presets.push(p);
            i = i + 1;
        }
        self.prepared_sample_rate = Some(target_sample_rate);
    }

    /// The prepared response of preset `id` (the first one, should there be
    /// several).
    pub fn prepared_preset(&self, id: PresetId) -> (p: &PreparedPreset<S>)
        requires
            self@.has_prepared(id),
        ensures
            exists|i: int|
                0 <= i < self@.prepared.len() && *p == self@.prepared[i] && p.id == id && forall|j: int|
                    0 <= j < i ==> #[trigger] self@.prepared[j].id != id,
    {
        let mut i: usize = 0;
        while i < self.prepared_presets.len()
            invariant
                i <= self.prepared_presets@.len(),
                self@.has_prepared(id),
                forall|j: int| 0 <= j < i ==> #[trigger] self.prepared_presets@[j].id != id,
            decreases self.prepared_presets@.len() - i,
        {
            if self.prepared_presets[i].id == id {
                return &self.prepared_presets[i];
            }
            i = i + 1;
        }
        proof {
            let k = choose|k: int| 0 <= k < self@.prepared.len() && #[trigger] self@.prepared[k].id == id;
            assert(self.prepared_presets@[k].id != id);
        }
        &self.prepared_presets[0]
    }

    /// Length of the longest prepared response, but at least one.
    pub fn max_prepared_len(&self) -> (n: usize)
        ensures
            n == (if self@.max_len >= 1 {
                self@.max_len
            } else {
                1
            }),
    {
        if self.max_prepared_len >= 1 {
            self.max_prepared_len
        } else {
            1
        }
    }

    /// Length of the prepared response of preset `id`.
    pub fn prepared_ir_len(&self, id: PresetId) -> (n: usize)
        requires
            self@.has_prepared(id),
        ensures
            exists|i: int|
                0 <= i < self@.prepared.len() && self@.prepared[i].id == id && n == ir_len(self@.prepared[i].ir)
                    && forall|j: int| 0 <= j < i ==> #[trigger] self@.prepared[j].id != id,
    {
        self.prepared_preset(id).ir.len()
    }
}

impl<S> Default for IrState<S> {
    fn default() -> (s: IrState<S>)
        ensures
            s@.raw.len() == 0,
            s@.prepared.len() == 0,
            s@.prepared_rate is None,
            s@.max_len == 0,
            s@.valid(),
    {
        IrState::new()
    }
}

/// `max_ir_len` is the length of the longest prepared response: none is
/// longer, and (when there is one) some response has exactly that length.
pub proof fn lemma_max_ir_len_is_longest<S>(prepared: Seq<PreparedPreset<S>>)
    ensures
        forall|i: int| 0 <= i < prepared.len() ==> ir_len(#[trigger] prepared[i].ir) <= max_ir_len(prepared),
        prepared.len() == 0 ==> max_ir_len(prepared) == 0,
        prepared.len() > 0 ==> exists|i: int|
            0 <= i < prepared.len() && ir_len(#[trigger] prepared[i].ir) == max_ir_len(prepared),
    decreases prepared.len(),
{
    assert forall|i: int| 0 <= i < prepared.len() implies ir_len(#[trigger] prepared[i].ir) <= max_ir_len(prepared) by {
        lemma_max_ir_len_bounds(prepared, i);
    }
    if prepared.len() > 0 {
        let rest = prepared.drop_last();
        lemma_max_ir_len_is_longest(rest);
        if max_ir_len(rest) >= ir_len(prepared.last().ir) && rest.len() > 0 {
            let i = choose|i: int| 0 <= i < rest.len() && ir_len(#[trigger] rest[i].ir) == max_ir_len(rest);
            assert(prepared[i] == rest[i]);
        } else {
            assert(ir_len(prepared[prepared.len() - 1].ir) == max_ir_len(prepared));
        }
    }
}

/// Every prepared response fits within `max_prepared_len`, so buffers of that
/// length hold any of them.
pub proof fn lemma_prepared_fit_max<S>(bank: IrBank<S>, i: int)
    requires
        bank.valid(),
        0 <= i < bank.prepared.len(),
    ensures
        ir_len(bank.prepared[i].ir) <= (if bank.max_len >= 1 {
            bank.max_len
        } else {
            1
        }),
{
    lemma_max_ir_len_bounds(bank.prepared, i);
}

/// Once prepared from bundled responses that cover every preset, the bank
/// has a prepared response for every preset.
pub proof fn lemma_prepared_covers_bundled<S>(bank: IrBank<S>, id: PresetId)
    requires
        bank.prepared.len() == bank.raw.len(),
        forall|i: int| 0 <= i < bank.raw.len() ==> #[trigger] bank.prepared[i].id == bank.raw[i].id,
        exists|i: int| 0 <= i < bank.raw.len() && #[trigger] bank.raw[i].id == id,
    ensures
        bank.has_prepared(id),
{
    let i = choose|i: int| 0 <= i < bank.raw.len() && #[trigger] bank.raw[i].id == id;
    assert(bank.prepared[i].id == id);
}

} // verus!
