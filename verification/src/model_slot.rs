//! Model slots: what a slot holds, and the table of slots that the server
//! keeps in memory beside the `params.json` files of the model directory.
use vstd::prelude::*;
use std::collections::HashMap;
use crate::constants::UPLOAD_DIR;
use crate::paths::{decimal, join_path, path_join, usize_to_string};
use crate::setting_value::{SettingValue, key_is};

verus! {

broadcast use vstd::std_specs::hash::group_hash_axioms;

/// Metadata that every slot carries.
#[derive(Debug)]
pub struct ModelSlot {
    pub slot_index: i32,
    pub voice_changer_type: Option<String>,
    pub name: String,
    pub description: String,
    pub credit: String,
    pub terms_of_use_url: String,
    pub icon_file: String,
    pub speakers: HashMap<i32, String>,
}

/// The value of a slot's metadata.
pub struct ModelSlotView {
    pub slot_index: i32,
    pub voice_changer_type: Option<String>,
    pub name: String,
    pub description: String,
    pub credit: String,
    pub terms_of_use_url: String,
    pub icon_file: String,
    pub speakers: Map<i32, String>,
}

impl View for ModelSlot {
    type V = ModelSlotView;

    open spec fn view(&self) -> ModelSlotView {
        ModelSlotView {
            slot_index: self.slot_index,
            voice_changer_type: self.voice_changer_type,
            name: self.name,
            description: self.description,
            credit: self.credit,
            terms_of_use_url: self.terms_of_use_url,
            icon_file: self.icon_file,
            speakers: self.speakers@,
        }
    }
}

fn clone_opt(o: &Option<String>) -> (r: Option<String>)
    ensures
        r == *o,
{
    match o {
        Some(s) => Some(s.clone()),
        None => None,
    }
}

impl Clone for ModelSlot {
    fn clone(&self) -> (r: Self)
        ensures
            r@ == self@,
    {
        ModelSlot {
            slot_index: self.slot_index,
            voice_changer_type: clone_opt(&self.voice_changer_type),
            name: self.name.clone(),
            description: self.description.clone(),
            credit: self.credit.clone(),
            terms_of_use_url: self.terms_of_use_url.clone(),
            icon_file: self.icon_file.clone(),
            speakers: self.speakers.clone(),
        }
    }
}

/// The default metadata: index -1, no type, empty texts, no speakers.
pub open spec fn is_default_model_slot(m: ModelSlotView) -> bool {
    &&& m.slot_index == -1
    &&& m.voice_changer_type.is_none()
    &&& m.name@.len() == 0
    &&& m.description@.len() == 0
    &&& m.credit@.len() == 0
    &&& m.terms_of_use_url@.len() == 0
    &&& m.icon_file@.len() == 0
    &&& m.speakers == Map::<i32, String>::empty()
}

impl Default for ModelSlot {
    fn default() -> (r: Self)
        ensures
            is_default_model_slot(r@),
    {
        ModelSlot {
            slot_index: -1,
            voice_changer_type: None,
            name: String::new(),
            description: String::new(),
            credit: String::new(),
            terms_of_use_url: String::new(),
            icon_file: String::new(),
            speakers: HashMap::new(),
        }
    }
}

/// An RVC slot. The default protect value is kept as the bit pattern of
/// its `f32` value.
#[derive(Debug)]
pub struct RVCModelSlot {
    pub base: ModelSlot,
    pub model_file: String,
    pub index_file: String,
    pub default_tune: i32,
    pub default_index_ratio: i32,
    pub default_protect_bits: u32,
    pub is_onnx: bool,
    pub model_type: String,
    pub sampling_rate: i32,
    pub f0: bool,
    pub emb_channels: i32,
    pub emb_output_layer: i32,
    pub use_final_proj: bool,
    pub deprecated: bool,
    pub embedder: String,
    pub sample_id: String,
    pub version: String,
}

/// The value of an RVC slot.
pub struct RVCModelSlotView {
    pub base: ModelSlotView,
    pub model_file: String,
    pub index_file: String,
    pub default_tune: i32,
    pub default_index_ratio: i32,
    pub default_protect_bits: u32,
    pub is_onnx: bool,
    pub model_type: String,
    pub sampling_rate: i32,
    pub f0: bool,
    pub emb_channels: i32,
    pub emb_output_layer: i32,
    pub use_final_proj: bool,
    pub deprecated: bool,
    pub embedder: String,
    pub sample_id: String,
    pub version: String,
}

impl View for RVCModelSlot {
    type V = RVCModelSlotView;

    open spec fn view(&self) -> RVCModelSlotView {
        RVCModelSlotView {
            base: self.base@,
            model_file: self.model_file,
            index_file: self.index_file,
            default_tune: self.default_tune,
            default_index_ratio: self.default_index_ratio,
            default_protect_bits: self.default_protect_bits,
            is_onnx: self.is_onnx,
            model_type: self.model_type,
            sampling_rate: self.sampling_rate,
            f0: self.f0,
            emb_channels: self.emb_channels,
            emb_output_layer: self.emb_output_layer,
            use_final_proj: self.use_final_proj,
            deprecated: self.deprecated,
            embedder: self.embedder,
            sample_id: self.sample_id,
            version: self.version,
        }
    }
}

impl Clone for RVCModelSlot {
    fn clone(&self) -> (r: Self)
        ensures
            r@ == self@,
    {
        RVCModelSlot {
            base: self.base.clone(),
            model_file: self.model_file.clone(),
            index_file: self.index_file.clone(),
            default_tune: self.default_tune,
            default_index_ratio: self.default_index_ratio,
            default_protect_bits: self.default_protect_bits,
            is_onnx: self.is_onnx,
            model_type: self.model_type.clone(),
            sampling_rate: self.sampling_rate,
            f0: self.f0,
            emb_channels: self.emb_channels,
            emb_output_layer: self.emb_output_layer,
            use_final_proj: self.use_final_proj,
            deprecated: self.deprecated,
            embedder: self.embedder.clone(),
            sample_id: self.sample_id.clone(),
            version: self.version.clone(),
        }
    }
}

/// The default RVC slot: default metadata typed `RVC` with speaker 0
/// named `target`, no files, tune 0, index ratio 0, protect 0.5, PyTorch
/// weights, 48 kHz, with f0, 256 embedding channels from layer 9 with the
/// final projection, the `hubert_base` embedder, version `v2`.
pub open spec fn is_default_rvc_slot(r: RVCModelSlotView) -> bool {
    &&& r.base.slot_index == -1
    &&& r.base.voice_changer_type matches Some(t) && t@ == "RVC"@
    &&& r.base.name@.len() == 0
    &&& r.base.description@.len() == 0
    &&& r.base.credit@.len() == 0
    &&& r.base.terms_of_use_url@.len() == 0
    &&& r.base.icon_file@.len() == 0
    &&& r.base.speakers.dom() == set![0i32]
    &&& r.base.speakers[0]@ == "target"@
    &&& r.model_file@.len() == 0
    &&& r.index_file@.len() == 0
    &&& r.default_tune == 0
    &&& r.default_index_ratio == 0
    &&& r.default_protect_bits == 0x3f000000
    &&& !r.is_onnx
    &&& r.model_type@.len() == 0
    &&& r.sampling_rate == 48000
    &&& r.f0
    &&& r.emb_channels == 256
    &&& r.emb_output_layer == 9
    &&& r.use_final_proj
    &&& !r.deprecated
    &&& r.embedder@ == "hubert_base"@
    &&& r.sample_id@.len() == 0
    &&& r.version@ == "v2"@
}

impl Default for RVCModelSlot {
    fn default() -> (r: Self)
        ensures
            is_default_rvc_slot(r@),
    {
        let mut b = ModelSlot::default();
        b.voice_changer_type = Some(String::from_str("RVC"));
        b.speakers.insert(0, String::from_str("target"));
        assert(b@.speakers.dom() =~= set![0i32]);
        RVCModelSlot {
            base: b,
            model_file: String::new(),
            index_file: String::new(),
            default_tune: 0,
            default_index_ratio: 0,
            default_protect_bits: 0x3f000000,
            is_onnx: false,
            model_type: String::new(),
            sampling_rate: 48000,
            f0: true,
            emb_channels: 256,
            emb_output_layer: 9,
            use_final_proj: true,
            deprecated: false,
            embedder: String::from_str("hubert_base"),
            sample_id: String::new(),
            version: String::from_str("v2"),
        }
    }
}

/// What a slot holds: an RVC model, or nothing.
#[derive(Debug)]
pub enum ModelSlotEntry {
    RVC(RVCModelSlot),
    Empty,
}

/// The value of a slot entry.
pub enum ModelSlotEntryView {
    RVC(RVCModelSlotView),
    Empty,
}

impl View for ModelSlotEntry {
    type V = ModelSlotEntryView;

    open spec fn view(&self) -> ModelSlotEntryView {
        match self {
            ModelSlotEntry::RVC(r) => ModelSlotEntryView::RVC(r@),
            ModelSlotEntry::Empty => ModelSlotEntryView::Empty,
        }
    }
}

impl Clone for ModelSlotEntry {
    fn clone(&self) -> (r: Self)
        ensures
            r@ == self@,
    {
        match self {
            ModelSlotEntry::RVC(r) => ModelSlotEntry::RVC(r.clone()),
            ModelSlotEntry::Empty => ModelSlotEntry::Empty,
        }
    }
}

/// An entry with its slot index set to `idx` (RVC entries only).
pub open spec fn with_slot_index(e: ModelSlotEntryView, idx: i32) -> ModelSlotEntryView {
    match e {
        ModelSlotEntryView::RVC(r) => ModelSlotEntryView::RVC(
            RVCModelSlotView { base: ModelSlotView { slot_index: idx, ..r.base }, ..r },
        ),
        ModelSlotEntryView::Empty => ModelSlotEntryView::Empty,
    }
}

/// Sets the slot index of an RVC entry; an empty entry stays empty.
pub fn set_slot_index(entry: &mut ModelSlotEntry, idx: i32)
    ensures
        final(entry)@ == with_slot_index(old(entry)@, idx),
{
    if let ModelSlotEntry::RVC(r) = entry {
        r.base.slot_index = idx;
    }
}

/// An entry after writing `key` = `val` into its metadata. RVC entries
/// take `modelFile`/`model_file` as text and `samplingRate`/`sampling_rate`
/// as an integer; everything else is left as it is.
pub open spec fn entry_info_updated(info: ModelSlotEntryView, key: Seq<char>, val: SettingValue) -> ModelSlotEntryView {
    match info {
        ModelSlotEntryView::RVC(r) => if key == "modelFile"@ || key == "model_file"@ {
            match val.text {
                Some(s) => ModelSlotEntryView::RVC(RVCModelSlotView { model_file: s, ..r }),
                None => info,
            }
        } else if key == "samplingRate"@ || key == "sampling_rate"@ {
            match val.int {
                Some(n) => ModelSlotEntryView::RVC(RVCModelSlotView { sampling_rate: n as i32, ..r }),
                None => info,
            }
        } else {
            info
        },
        ModelSlotEntryView::Empty => info,
    }
}

/// The entry after storing asset `file` under the asset name `name`,
/// starting from `current` (empty when the slot has none). Both the model
/// file names (`modelFile`, `model_file`) and the index file names
/// (`indexFile`, `index_file`) set the RVC model file.
pub open spec fn asset_stored(current: Option<ModelSlotEntryView>, name: Seq<char>, file: String) -> ModelSlotEntryView {
    let info = match current {
        Some(e) => e,
        None => ModelSlotEntryView::Empty,
    };
    match info {
        ModelSlotEntryView::RVC(r) => if name == "modelFile"@ || name == "model_file"@ || name == "indexFile"@
            || name == "index_file"@ {
            ModelSlotEntryView::RVC(RVCModelSlotView { model_file: file, ..r })
        } else {
            info
        },
        ModelSlotEntryView::Empty => info,
    }
}

pub open spec fn opt_entry_view(o: Option<ModelSlotEntry>) -> Option<ModelSlotEntryView> {
    match o {
        Some(e) => Some(e@),
        None => None,
    }
}

/// Why a slot request was refused.
#[derive(Clone, Copy, Debug, PartialEq, Eq)]
pub enum SlotRequestError {
    SlotMissing,
    KeyMissing,
    FileMissing,
    NameMissing,
}

/// A metadata update of one slot, as read from its JSON request: the slot
/// (when it reads as an unsigned integer), the key (when it reads as text)
/// and the value.
#[derive(Debug)]
pub struct ModelInfoUpdate {
    pub slot: Option<u64>,
    pub key: Option<String>,
    pub val: SettingValue,
}

/// An asset request, as read from its JSON request: the slot, the uploaded
/// file's name and the asset name.
#[derive(Debug)]
pub struct ModelAssetRequest {
    pub slot: Option<u64>,
    pub file: Option<String>,
    pub name: Option<String>,
}

/// Where an asset moves: from `src` in the upload directory into `dst_dir`
/// (the slot directory, created first) as `dst`.
#[derive(Debug)]
pub struct AssetMove {
    pub src: String,
    pub dst_dir: String,
    pub dst: String,
}

/// The slot table.
pub struct ModelSlotManager {
    model_dir: String,
    slots: Vec<ModelSlotEntry>,
}

/// The state of the slot table.
pub struct ModelSlotManagerView {
    pub model_dir: Seq<char>,
    pub slots: Seq<ModelSlotEntryView>,
}

impl View for ModelSlotManager {
    type V = ModelSlotManagerView;

    closed spec fn view(&self) -> ModelSlotManagerView {
        ModelSlotManagerView {
            model_dir: self.model_dir@,
            slots: self.slots@.map_values(|e: ModelSlotEntry| e@),
        }
    }
}

/// The table read from disk: each slot that loaded, and the empty entry
/// for each that did not.
pub open spec fn loaded_table(loaded: Seq<Option<ModelSlotEntry>>) -> Seq<ModelSlotEntryView> {
    loaded.map_values(
        |o: Option<ModelSlotEntry>|
            match o {
                Some(e) => e@,
                None => ModelSlotEntryView::Empty,
            },
    )
}

/// The table after recording `info` at `slot`: grown with empty entries
/// when `slot` lies beyond its end.
pub open spec fn table_with(slots: Seq<ModelSlotEntryView>, slot: int, info: ModelSlotEntryView) -> Seq<ModelSlotEntryView> {
    let grown = if slot >= slots.len() {
        slots + Seq::new((slot + 1 - slots.len()) as nat, |i: int| ModelSlotEntryView::Empty)
    } else {
        slots
    };
    grown.update(slot, info)
}

/// A saved slot reads back as what was saved; every other slot keeps
/// its entry, and slots added to grow the table are empty.
pub proof fn law_saved_slot_reads_back(slots: Seq<ModelSlotEntryView>, slot: int, info: ModelSlotEntryView)
    requires
        slot >= 0,
    ensures
        table_with(slots, slot, info).len() == if slot < slots.len() { slots.len() as int } else { slot + 1 },
        table_with(slots, slot, info)[slot] == info,
        forall|j: int| 0 <= j < slots.len() && j != slot ==> #[trigger] table_with(slots, slot, info)[j] == slots[j],
        forall|j: int|
            slots.len() <= j < slot ==> #[trigger] table_with(slots, slot, info)[j] == ModelSlotEntryView::Empty,
{
}

/// Setting a slot index twice keeps the last one; an empty entry has none.
pub proof fn law_slot_index_overwrites(e: ModelSlotEntryView, a: i32, b: i32)
    ensures
        with_slot_index(with_slot_index(e, a), b) == with_slot_index(e, b),
        with_slot_index(ModelSlotEntryView::Empty, a) == ModelSlotEntryView::Empty,
{
}

/// A metadata update of an RVC entry writes the field its key names:
/// `modelFile` or `model_file` with a text value sets the model file,
/// `samplingRate` or `sampling_rate` with an integer value sets the
/// sampling rate (cut to 32 bits); nothing else of the entry changes.
pub proof fn law_info_update_writes_named_field(r: RVCModelSlotView, key: Seq<char>, val: SettingValue)
    ensures
        (key == "modelFile"@ || key == "model_file"@) && val.text is Some ==> entry_info_updated(
            ModelSlotEntryView::RVC(r),
            key,
            val,
        ) == ModelSlotEntryView::RVC(RVCModelSlotView { model_file: val.text->0, ..r }),
        (key == "samplingRate"@ || key == "sampling_rate"@) && val.int is Some ==> entry_info_updated(
            ModelSlotEntryView::RVC(r),
            key,
            val,
        ) == ModelSlotEntryView::RVC(RVCModelSlotView { sampling_rate: val.int->0 as i32, ..r }),
{
    reveal_strlit("modelFile");
    reveal_strlit("model_file");
    reveal_strlit("samplingRate");
    reveal_strlit("sampling_rate");
    assert("samplingRate"@[0] != "modelFile"@[0]);
    assert("samplingRate"@[0] != "model_file"@[0]);
    assert("sampling_rate"@[0] != "modelFile"@[0]);
    assert("sampling_rate"@[0] != "model_file"@[0]);
}

/// A metadata update whose key names neither the model file nor the
/// sampling rate, or whose value is not of the kind that its key takes,
/// leaves the entry as it was.
pub proof fn law_unrelated_info_keeps_entry(e: ModelSlotEntryView, key: Seq<char>, val: SettingValue)
    requires
        !(key == "modelFile"@ || key == "model_file"@) || val.text is None,
        !(key == "samplingRate"@ || key == "sampling_rate"@) || val.int is None,
    ensures
        entry_info_updated(e, key, val) == e,
{
}

/// Storing an asset under a model or index file name makes it the model
/// file of an RVC entry and changes nothing else of that entry.
pub proof fn law_asset_sets_model_file(r: RVCModelSlotView, name: Seq<char>, file: String)
    requires
        name == "modelFile"@ || name == "model_file"@ || name == "indexFile"@ || name == "index_file"@,
    ensures
        asset_stored(Some(ModelSlotEntryView::RVC(r)), name, file) == ModelSlotEntryView::RVC(
            RVCModelSlotView { model_file: file, ..r },
        ),
{
}

/// Storing an asset under any other name, or for a slot without an RVC
/// entry, changes no entry: a missing one reads as empty.
pub proof fn law_other_asset_keeps_entry(current: Option<ModelSlotEntryView>, name: Seq<char>, file: String)
    requires
        !(name == "modelFile"@ || name == "model_file"@ || name == "indexFile"@ || name == "index_file"@)
            || !(current matches Some(ModelSlotEntryView::RVC(_))),
    ensures
        asset_stored(current, name, file) == match current {
            Some(e) => e,
            None => ModelSlotEntryView::Empty,
        },
{
}

/// Once the entry of an asset stored into an RVC slot is saved to that
/// slot, the slot reads back with the asset as its model file when the
/// asset name is a model or index file name, unchanged otherwise, and
/// carrying its own index; every other slot reads back as before.
pub proof fn law_stored_asset_reads_back(
    slots: Seq<ModelSlotEntryView>,
    slot: int,
    r: RVCModelSlotView,
    name: Seq<char>,
    file: String,
)
    requires
        slot >= 0,
    ensures
        with_slot_index(table_with(slots, slot, asset_stored(Some(ModelSlotEntryView::RVC(r)), name, file))[slot], slot as i32)
            == ModelSlotEntryView::RVC(RVCModelSlotView {
                base: ModelSlotView { slot_index: slot as i32, ..r.base },
                model_file: if name == "modelFile"@ || name == "model_file"@ || name == "indexFile"@
                    || name == "index_file"@ {
                    file
                } else {
                    r.model_file
                },
                ..r
            }),
        forall|j: int|
            0 <= j < slots.len() && j != slot ==> #[trigger] table_with(
                slots,
                slot,
                asset_stored(Some(ModelSlotEntryView::RVC(r)), name, file),
            )[j] == slots[j],
{
    law_saved_slot_reads_back(slots, slot, asset_stored(Some(ModelSlotEntryView::RVC(r)), name, file));
}

impl ModelSlotManager {
    /// A slot table for `model_dir` holding what was loaded from it.
    pub fn new(model_dir: String, loaded: Vec<Option<ModelSlotEntry>>) -> (r: Self)
        ensures
            r@.model_dir == model_dir@,
            r@.slots == loaded_table(loaded@),
    {
        let mut m = ModelSlotManager { model_dir, slots: Vec::new() };
        m.reload_slots(loaded);
        m
    }

    /// Replaces the table by what was loaded from disk.
    pub fn reload_slots(&mut self, loaded: Vec<Option<ModelSlotEntry>>)
        ensures
            final(self)@.model_dir == old(self)@.model_dir,
            final(self)@.slots == loaded_table(loaded@),
    {
        let mut v: Vec<ModelSlotEntry> = Vec::new();
        let mut loaded = loaded;
        let ghost l0 = loaded@;
        let n = loaded.len();
        let mut i: usize = 0;
        while i < n
            invariant
                n == l0.len(),
                i <= n,
                loaded@ == l0.subrange(0, (n - i) as int),
                v@.len() == i,
                forall|j: int| 0 <= j < i ==> (#[trigger] v@[j])@ == loaded_table(l0)[(n - 1 - j) as int],
            decreases n - i,
        {
            let o = loaded.pop().unwrap();
            assert(o == l0[(n - 1 - i) as int]);
            let e = match o {
                Some(e) => e,
                None => ModelSlotEntry::Empty,
            };
            v.push(e);
            i = i + 1;
        }
        let mut out: Vec<ModelSlotEntry> = Vec::new();
        let mut k: usize = 0;
        while k < n
            invariant
                n == l0.len(),
                k <= n,
                v@.len() == n - k,
                forall|j: int| 0 <= j < n - k ==> (#[trigger] v@[j])@ == loaded_table(l0)[(n - 1 - j) as int],
                out@.len() == k,
                forall|j: int| 0 <= j < k ==> (#[trigger] out@[j])@ == loaded_table(l0)[j],
            decreases n - k,
        {
            let e = v.pop().unwrap();
            out.push(e);
            k = k + 1;
        }
        self.slots = out;
        assert(self@.slots =~= loaded_table(l0));
    }

    /// The directory of a slot: the model directory joined with the slot
    /// number.
    pub fn slot_path(&self, slot: usize) -> (r: String)
        ensures
            r@ == path_join(self@.model_dir, decimal(slot as nat)),
    {
        let s = usize_to_string(slot);
        join_path(self.model_dir.as_str(), s.as_str())
    }

    /// The `params.json` file of a slot.
    pub fn slot_params_path(&self, slot: usize) -> (r: String)
        ensures
            r@ == path_join(path_join(self@.model_dir, decimal(slot as nat)), "params.json"@),
    {
        let d = self.slot_path(slot);
        join_path(d.as_str(), "params.json")
    }

    /// Records in the table the entry that was written to a slot's
    /// `params.json`, growing the table with empty entries when needed.
    pub fn save_model_slot(&mut self, slot: usize, info: ModelSlotEntry)
        requires
            slot < usize::MAX,
        ensures
            final(self)@.model_dir == old(self)@.model_dir,
            final(self)@.slots == table_with(old(self)@.slots, slot as int, info@),
    {
        let ghost old_slots = self@.slots;
        let ghost old_len = self.slots@.len();
        assert(old_slots.len() == old_len);
        if slot >= self.slots.len() {
            while self.slots.len() < slot + 1
                invariant
                    slot < usize::MAX,
                    old_len == old_slots.len(),
                    old_len <= self.slots@.len() <= slot + 1,
                    self.model_dir == old(self).model_dir,
                    forall|j: int| 0 <= j < old_len ==> (#[trigger] self.slots@[j])@ == old_slots[j],
                    forall|j: int| old_len <= j < self.slots@.len() ==> (#[trigger] self.slots@[j])@ == ModelSlotEntryView::Empty,
                decreases slot + 1 - self.slots.len(),
            {
                self.slots.push(ModelSlotEntry::Empty);
            }
        }
        self.slots.set(slot, info);
        let ghost expected = table_with(old_slots, slot as int, info@);
        assert forall|j: int| 0 <= j < self.slots@.len() implies #[trigger] self@.slots[j] == expected[j] by {
        }
        assert(self@.slots =~= expected);
    }

    /// The slot of a metadata update, or why it is refused.
    pub fn check_model_info_update(u: &ModelInfoUpdate) -> (r: Result<usize, SlotRequestError>)
        ensures
            match u.slot {
                None => r == Err::<usize, SlotRequestError>(SlotRequestError::SlotMissing),
                Some(s) => match u.key {
                    None => r == Err::<usize, SlotRequestError>(SlotRequestError::KeyMissing),
                    Some(_) => r == Ok::<usize, SlotRequestError>(s as usize),
                },
            },
    {
        match u.slot {
            None => Err(SlotRequestError::SlotMissing),
            Some(s) => match &u.key {
                None => Err(SlotRequestError::KeyMissing),
                Some(_) => Ok(s as usize),
            },
        }
    }

    /// The entry to write back for a metadata update of a slot whose
    /// current entry is `current`; a slot without one starts from the
    /// default RVC slot.
    pub fn updated_model_info(current: Option<ModelSlotEntry>, key: &str, val: &SettingValue) -> (r: ModelSlotEntry)
        ensures
            match current {
                Some(e) => r@ == entry_info_updated(e@, key@, *val),
                None => exists|d: RVCModelSlotView|
                    is_default_rvc_slot(d) && r@ == entry_info_updated(ModelSlotEntryView::RVC(d), key@, *val),
            },
    {
        let mut info = match current {
            Some(e) => e,
            None => ModelSlotEntry::RVC(RVCModelSlot::default()),
        };
        let ghost before = info@;
        if let ModelSlotEntry::RVC(r) = &mut info {
            if key_is(key, "modelFile") || key_is(key, "model_file") {
                if let Some(s) = &val.text {
                    r.model_file = s.clone();
                }
            } else if key_is(key, "samplingRate") || key_is(key, "sampling_rate") {
                if let Some(n) = val.int {
                    r.sampling_rate = n as i32;
                }
            }
        }
        assert(info@ == entry_info_updated(before, key@, *val));
        info
    }

    /// A metadata update of a slot whose `params.json` holds `current`:
    /// the slot to write and the entry to write there, or why the update is
    /// refused (no slot, or no key). A slot without an entry starts from the
    /// default RVC slot.
    pub fn update_model_info(u: &ModelInfoUpdate, current: Option<ModelSlotEntry>) -> (r: Result<
        (usize, ModelSlotEntry),
        SlotRequestError,
    >)
        ensures
            match u.slot {
                None => r == Err::<(usize, ModelSlotEntry), SlotRequestError>(SlotRequestError::SlotMissing),
                Some(s) => match u.key {
                    None => r == Err::<(usize, ModelSlotEntry), SlotRequestError>(SlotRequestError::KeyMissing),
                    Some(k) => r matches Ok((slot, e)) && slot == s as usize && match current {
                        Some(c) => e@ == entry_info_updated(c@, k@, u.val),
                        None => exists|d: RVCModelSlotView|
                            is_default_rvc_slot(d) && e@ == entry_info_updated(ModelSlotEntryView::RVC(d), k@, u.val),
                    },
                },
            },
    {
        let slot = match Self::check_model_info_update(u) {
            Ok(slot) => slot,
            Err(e) => return Err(e),
        };
        match &u.key {
            Some(k) => Ok((slot, Self::updated_model_info(current, k.as_str(), &u.val))),
            None => Err(SlotRequestError::KeyMissing),
        }
    }

    /// The slot, file and asset name of an asset request, or why it is
    /// refused.
    pub fn check_asset_request(a: &ModelAssetRequest) -> (r: Result<usize, SlotRequestError>)
        ensures
            match a.slot {
                None => r == Err::<usize, SlotRequestError>(SlotRequestError::SlotMissing),
                Some(s) => match a.file {
                    None => r == Err::<usize, SlotRequestError>(SlotRequestError::FileMissing),
                    Some(_) => match a.name {
                        None => r == Err::<usize, SlotRequestError>(SlotRequestError::NameMissing),
                        Some(_) => r == Ok::<usize, SlotRequestError>(s as usize),
                    },
                },
            },
    {
        match a.slot {
            None => Err(SlotRequestError::SlotMissing),
            Some(s) => match &a.file {
                None => Err(SlotRequestError::FileMissing),
                Some(_) => match &a.name {
                    None => Err(SlotRequestError::NameMissing),
                    Some(_) => Ok(s as usize),
                },
            },
        }
    }

    /// Where an uploaded asset `file` of a slot moves: from the upload
    /// directory into the slot directory, under the same name.
    pub fn asset_move(&self, slot: usize, file: &str) -> (r: AssetMove)
        ensures
            r.src@ == path_join(UPLOAD_DIR@, file@),
            r.dst_dir@ == path_join(self@.model_dir, decimal(slot as nat)),
            r.dst@ == path_join(r.dst_dir@, file@),
    {
        let src = join_path(UPLOAD_DIR, file);
        let dst_dir = self.slot_path(slot);
        let dst = join_path(dst_dir.as_str(), file);
        AssetMove { src, dst_dir, dst }
    }

    /// The entry to write back after storing asset `file` as `name` in a
    /// slot whose current entry is `current`.
    pub fn updated_asset_info(current: Option<ModelSlotEntry>, name: &str, file: &str) -> (r: ModelSlotEntry)
        ensures
            exists|f: String| f@ == file@ && r@ == asset_stored(opt_entry_view(current), name@, f),
    {
        let mut info = match current {
            Some(e) => e,
            None => ModelSlotEntry::Empty,
        };
        let f = String::from_str(file);
        let ghost before = info@;
        if let ModelSlotEntry::RVC(r) = &mut info {
            if key_is(name, "modelFile") || key_is(name, "model_file") || key_is(name, "indexFile") || key_is(
                name,
                "index_file",
            ) {
                r.model_file = f;
            }
        }
        info
    }

    /// An asset request for a slot whose `params.json` holds `current` once
    /// the asset was moved in: the slot to write and the entry to write
    /// there, or why the request is refused (no slot, file or asset name).
    pub fn store_model_assets(a: &ModelAssetRequest, current: Option<ModelSlotEntry>) -> (r: Result<
        (usize, ModelSlotEntry),
        SlotRequestError,
    >)
        ensures
            match a.slot {
                None => r == Err::<(usize, ModelSlotEntry), SlotRequestError>(SlotRequestError::SlotMissing),
                Some(s) => match a.file {
                    None => r == Err::<(usize, ModelSlotEntry), SlotRequestError>(SlotRequestError::FileMissing),
                    Some(f) => match a.name {
                        None => r == Err::<(usize, ModelSlotEntry), SlotRequestError>(
                            SlotRequestError::NameMissing,
                        ),
                        Some(n) => r matches Ok((slot, e)) && slot == s as usize && exists|g: String|
                            g@ == f@ && e@ == asset_stored(opt_entry_view(current), n@, g),
                    },
                },
            },
    {
        let slot = match Self::check_asset_request(a) {
            Ok(slot) => slot,
            Err(e) => return Err(e),
        };
        match (&a.file, &a.name) {
            (Some(f), Some(n)) => Ok((slot, Self::updated_asset_info(current, n.as_str(), f.as_str()))),
            (None, _) => Err(SlotRequestError::FileMissing),
            (_, None) => Err(SlotRequestError::NameMissing),
        }
    }

    /// All slots, each carrying its position as its index, followed by the
    /// bundled static slot when there is one.
    pub fn get_all_slot_info(&self, static_slot: Option<ModelSlotEntry>) -> (r: Vec<ModelSlotEntry>)
        ensures
            r@.len() == self@.slots.len() + if static_slot is Some { 1int } else { 0int },
            forall|i: int| 0 <= i < self@.slots.len() ==> (#[trigger] r@[i])@ == with_slot_index(self@.slots[i], i as i32),
            static_slot matches Some(s) ==> r@[self@.slots.len() as int]@ == s@,
    {
        let mut out: Vec<ModelSlotEntry> = Vec::new();
        let mut i: usize = 0;
        while i < self.slots.len()
            invariant
                i <= self.slots@.len(),
                out@.len() == i,
                forall|j: int| 0 <= j < i ==> (#[trigger] out@[j])@ == with_slot_index(self@.slots[j], j as i32),
            decreases self.slots@.len() - i,
        {
            let mut e = self.slots[i].clone();
            set_slot_index(&mut e, i as i32);
            out.push(e);
            i = i + 1;
        }
        if let Some(s) = static_slot {
            out.push(s);
        }
        out
    }

    /// One slot, carrying its index, when the table has it.
    pub fn get_slot_info(&self, slot: usize) -> (r: Option<ModelSlotEntry>)
        ensures
            slot < self@.slots.len() ==> (r matches Some(e) && e@ == with_slot_index(self@.slots[slot as int], slot as i32)),
            slot >= self@.slots.len() ==> r is None,
    {
        if slot < self.slots.len() {
            let mut e = self.slots[slot].clone();
            set_slot_index(&mut e, slot as i32);
            Some(e)
        } else {
            None
        }
    }
}

} // verus!
