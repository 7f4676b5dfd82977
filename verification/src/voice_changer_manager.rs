//! The voice changer manager: global settings, the model path chosen by a
//! model load, and the cross-faded audio path of the server.
use vstd::prelude::*;
use crate::constants::UPLOAD_DIR;
use crate::crossfade::{CrossfadePoint, crossfade, crossfaded};
use crate::paths::{i32_to_string, join_path, path_join, signed_decimal};
use crate::setting_value::{SettingValue, key_is};
use crate::voice_changer_params::VoiceChangerParams;

verus! {

/// Global settings of the manager. Float settings are kept as the bit
/// patterns of their `f32` values.
#[derive(Debug)]
pub struct VoiceChangerManagerSettings {
    pub model_slot_index: i32,
    pub pass_through: bool,
    pub input_sample_rate: i32,
    pub output_sample_rate: i32,
    pub cross_fade_offset_rate_bits: u32,
    pub cross_fade_end_rate_bits: u32,
    pub cross_fade_overlap_size: i32,
    pub record_io: i32,
    pub performance_bits: Vec<u32>,
}

/// The value of the manager's settings.
pub struct ManagerSettingsView {
    pub model_slot_index: i32,
    pub pass_through: bool,
    pub input_sample_rate: i32,
    pub output_sample_rate: i32,
    pub cross_fade_offset_rate_bits: u32,
    pub cross_fade_end_rate_bits: u32,
    pub cross_fade_overlap_size: i32,
    pub record_io: i32,
    pub performance_bits: Seq<u32>,
}

impl View for VoiceChangerManagerSettings {
    type V = ManagerSettingsView;

    open spec fn view(&self) -> ManagerSettingsView {
        ManagerSettingsView {
            model_slot_index: self.model_slot_index,
            pass_through: self.pass_through,
            input_sample_rate: self.input_sample_rate,
            output_sample_rate: self.output_sample_rate,
            cross_fade_offset_rate_bits: self.cross_fade_offset_rate_bits,
            cross_fade_end_rate_bits: self.cross_fade_end_rate_bits,
            cross_fade_overlap_size: self.cross_fade_overlap_size,
            record_io: self.record_io,
            performance_bits: self.performance_bits@,
        }
    }
}

impl Clone for VoiceChangerManagerSettings {
    fn clone(&self) -> (r: Self)
        ensures
            r@ == self@,
    {
        VoiceChangerManagerSettings {
            model_slot_index: self.model_slot_index,
            pass_through: self.pass_through,
            input_sample_rate: self.input_sample_rate,
            output_sample_rate: self.output_sample_rate,
            cross_fade_offset_rate_bits: self.cross_fade_offset_rate_bits,
            cross_fade_end_rate_bits: self.cross_fade_end_rate_bits,
            cross_fade_overlap_size: self.cross_fade_overlap_size,
            record_io: self.record_io,
            performance_bits: self.performance_bits.clone(),
        }
    }
}

/// The default settings: no slot (-1), no pass-through, 48 kHz in and out,
/// fade offset 0.1 and end 0.9, overlap 4096, no recording, and four zero
/// performance counters.
pub open spec fn default_manager_settings() -> ManagerSettingsView {
    ManagerSettingsView {
        model_slot_index: -1i32,
        pass_through: false,
        input_sample_rate: 48000i32,
        output_sample_rate: 48000i32,
        cross_fade_offset_rate_bits: 0x3dcccccdu32,
        cross_fade_end_rate_bits: 0x3f666666u32,
        cross_fade_overlap_size: 4096i32,
        record_io: 0i32,
        performance_bits: seq![0u32, 0u32, 0u32, 0u32],
    }
}

impl Default for VoiceChangerManagerSettings {
    fn default() -> (r: Self)
        ensures
            r@ == default_manager_settings(),
    {
        let mut perf: Vec<u32> = Vec::new();
        perf.push(0);
        perf.push(0);
        perf.push(0);
        perf.push(0);
        let r = VoiceChangerManagerSettings {
            model_slot_index: -1,
            pass_through: false,
            input_sample_rate: 48000,
            output_sample_rate: 48000,
            cross_fade_offset_rate_bits: 0x3dcccccd,
            cross_fade_end_rate_bits: 0x3f666666,
            cross_fade_overlap_size: 4096,
            record_io: 0,
            performance_bits: perf,
        };
        assert(r@.performance_bits =~= seq![0u32, 0u32, 0u32, 0u32]);
        r
    }
}

/// The settings after applying `key` = `v`. Unknown keys, and values that
/// do not read as the setting's kind, leave the settings as they are.
pub open spec fn manager_settings_update(s: ManagerSettingsView, key: Seq<char>, v: SettingValue) -> ManagerSettingsView {
    if key == "modelSlotIndex"@ {
        match v.int { Some(x) => ManagerSettingsView { model_slot_index: x as i32, ..s }, None => s }
    } else if key == "passThrough"@ {
        match v.flag { Some(b) => ManagerSettingsView { pass_through: b, ..s }, None => s }
    } else if key == "inputSampleRate"@ {
        match v.int { Some(x) => ManagerSettingsView { input_sample_rate: x as i32, ..s }, None => s }
    } else if key == "outputSampleRate"@ {
        match v.int { Some(x) => ManagerSettingsView { output_sample_rate: x as i32, ..s }, None => s }
    } else if key == "crossFadeOffsetRate"@ {
        match v.float_bits { Some(x) => ManagerSettingsView { cross_fade_offset_rate_bits: x, ..s }, None => s }
    } else if key == "crossFadeEndRate"@ {
        match v.float_bits { Some(x) => ManagerSettingsView { cross_fade_end_rate_bits: x, ..s }, None => s }
    } else if key == "crossFadeOverlapSize"@ {
        match v.int { Some(x) => ManagerSettingsView { cross_fade_overlap_size: x as i32, ..s }, None => s }
    } else if key == "recordIO"@ {
        match v.int { Some(x) => ManagerSettingsView { record_io: x as i32, ..s }, None => s }
    } else {
        s
    }
}

/// Each key writes the setting it names and no other: an integer to the
/// slot index, the sample rates, the overlap size and `recordIO` (cut to
/// 32 bits), a boolean to `passThrough`, an `f32` to the two cross-fade
/// rates; a value of another kind changes nothing.
pub proof fn law_manager_keys_write_their_fields(s: ManagerSettingsView, v: SettingValue)
    ensures
        manager_settings_update(s, "modelSlotIndex"@, v) == match v.int {
            Some(x) => ManagerSettingsView { model_slot_index: x as i32, ..s },
            None => s,
        },
        manager_settings_update(s, "passThrough"@, v) == match v.flag {
            Some(x) => ManagerSettingsView { pass_through: x, ..s },
            None => s,
        },
        manager_settings_update(s, "inputSampleRate"@, v) == match v.int {
            Some(x) => ManagerSettingsView { input_sample_rate: x as i32, ..s },
            None => s,
        },
        manager_settings_update(s, "outputSampleRate"@, v) == match v.int {
            Some(x) => ManagerSettingsView { output_sample_rate: x as i32, ..s },
            None => s,
        },
        manager_settings_update(s, "crossFadeOffsetRate"@, v) == match v.float_bits {
            Some(x) => ManagerSettingsView { cross_fade_offset_rate_bits: x, ..s },
            None => s,
        },
        manager_settings_update(s, "crossFadeEndRate"@, v) == match v.float_bits {
            Some(x) => ManagerSettingsView { cross_fade_end_rate_bits: x, ..s },
            None => s,
        },
        manager_settings_update(s, "crossFadeOverlapSize"@, v) == match v.int {
            Some(x) => ManagerSettingsView { cross_fade_overlap_size: x as i32, ..s },
            None => s,
        },
        manager_settings_update(s, "recordIO"@, v) == match v.int {
            Some(x) => ManagerSettingsView { record_io: x as i32, ..s },
            None => s,
        },
{
    reveal_strlit("modelSlotIndex");
    reveal_strlit("passThrough");
    reveal_strlit("inputSampleRate");
    reveal_strlit("outputSampleRate");
    reveal_strlit("crossFadeOffsetRate");
    reveal_strlit("crossFadeEndRate");
    reveal_strlit("crossFadeOverlapSize");
    reveal_strlit("recordIO");
    assert("passThrough"@.len() != "modelSlotIndex"@.len());
    assert("inputSampleRate"@.len() != "modelSlotIndex"@.len());
    assert("inputSampleRate"@.len() != "passThrough"@.len());
    assert("outputSampleRate"@.len() != "modelSlotIndex"@.len());
    assert("outputSampleRate"@.len() != "passThrough"@.len());
    assert("outputSampleRate"@.len() != "inputSampleRate"@.len());
    assert("crossFadeOffsetRate"@.len() != "modelSlotIndex"@.len());
    assert("crossFadeOffsetRate"@.len() != "passThrough"@.len());
    assert("crossFadeOffsetRate"@.len() != "inputSampleRate"@.len());
    assert("crossFadeOffsetRate"@.len() != "outputSampleRate"@.len());
    assert("crossFadeEndRate"@.len() != "modelSlotIndex"@.len());
    assert("crossFadeEndRate"@.len() != "passThrough"@.len());
    assert("crossFadeEndRate"@.len() != "inputSampleRate"@.len());
    assert("crossFadeEndRate"@[0] != "outputSampleRate"@[0]);
    assert("crossFadeEndRate"@.len() != "crossFadeOffsetRate"@.len());
    assert("crossFadeOverlapSize"@.len() != "modelSlotIndex"@.len());
    assert("crossFadeOverlapSize"@.len() != "passThrough"@.len());
    assert("crossFadeOverlapSize"@.len() != "inputSampleRate"@.len());
    assert("crossFadeOverlapSize"@.len() != "outputSampleRate"@.len());
    assert("crossFadeOverlapSize"@.len() != "crossFadeOffsetRate"@.len());
    assert("crossFadeOverlapSize"@.len() != "crossFadeEndRate"@.len());
    assert("recordIO"@.len() != "modelSlotIndex"@.len());
    assert("recordIO"@.len() != "passThrough"@.len());
    assert("recordIO"@.len() != "inputSampleRate"@.len());
    assert("recordIO"@.len() != "outputSampleRate"@.len());
    assert("recordIO"@.len() != "crossFadeOffsetRate"@.len());
    assert("recordIO"@.len() != "crossFadeEndRate"@.len());
    assert("recordIO"@.len() != "crossFadeOverlapSize"@.len());
}

/// A value that reads as no kind of setting changes no setting.
pub proof fn law_manager_update_needs_a_readable_value(s: ManagerSettingsView, key: Seq<char>, v: SettingValue)
    requires
        v.int is None,
        v.float_bits is None,
        v.flag is None,
        v.text is None,
    ensures
        manager_settings_update(s, key, v) == s,
{
}

/// Applying the same update twice is applying it once.
pub proof fn law_manager_update_idempotent(s: ManagerSettingsView, key: Seq<char>, v: SettingValue)
    ensures
        manager_settings_update(manager_settings_update(s, key, v), key, v) == manager_settings_update(s, key, v),
{
}

/// An update touches at most the setting its key names: the performance
/// counters never change.
pub proof fn law_manager_update_keeps_performance(s: ManagerSettingsView, key: Seq<char>, v: SettingValue)
    ensures
        manager_settings_update(s, key, v).performance_bits == s.performance_bits,
{
}

/// The overlap length that the audio path uses.
pub open spec fn overlap_of(s: ManagerSettingsView) -> usize {
    s.cross_fade_overlap_size as usize
}

/// One file of a model load: its name and its directory below the upload
/// directory.
#[derive(Debug)]
pub struct LoadModelParamFile {
    pub name: String,
    pub dir: String,
}

/// A model load request, as far as the load reads it.
#[derive(Debug)]
pub struct LoadModelRequest {
    pub voice_changer_type: String,
    pub slot: i32,
    pub is_sample_mode: bool,
    pub sample_id: String,
    pub files: Vec<LoadModelParamFile>,
}

/// One file move of a model load: from `src`, into the directory `dst_dir`
/// (created first), as `dst`.
#[derive(Debug)]
pub struct FileMove {
    pub src: String,
    pub dst_dir: String,
    pub dst: String,
}

/// The directory of a load's slot and the moves that bring its files there.
#[derive(Debug)]
pub struct LoadModelPlan {
    pub slot_dir: String,
    pub moves: Vec<FileMove>,
}

/// The manager's settings and model path, as the info endpoints report
/// them.
#[derive(Debug)]
pub struct ManagerInfo {
    pub settings: VoiceChangerManagerSettings,
    pub model_path: Option<String>,
}

pub open spec fn opt_view(o: Option<String>) -> Option<Seq<char>> {
    match o {
        Some(s) => Some(s@),
        None => None,
    }
}

fn clone_opt_string(o: &Option<String>) -> (r: Option<String>)
    ensures
        opt_view(r) == opt_view(*o),
{
    match o {
        Some(s) => Some(s.clone()),
        None => None,
    }
}

/// The voice changer manager.
pub struct VoiceChangerManager {
    params: VoiceChangerParams,
    settings: VoiceChangerManagerSettings,
    model_path: Option<String>,
    prev_audio: Vec<i16>,
}

/// The state of the manager.
pub struct ManagerView {
    pub params: VoiceChangerParams,
    pub settings: ManagerSettingsView,
    pub model_path: Option<Seq<char>>,
    pub prev_audio: Seq<i16>,
}

impl View for VoiceChangerManager {
    type V = ManagerView;

    closed spec fn view(&self) -> ManagerView {
        ManagerView {
            params: self.params,
            settings: self.settings@,
            model_path: opt_view(self.model_path),
            prev_audio: self.prev_audio@,
        }
    }
}

/// The info that `get_info` reports for a manager state.
pub open spec fn info_matches(info: ManagerInfo, m: ManagerView) -> bool {
    info.settings@ == m.settings && opt_view(info.model_path) == m.model_path
}

/// Where a load of `file` into `slot_dir` moves it from and to.
pub open spec fn move_matches(mv: FileMove, slot_dir: Seq<char>, file: LoadModelParamFile) -> bool {
    &&& mv.src@ == path_join(path_join(UPLOAD_DIR@, file.dir@), file.name@)
    &&& mv.dst_dir@ == path_join(slot_dir, file.dir@)
    &&& mv.dst@ == path_join(mv.dst_dir@, file.name@)
}

impl VoiceChangerManager {
    /// A manager for `params` with default settings, no model and no
    /// buffered audio.
    pub fn new(params: VoiceChangerParams) -> (r: Self)
        ensures
            r@.params == params,
            r@.settings == default_manager_settings(),
            r@.model_path.is_none(),
            r@.prev_audio.len() == 0,
    {
        VoiceChangerManager {
            params,
            settings: VoiceChangerManagerSettings::default(),
            model_path: None,
            prev_audio: Vec::new(),
        }
    }

    /// The model directory of the parameters.
    pub fn model_dir(&self) -> (r: &str)
        ensures
            r@ == self@.params.model_dir@,
    {
        self.params.model_dir.as_str()
    }

    /// Current settings and model path.
    pub fn get_info(&self) -> (r: ManagerInfo)
        ensures
            info_matches(r, self@),
    {
        ManagerInfo { settings: self.settings.clone(), model_path: clone_opt_string(&self.model_path) }
    }

    /// Applies `key` = `val` to the settings and reports the new info.
    pub fn update_settings(&mut self, key: &str, val: &SettingValue) -> (r: ManagerInfo)
        ensures
            final(self)@ == (ManagerView {
                settings: manager_settings_update(old(self)@.settings, key@, *val),
                ..old(self)@
            }),
            info_matches(r, final(self)@),
    {
        if key_is(key, "modelSlotIndex") {
            if let Some(x) = val.int { self.settings.model_slot_index = x as i32; }
        } else if key_is(key, "passThrough") {
            if let Some(b) = val.flag { self.settings.pass_through = b; }
        } else if key_is(key, "inputSampleRate") {
            if let Some(x) = val.int { self.settings.input_sample_rate = x as i32; }
        } else if key_is(key, "outputSampleRate") {
            if let Some(x) = val.int { self.settings.output_sample_rate = x as i32; }
        } else if key_is(key, "crossFadeOffsetRate") {
            if let Some(x) = val.float_bits { self.settings.cross_fade_offset_rate_bits = x; }
        } else if key_is(key, "crossFadeEndRate") {
            if let Some(x) = val.float_bits { self.settings.cross_fade_end_rate_bits = x; }
        } else if key_is(key, "crossFadeOverlapSize") {
            if let Some(x) = val.int { self.settings.cross_fade_overlap_size = x as i32; }
        } else if key_is(key, "recordIO") {
            if let Some(x) = val.int { self.settings.record_io = x as i32; }
        }
        self.get_info()
    }

    /// The performance counters (as `f32` bit patterns).
    pub fn get_performance(&self) -> (r: Vec<u32>)
        ensures
            r@ == self@.settings.performance_bits,
    {
        self.settings.performance_bits.clone()
    }

    /// Reports the current info; the model defaults are not stored here.
    pub fn update_model_default(&self) -> (r: ManagerInfo)
        ensures
            info_matches(r, self@),
    {
        self.get_info()
    }

    /// Reports the current info; model metadata is kept by the slot manager.
    pub fn update_model_info(&self, _new_data: &str) -> (r: ManagerInfo)
        ensures
            info_matches(r, self@),
    {
        self.get_info()
    }

    /// Reports the current info; model assets are kept by the slot manager.
    pub fn upload_model_assets(&self, _params: &str) -> (r: ManagerInfo)
        ensures
            info_matches(r, self@),
    {
        self.get_info()
    }

    /// Forgets the audio kept for cross-fading.
    pub fn clear_prev_audio(&mut self)
        ensures
            final(self)@ == (ManagerView { prev_audio: Seq::<i16>::empty(), ..old(self)@ }),
    {
        self.prev_audio = Vec::new();
    }

    /// Restores the default settings and forgets the kept audio.
    pub fn reset(&mut self)
        ensures
            final(self)@ == (ManagerView {
                settings: default_manager_settings(),
                prev_audio: Seq::<i16>::empty(),
                ..old(self)@
            }),
    {
        self.settings = VoiceChangerManagerSettings::default();
        self.prev_audio = Vec::new();
    }

    /// Converts one block. With pass-through on, the block comes back as it
    /// is and nothing is kept; otherwise its head is cross-faded with the
    /// tail kept from the previous block of the same length, and the tail
    /// of the result is kept for the next block.
    pub fn change_voice<F: Fn(CrossfadePoint) -> i16>(&mut self, input: &[i16], blend: F) -> (out: Vec<i16>)
        requires
            forall|p: CrossfadePoint| blend.requires((p,)),
        ensures
            old(self)@.settings.pass_through ==> out@ == input@ && final(self)@ == old(self)@,
            !old(self)@.settings.pass_through ==> {
                &&& crossfaded(
                    blend,
                    old(self)@.prev_audio,
                    input@,
                    overlap_of(old(self)@.settings),
                    old(self)@.settings.cross_fade_offset_rate_bits,
                    old(self)@.settings.cross_fade_end_rate_bits,
                    out@,
                    final(self)@.prev_audio,
                )
                &&& final(self)@ == (ManagerView { prev_audio: final(self)@.prev_audio, ..old(self)@ })
            },
    {
        let mut cur: Vec<i16> = Vec::new();
        let mut i: usize = 0;
        while i < input.len()
            invariant
                i <= input@.len(),
                cur@ == input@.subrange(0, i as int),
            decreases input@.len() - i,
        {
            cur.push(input[i]);
            i = i + 1;
        }
        assert(cur@ =~= input@);
        if self.settings.pass_through {
            return cur;
        }
        let overlap = self.settings.cross_fade_overlap_size as usize;
        let offset = self.settings.cross_fade_offset_rate_bits;
        let end = self.settings.cross_fade_end_rate_bits;
        crossfade(&mut self.prev_audio, cur, overlap, offset, end, blend)
    }

    /// The slot directory of a load and the moves that bring the request's
    /// files from the upload directory into it, in request order.
    pub fn load_model_plan(&self, req: &LoadModelRequest) -> (r: LoadModelPlan)
        ensures
            r.slot_dir@ == path_join(self@.params.model_dir@, signed_decimal(req.slot as int)),
            r.moves@.len() == req.files@.len(),
            forall|i: int| 0 <= i < req.files@.len() ==> move_matches(#[trigger] r.moves@[i], r.slot_dir@, req.files@[i]),
    {
        let slot_name = i32_to_string(req.slot);
        let slot_dir = join_path(self.params.model_dir.as_str(), slot_name.as_str());
        let mut moves: Vec<FileMove> = Vec::new();
        let mut i: usize = 0;
        while i < req.files.len()
            invariant
                i <= req.files@.len(),
                moves@.len() == i,
                forall|j: int| 0 <= j < i ==> move_matches(#[trigger] moves@[j], slot_dir@, req.files@[j]),
            decreases req.files@.len() - i,
        {
            let f = &req.files[i];
            let up = join_path(UPLOAD_DIR, f.dir.as_str());
            let src = join_path(up.as_str(), f.name.as_str());
            let dst_dir = join_path(slot_dir.as_str(), f.dir.as_str());
            let dst = join_path(dst_dir.as_str(), f.name.as_str());
            moves.push(FileMove { src, dst_dir, dst });
            i = i + 1;
        }
        LoadModelPlan { slot_dir, moves }
    }

    /// Records the outcome of a load's moves (`moved[i]` tells whether move
    /// `i` succeeded): the destination of the first successful move becomes
    /// the model path; with none, the model path stays. Reports the info.
    pub fn finish_load_model(&mut self, plan: &LoadModelPlan, moved: &Vec<bool>) -> (r: ManagerInfo)
        requires
            moved@.len() == plan.moves@.len(),
        ensures
            (exists|i: int| 0 <= i < moved@.len() && moved@[i]) ==> exists|i: int|
                0 <= i < moved@.len() && moved@[i] && (forall|j: int| 0 <= j < i ==> !moved@[j])
                    && final(self)@ == (ManagerView { model_path: Some(plan.moves@[i].dst@), ..old(self)@ }),
            !(exists|i: int| 0 <= i < moved@.len() && moved@[i]) ==> final(self)@ == old(self)@,
            info_matches(r, final(self)@),
    {
        let mut i: usize = 0;
        while i < moved.len()
            invariant
                i <= moved@.len(),
                moved@.len() == plan.moves@.len(),
                forall|j: int| 0 <= j < i ==> !moved@[j],
                self@ == old(self)@,
            decreases moved@.len() - i,
        {
            if moved[i] {
                self.model_path = Some(plan.moves[i].dst.clone());
                return self.get_info();
            }
            i = i + 1;
        }
        self.get_info()
    }
}

} // verus!
