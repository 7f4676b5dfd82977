//! The RVC voice model: its runtime settings, its input buffering and the
//! model interface that the voice changer drives.
use vstd::prelude::*;
use crate::setting_value::{SettingValue, key_is};

verus! {

/// A numeric model default: an integer, or a 32-bit float kept as its
/// IEEE-754 bit pattern.
#[derive(Clone, Copy, Debug, PartialEq, Eq)]
pub enum DefaultValue {
    Int(i32),
    FloatBits(u32),
}

/// One entry of a model's current defaults.
#[derive(Debug)]
pub struct ModelDefault {
    pub key: String,
    pub value: DefaultValue,
}

/// The inputs that a model's input preparation hands on: the buffered
/// audio, the pitch and feature buffers, the conversion size, the samples
/// whose RMS is the input volume (newest first), and the size the volume
/// is measured over.
#[derive(Debug)]
pub struct GeneratedInput {
    pub audio: Vec<i16>,
    pub pitchf: Vec<i16>,
    pub feature: Vec<i16>,
    pub convert_size: usize,
    pub vol_samples: Vec<i16>,
    pub vol_size: usize,
}

/// The model interface the voice changer drives.
pub trait VoiceChangerModel {
    /// Return the sample rate expected by the model.
    fn processing_sample_rate(&self) -> i32;

    /// Run inference on an audio buffer.
    fn inference(&self, input: &[i16]) -> Vec<i16>;

    /// Update internal settings using a key/value pair; `false` when the
    /// key is not a setting of the model.
    fn update_settings(&mut self, key: &str, val: &SettingValue) -> bool;

    /// Retrieve the current model settings as key/value pairs.
    fn get_model_current(&self) -> Vec<ModelDefault>;
}

/// Marker trait for the models the server loads.
pub trait VCModel: VoiceChangerModel {}

/// Runtime settings of the RVC model. Float settings are kept as the bit
/// patterns of their `f32` values.
#[derive(Debug)]
pub struct RvcSettings {
    pub gpu: i32,
    pub dst_id: i32,
    pub f0_detector: String,
    pub tran: i32,
    pub silent_threshold_bits: u32,
    pub extra_convert_size: i32,
    pub index_ratio_bits: u32,
    pub protect_bits: u32,
    pub rvc_quality: i32,
    pub silence_front: i32,
    pub model_sampling_rate: i32,
}

impl Clone for RvcSettings {
    fn clone(&self) -> (r: Self)
        ensures
            r == *self,
    {
        RvcSettings {
            gpu: self.gpu,
            dst_id: self.dst_id,
            f0_detector: self.f0_detector.clone(),
            tran: self.tran,
            silent_threshold_bits: self.silent_threshold_bits,
            extra_convert_size: self.extra_convert_size,
            index_ratio_bits: self.index_ratio_bits,
            protect_bits: self.protect_bits,
            rvc_quality: self.rvc_quality,
            silence_front: self.silence_front,
            model_sampling_rate: self.model_sampling_rate,
        }
    }
}

/// The default settings: GPU -9999, f0 detector `rmvpe_onnx`, transpose
/// 12, silent threshold 1e-5, extra conversion size 4096, index ratio 0,
/// protect 0.5, quality 0, silence front 1, sampling rate 48000.
pub open spec fn is_default_rvc_settings(s: RvcSettings) -> bool {
    &&& s.gpu == -9999
    &&& s.dst_id == 0
    &&& s.f0_detector@ == "rmvpe_onnx"@
    &&& s.tran == 12
    &&& s.silent_threshold_bits == 0x3727c5ac
    &&& s.extra_convert_size == 4096
    &&& s.index_ratio_bits == 0
    &&& s.protect_bits == 0x3f000000
    &&& s.rvc_quality == 0
    &&& s.silence_front == 1
    &&& s.model_sampling_rate == 48000
}

impl Default for RvcSettings {
    fn default() -> (r: Self)
        ensures
            is_default_rvc_settings(r),
    {
        RvcSettings {
            gpu: -9999,
            dst_id: 0,
            f0_detector: String::from_str("rmvpe_onnx"),
            tran: 12,
            silent_threshold_bits: 0x3727c5ac,
            extra_convert_size: 4096,
            index_ratio_bits: 0,
            protect_bits: 0x3f000000,
            rvc_quality: 0,
            silence_front: 1,
            model_sampling_rate: 48000,
        }
    }
}

/// The settings after applying `key` = `v`, or `None` when `key` names no
/// setting. A known key whose value does not read as the setting's kind
/// leaves the settings as they are.
pub open spec fn rvc_settings_update(s: RvcSettings, key: Seq<char>, v: SettingValue) -> Option<RvcSettings> {
    if key == "gpu"@ {
        Some(match v.int { Some(x) => RvcSettings { gpu: x as i32, ..s }, None => s })
    } else if key == "dstId"@ {
        Some(match v.int { Some(x) => RvcSettings { dst_id: x as i32, ..s }, None => s })
    } else if key == "f0Detector"@ {
        Some(match v.text { Some(t) => RvcSettings { f0_detector: t, ..s }, None => s })
    } else if key == "tran"@ {
        Some(match v.int { Some(x) => RvcSettings { tran: x as i32, ..s }, None => s })
    } else if key == "silentThreshold"@ {
        Some(match v.float_bits { Some(x) => RvcSettings { silent_threshold_bits: x, ..s }, None => s })
    } else if key == "extraConvertSize"@ {
        Some(match v.int { Some(x) => RvcSettings { extra_convert_size: x as i32, ..s }, None => s })
    } else if key == "indexRatio"@ {
        Some(match v.float_bits { Some(x) => RvcSettings { index_ratio_bits: x, ..s }, None => s })
    } else if key == "protect"@ {
        Some(match v.float_bits { Some(x) => RvcSettings { protect_bits: x, ..s }, None => s })
    } else if key == "rvcQuality"@ {
        Some(match v.int { Some(x) => RvcSettings { rvc_quality: x as i32, ..s }, None => s })
    } else if key == "silenceFront"@ {
        Some(match v.int { Some(x) => RvcSettings { silence_front: x as i32, ..s }, None => s })
    } else if key == "modelSamplingRate"@ {
        Some(match v.int { Some(x) => RvcSettings { model_sampling_rate: x as i32, ..s }, None => s })
    } else {
        None
    }
}

/// Each key writes the setting it names and no other: an integer to
/// `gpu`, `dstId`, `tran`, `extraConvertSize`, `rvcQuality`,
/// `silenceFront` and `modelSamplingRate` (cut to 32 bits), an `f32` to
/// `silentThreshold`, `indexRatio` and `protect`, and text to
/// `f0Detector`; a value of another kind changes nothing. Every one of
/// these keys is accepted.
pub proof fn law_rvc_keys_write_their_fields(s: RvcSettings, v: SettingValue)
    ensures
        rvc_settings_update(s, "gpu"@, v) == Some(
            match v.int { Some(x) => RvcSettings { gpu: x as i32, ..s }, None => s },
        ),
        rvc_settings_update(s, "dstId"@, v) == Some(
            match v.int { Some(x) => RvcSettings { dst_id: x as i32, ..s }, None => s },
        ),
        rvc_settings_update(s, "f0Detector"@, v) == Some(
            match v.text { Some(t) => RvcSettings { f0_detector: t, ..s }, None => s },
        ),
        rvc_settings_update(s, "tran"@, v) == Some(
            match v.int { Some(x) => RvcSettings { tran: x as i32, ..s }, None => s },
        ),
        rvc_settings_update(s, "silentThreshold"@, v) == Some(
            match v.float_bits { Some(x) => RvcSettings { silent_threshold_bits: x, ..s }, None => s },
        ),
        rvc_settings_update(s, "extraConvertSize"@, v) == Some(
            match v.int { Some(x) => RvcSettings { extra_convert_size: x as i32, ..s }, None => s },
        ),
        rvc_settings_update(s, "indexRatio"@, v) == Some(
            match v.float_bits { Some(x) => RvcSettings { index_ratio_bits: x, ..s }, None => s },
        ),
        rvc_settings_update(s, "protect"@, v) == Some(
            match v.float_bits { Some(x) => RvcSettings { protect_bits: x, ..s }, None => s },
        ),
        rvc_settings_update(s, "rvcQuality"@, v) == Some(
            match v.int { Some(x) => RvcSettings { rvc_quality: x as i32, ..s }, None => s },
        ),
        rvc_settings_update(s, "silenceFront"@, v) == Some(
            match v.int { Some(x) => RvcSettings { silence_front: x as i32, ..s }, None => s },
        ),
        rvc_settings_update(s, "modelSamplingRate"@, v) == Some(
            match v.int { Some(x) => RvcSettings { model_sampling_rate: x as i32, ..s }, None => s },
        ),
{
    reveal_strlit("gpu");
    reveal_strlit("dstId");
    reveal_strlit("f0Detector");
    reveal_strlit("tran");
    reveal_strlit("silentThreshold");
    reveal_strlit("extraConvertSize");
    reveal_strlit("indexRatio");
    reveal_strlit("protect");
    reveal_strlit("rvcQuality");
    reveal_strlit("silenceFront");
    reveal_strlit("modelSamplingRate");
    assert("dstId"@.len() != "gpu"@.len());
    assert("f0Detector"@.len() != "gpu"@.len());
    assert("f0Detector"@.len() != "dstId"@.len());
    assert("tran"@.len() != "gpu"@.len());
    assert("tran"@.len() != "dstId"@.len());
    assert("tran"@.len() != "f0Detector"@.len());
    assert("silentThreshold"@.len() != "gpu"@.len());
    assert("silentThreshold"@.len() != "dstId"@.len());
    assert("silentThreshold"@.len() != "f0Detector"@.len());
    assert("silentThreshold"@.len() != "tran"@.len());
    assert("extraConvertSize"@.len() != "gpu"@.len());
    assert("extraConvertSize"@.len() != "dstId"@.len());
    assert("extraConvertSize"@.len() != "f0Detector"@.len());
    assert("extraConvertSize"@.len() != "tran"@.len());
    assert("extraConvertSize"@.len() != "silentThreshold"@.len());
    assert("indexRatio"@.len() != "gpu"@.len());
    assert("indexRatio"@.len() != "dstId"@.len());
    assert("indexRatio"@[0] != "f0Detector"@[0]);
    assert("indexRatio"@.len() != "tran"@.len());
    assert("indexRatio"@.len() != "silentThreshold"@.len());
    assert("indexRatio"@.len() != "extraConvertSize"@.len());
    assert("protect"@.len() != "gpu"@.len());
    assert("protect"@.len() != "dstId"@.len());
    assert("protect"@.len() != "f0Detector"@.len());
    assert("protect"@.len() != "tran"@.len());
    assert("protect"@.len() != "silentThreshold"@.len());
    assert("protect"@.len() != "extraConvertSize"@.len());
    assert("protect"@.len() != "indexRatio"@.len());
    assert("rvcQuality"@.len() != "gpu"@.len());
    assert("rvcQuality"@.len() != "dstId"@.len());
    assert("rvcQuality"@[0] != "f0Detector"@[0]);
    assert("rvcQuality"@.len() != "tran"@.len());
    assert("rvcQuality"@.len() != "silentThreshold"@.len());
    assert("rvcQuality"@.len() != "extraConvertSize"@.len());
    assert("rvcQuality"@[0] != "indexRatio"@[0]);
    assert("rvcQuality"@.len() != "protect"@.len());
    assert("silenceFront"@.len() != "gpu"@.len());
    assert("silenceFront"@.len() != "dstId"@.len());
    assert("silenceFront"@.len() != "f0Detector"@.len());
    assert("silenceFront"@.len() != "tran"@.len());
    assert("silenceFront"@.len() != "silentThreshold"@.len());
    assert("silenceFront"@.len() != "extraConvertSize"@.len());
    assert("silenceFront"@.len() != "indexRatio"@.len());
    assert("silenceFront"@.len() != "protect"@.len());
    assert("silenceFront"@.len() != "rvcQuality"@.len());
    assert("modelSamplingRate"@.len() != "gpu"@.len());
    assert("modelSamplingRate"@.len() != "dstId"@.len());
    assert("modelSamplingRate"@.len() != "f0Detector"@.len());
    assert("modelSamplingRate"@.len() != "tran"@.len());
    assert("modelSamplingRate"@.len() != "silentThreshold"@.len());
    assert("modelSamplingRate"@.len() != "extraConvertSize"@.len());
    assert("modelSamplingRate"@.len() != "indexRatio"@.len());
    assert("modelSamplingRate"@.len() != "protect"@.len());
    assert("modelSamplingRate"@.len() != "rvcQuality"@.len());
    assert("modelSamplingRate"@.len() != "silenceFront"@.len());
}

/// A value that reads as no kind of setting changes no setting.
pub proof fn law_rvc_update_needs_a_readable_value(s: RvcSettings, key: Seq<char>, v: SettingValue)
    requires
        v.int is None,
        v.float_bits is None,
        v.flag is None,
        v.text is None,
    ensures
        rvc_settings_update(s, key, v) matches Some(t) ==> t == s,
{
}

/// Applying the same update twice is applying it once.
pub proof fn law_rvc_update_idempotent(s: RvcSettings, key: Seq<char>, v: SettingValue)
    ensures
        rvc_settings_update(s, key, v) matches Some(t) ==> rvc_settings_update(t, key, v) == Some(t),
{
}

/// The audio buffer never holds more than the conversion size, and always
/// ends with the newest samples.
pub proof fn law_buffer_bounded(old_buf: Seq<i16>, new_data: Seq<i16>, convert_size: int)
    requires
        convert_size >= 0,
    ensures
        buffered_audio(old_buf, new_data, convert_size).len() <= if (old_buf + new_data).len() < convert_size {
            (old_buf + new_data).len() as int
        } else {
            convert_size
        },
        buffered_audio(old_buf, new_data, convert_size) == (old_buf + new_data).subrange(
            (old_buf + new_data).len() - buffered_audio(old_buf, new_data, convert_size).len(),
            (old_buf + new_data).len() as int,
        ),
{
    let all = old_buf + new_data;
    if all.len() <= convert_size {
        assert(all.subrange(0, all.len() as int) =~= all);
    }
}

/// The RVC model.
pub struct Rvc {
    sample_rate: i32,
    path: String,
    settings: RvcSettings,
    audio_buffer: Vec<i16>,
}

/// The state of an RVC model.
pub struct RvcView {
    pub sample_rate: i32,
    pub path: Seq<char>,
    pub settings: RvcSettings,
    pub audio_buffer: Seq<i16>,
}

impl View for Rvc {
    type V = RvcView;

    closed spec fn view(&self) -> RvcView {
        RvcView {
            sample_rate: self.sample_rate,
            path: self.path@,
            settings: self.settings,
            audio_buffer: self.audio_buffer@,
        }
    }
}

/// Size of the buffered audio that a conversion works on.
pub open spec fn convert_size_of(
    input_size: usize,
    crossfade_size: usize,
    sola_search_frame: usize,
    extra_convert_size: i32,
) -> int {
    input_size + crossfade_size + sola_search_frame + (extra_convert_size as usize)
}

/// The conversion size is the sum of the input, cross-fade and SOLA search
/// sizes and the `extraConvertSize` setting, so it grows with that
/// setting.
pub proof fn law_convert_size_adds_extra(
    input_size: usize,
    crossfade_size: usize,
    sola_search_frame: usize,
    extra_convert_size: i32,
)
    requires
        extra_convert_size >= 0,
    ensures
        convert_size_of(input_size, crossfade_size, sola_search_frame, extra_convert_size) == input_size as int
            + crossfade_size as int + sola_search_frame as int + extra_convert_size as int,
{
}

/// The audio buffer after appending `new_data` and keeping at most
/// `convert_size` of the newest samples.
pub open spec fn buffered_audio(old_buf: Seq<i16>, new_data: Seq<i16>, convert_size: int) -> Seq<i16> {
    let all = old_buf + new_data;
    if all.len() > convert_size { all.subrange(all.len() - convert_size, all.len() as int) } else { all }
}

/// The newest `size` samples of a buffer (fewer if it is shorter), newest
/// first.
pub open spec fn newest_first(buf: Seq<i16>, size: int) -> Seq<i16> {
    let m = if size < buf.len() { size } else { buf.len() as int };
    buf.subrange(buf.len() - m, buf.len() as int).reverse()
}

/// The volume samples are the newest `size` samples of the buffer (all of
/// them when it is shorter), the newest first.
pub proof fn law_volume_samples_newest_first(buf: Seq<i16>, size: int)
    requires
        size >= 0,
    ensures
        newest_first(buf, size).len() == if size < buf.len() { size } else { buf.len() as int },
        forall|k: int|
            0 <= k < newest_first(buf, size).len() ==> #[trigger] newest_first(buf, size)[k] == buf[buf.len() - 1 - k],
{
}

/// The newest `n` samples of `s` (all of them when there are fewer), in
/// their order.
pub open spec fn newest_samples(s: Seq<i16>, n: int) -> Seq<i16> {
    let m = if n < s.len() { n } else { s.len() as int };
    s.subrange(s.len() - m, s.len() as int)
}

/// The audio buffer of a model whose buffer started empty, after each
/// block of `blocks` was handed in turn to `generate_input` with the
/// conversion size `convert_size`.
pub open spec fn buffer_after(blocks: Seq<Seq<i16>>, convert_size: int) -> Seq<i16>
    decreases blocks.len(),
{
    if blocks.len() == 0 {
        Seq::<i16>::empty()
    } else {
        buffered_audio(buffer_after(blocks.drop_last(), convert_size), blocks.last(), convert_size)
    }
}

/// Buffering `a` and then `b` keeps what buffering `b` after all of
/// `earlier + a` keeps: trimming to the conversion size early loses
/// nothing that a later trim would keep.
pub proof fn law_buffer_composes(earlier: Seq<i16>, a: Seq<i16>, b: Seq<i16>, convert_size: int)
    requires
        convert_size >= 0,
    ensures
        buffered_audio(buffered_audio(earlier, a, convert_size), b, convert_size) == buffered_audio(
            earlier + a,
            b,
            convert_size,
        ),
{
    let all = earlier + a;
    let x = buffered_audio(earlier, a, convert_size);
    let full = all + b;
    let part = x + b;
    if all.len() > convert_size {
        assert(x =~= all.subrange(all.len() - convert_size, all.len() as int));
        if part.len() > convert_size {
            assert(part.subrange(part.len() - convert_size, part.len() as int) =~= full.subrange(
                full.len() - convert_size,
                full.len() as int,
            ));
        } else {
            assert(part =~= full.subrange(full.len() - convert_size, full.len() as int));
        }
    } else {
        assert(x =~= all);
    }
}

/// Over a series of `generate_input` calls from an empty buffer, all with
/// the conversion size `convert_size`, the buffer holds the newest
/// `convert_size` samples of everything handed in, in order.
pub proof fn law_buffer_after_series(blocks: Seq<Seq<i16>>, convert_size: int)
    requires
        convert_size >= 0,
    ensures
        buffer_after(blocks, convert_size) == newest_samples(blocks.flatten(), convert_size),
    decreases blocks.len(),
{
    let all = blocks.flatten();
    if blocks.len() == 0 {
        assert(newest_samples(all, convert_size) =~= Seq::<i16>::empty());
    } else {
        let init = blocks.drop_last();
        let last = blocks.last();
        law_buffer_after_series(init, convert_size);
        let f = init.flatten();
        assert(blocks == init.push(last));
        init.lemma_flatten_push(last);
        assert(all =~= f + last);
        assert(buffer_after(init, convert_size) == buffered_audio(Seq::<i16>::empty(), f, convert_size)) by {
            assert(Seq::<i16>::empty() + f =~= f);
            if f.len() <= convert_size {
                assert(f.subrange(0, f.len() as int) =~= f);
            }
        }
        law_buffer_composes(Seq::<i16>::empty(), f, last, convert_size);
        assert(Seq::<i16>::empty() + f =~= f);
        if all.len() <= convert_size {
            assert(all.subrange(0, all.len() as int) =~= all);
        }
    }
}

impl Rvc {
    /// A model at `sample_rate` for the weights at `path`, with default
    /// settings and an empty audio buffer.
    pub fn new(sample_rate: i32, path: String) -> (r: Self)
        ensures
            r@.sample_rate == sample_rate,
            r@.path == path@,
            is_default_rvc_settings(r@.settings),
            r@.audio_buffer == Seq::<i16>::empty(),
    {
        Rvc { sample_rate, path, settings: RvcSettings::default(), audio_buffer: Vec::new() }
    }

    /// Update runtime settings from a key/value pair; `false` when `key`
    /// names no setting.
    pub fn update_settings(&mut self, key: &str, val: &SettingValue) -> (r: bool)
        ensures
            match rvc_settings_update(old(self)@.settings, key@, *val) {
                Some(s) => r && final(self)@ == (RvcView { settings: s, ..old(self)@ }),
                None => !r && final(self)@ == old(self)@,
            },
    {
        if key_is(key, "gpu") {
            if let Some(x) = val.int { self.settings.gpu = x as i32; }
        } else if key_is(key, "dstId") {
            if let Some(x) = val.int { self.settings.dst_id = x as i32; }
        } else if key_is(key, "f0Detector") {
            if let Some(t) = &val.text { self.settings.f0_detector = t.clone(); }
        } else if key_is(key, "tran") {
            if let Some(x) = val.int { self.settings.tran = x as i32; }
        } else if key_is(key, "silentThreshold") {
            if let Some(x) = val.float_bits { self.settings.silent_threshold_bits = x; }
        } else if key_is(key, "extraConvertSize") {
            if let Some(x) = val.int { self.settings.extra_convert_size = x as i32; }
        } else if key_is(key, "indexRatio") {
            if let Some(x) = val.float_bits { self.settings.index_ratio_bits = x; }
        } else if key_is(key, "protect") {
            if let Some(x) = val.float_bits { self.settings.protect_bits = x; }
        } else if key_is(key, "rvcQuality") {
            if let Some(x) = val.int { self.settings.rvc_quality = x as i32; }
        } else if key_is(key, "silenceFront") {
            if let Some(x) = val.int { self.settings.silence_front = x as i32; }
        } else if key_is(key, "modelSamplingRate") {
            if let Some(x) = val.int { self.settings.model_sampling_rate = x as i32; }
        } else {
            return false;
        }
        true
    }

    /// The current settings.
    pub fn get_info(&self) -> (r: RvcSettings)
        ensures
            r == self@.settings,
    {
        self.settings.clone()
    }

    /// The current model defaults: `defaultTune` (the transpose),
    /// `defaultIndexRatio` and `defaultProtect`, in this order.
    pub fn get_model_current(&self) -> (r: Vec<ModelDefault>)
        ensures
            r@.len() == 3,
            r@[0].key@ == "defaultTune"@,
            r@[0].value == DefaultValue::Int(self@.settings.tran),
            r@[1].key@ == "defaultIndexRatio"@,
            r@[1].value == DefaultValue::FloatBits(self@.settings.index_ratio_bits),
            r@[2].key@ == "defaultProtect"@,
            r@[2].value == DefaultValue::FloatBits(self@.settings.protect_bits),
    {
        let mut r: Vec<ModelDefault> = Vec::new();
        r.push(ModelDefault { key: String::from_str("defaultTune"), value: DefaultValue::Int(self.settings.tran) });
        r.push(ModelDefault {
            key: String::from_str("defaultIndexRatio"),
            value: DefaultValue::FloatBits(self.settings.index_ratio_bits),
        });
        r.push(ModelDefault {
            key: String::from_str("defaultProtect"),
            value: DefaultValue::FloatBits(self.settings.protect_bits),
        });
        r
    }

    /// Appends `new_data` to the audio buffer, keeps at most the conversion
    /// size of the newest samples, and returns the model input. The volume
    /// itself is the RMS of `vol_samples`.
    pub fn generate_input(
        &mut self,
        new_data: &[i16],
        input_size: usize,
        crossfade_size: usize,
        sola_search_frame: usize,
    ) -> (r: GeneratedInput)
        requires
            convert_size_of(input_size, crossfade_size, sola_search_frame, old(self)@.settings.extra_convert_size)
                <= usize::MAX,
            old(self)@.audio_buffer.len() + new_data@.len() <= usize::MAX,
        ensures
            r.convert_size == convert_size_of(
                input_size,
                crossfade_size,
                sola_search_frame,
                old(self)@.settings.extra_convert_size,
            ),
            r.convert_size == input_size + crossfade_size + sola_search_frame + (
            old(self)@.settings.extra_convert_size as usize),
            final(self)@ == (RvcView {
                audio_buffer: buffered_audio(old(self)@.audio_buffer, new_data@, r.convert_size as int),
                ..old(self)@
            }),
            r.audio@ == final(self)@.audio_buffer,
            r.pitchf@.len() == 0,
            r.feature@.len() == 0,
            r.vol_size == input_size + crossfade_size,
            r.vol_samples@ == newest_first(final(self)@.audio_buffer, r.vol_size as int),
    {
        let extra = self.settings.extra_convert_size as usize;
        let convert_size = input_size + crossfade_size + sola_search_frame + extra;
        let mut i: usize = 0;
        while i < new_data.len()
            invariant
                i <= new_data@.len(),
                self.audio_buffer@ == old(self)@.audio_buffer + new_data@.subrange(0, i as int),
                old(self)@.audio_buffer.len() + new_data@.len() <= usize::MAX,
                self.settings == old(self)@.settings,
                self.path == old(self).path,
                self.sample_rate == old(self)@.sample_rate,
            decreases new_data@.len() - i,
        {
            self.audio_buffer.push(new_data[i]);
            i = i + 1;
        }
        assert(new_data@.subrange(0, new_data@.len() as int) =~= new_data@);
        let len = self.audio_buffer.len();
        if len > convert_size {
            let mut kept: Vec<i16> = Vec::new();
            let mut j: usize = len - convert_size;
            while j < len
                invariant
                    len == self.audio_buffer@.len(),
                    convert_size < len,
                    len - convert_size <= j <= len,
                    kept@ == self.audio_buffer@.subrange(len - convert_size, j as int),
                decreases len - j,
            {
                kept.push(self.audio_buffer[j]);
                j = j + 1;
            }
            self.audio_buffer = kept;
        }
        let vol_size = input_size + crossfade_size;
        let blen = self.audio_buffer.len();
        let m: usize = if vol_size < blen { vol_size } else { blen };
        let mut vol: Vec<i16> = Vec::new();
        let mut k: usize = 0;
        while k < m
            invariant
                m <= blen,
                blen == self.audio_buffer@.len(),
                k <= m,
                vol@.len() == k,
                forall|t: int| 0 <= t < k ==> #[trigger] vol@[t] == self.audio_buffer@[blen - 1 - t],
            decreases m - k,
        {
            vol.push(self.audio_buffer[blen - 1 - k]);
            k = k + 1;
        }
        assert(vol@ =~= newest_first(self.audio_buffer@, vol_size as int));
        let audio = self.audio_buffer.clone();
        GeneratedInput {
            audio,
            pitchf: Vec::new(),
            feature: Vec::new(),
            convert_size,
            vol_samples: vol,
            vol_size,
        }
    }
}

impl VoiceChangerModel for Rvc {
    fn processing_sample_rate(&self) -> (r: i32)
        ensures
            r == self@.sample_rate,
    {
        self.sample_rate
    }

    /// The RVC model passes blocks through unchanged.
    fn inference(&self, input: &[i16]) -> (r: Vec<i16>)
        ensures
            r@ == input@,
    {
        let mut out: Vec<i16> = Vec::new();
        let mut i: usize = 0;
        while i < input.len()
            invariant
                i <= input@.len(),
                out@ == input@.subrange(0, i as int),
            decreases input@.len() - i,
        {
            out.push(input[i]);
            i = i + 1;
        }
        assert(out@ =~= input@);
        out
    }

    /// Applies `key` = `val` as [`Rvc::update_settings`] does.
    fn update_settings(&mut self, key: &str, val: &SettingValue) -> (r: bool)
        ensures
            match rvc_settings_update(old(self)@.settings, key@, *val) {
                Some(s) => r && final(self)@ == (RvcView { settings: s, ..old(self)@ }),
                None => !r && final(self)@ == old(self)@,
            },
    {
        Rvc::update_settings(self, key, val)
    }

    /// The defaults `defaultTune`, `defaultIndexRatio`, `defaultProtect`.
    fn get_model_current(&self) -> (r: Vec<ModelDefault>)
        ensures
            r@.len() == 3,
            r@[0].key@ == "defaultTune"@,
            r@[0].value == DefaultValue::Int(self@.settings.tran),
            r@[1].key@ == "defaultIndexRatio"@,
            r@[1].value == DefaultValue::FloatBits(self@.settings.index_ratio_bits),
            r@[2].key@ == "defaultProtect"@,
            r@[2].value == DefaultValue::FloatBits(self@.settings.protect_bits),
    {
        Rvc::get_model_current(self)
    }
}

impl VCModel for Rvc {}

} // verus!
