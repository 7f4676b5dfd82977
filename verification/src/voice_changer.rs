//! A voice changer around one model: its settings, the model it converts
//! with, and the cross-faded audio path.
use vstd::prelude::*;
use crate::crossfade::{CrossfadePoint, crossfade, crossfaded};
use crate::rvc::VCModel;
use crate::setting_value::{SettingValue, key_is};

verus! {

/// Settings of a voice changer. Float settings are kept as the bit
/// patterns of their `f32` values.
#[derive(Debug)]
pub struct VoiceChangerSettings {
    pub input_sample_rate: i32,
    pub output_sample_rate: i32,
    pub cross_fade_offset_rate_bits: u32,
    pub cross_fade_end_rate_bits: u32,
    pub cross_fade_overlap_size: i32,
    pub record_io: i32,
    pub performance_bits: Vec<u32>,
}

/// The value of a voice changer's settings.
pub struct VoiceChangerSettingsView {
    pub input_sample_rate: i32,
    pub output_sample_rate: i32,
    pub cross_fade_offset_rate_bits: u32,
    pub cross_fade_end_rate_bits: u32,
    pub cross_fade_overlap_size: i32,
    pub record_io: i32,
    pub performance_bits: Seq<u32>,
}

impl View for VoiceChangerSettings {
    type V = VoiceChangerSettingsView;

    open spec fn view(&self) -> VoiceChangerSettingsView {
        VoiceChangerSettingsView {
            input_sample_rate: self.input_sample_rate,
            output_sample_rate: self.output_sample_rate,
            cross_fade_offset_rate_bits: self.cross_fade_offset_rate_bits,
            cross_fade_end_rate_bits: self.cross_fade_end_rate_bits,
            cross_fade_overlap_size: self.cross_fade_overlap_size,
            record_io: self.record_io,
            performance_bits: self.performance_bits@,
        }
    }
}

impl Clone for VoiceChangerSettings {
    fn clone(&self) -> (r: Self)
        ensures
            r@ == self@,
    {
        VoiceChangerSettings {
            input_sample_rate: self.input_sample_rate,
            output_sample_rate: self.output_sample_rate,
            cross_fade_offset_rate_bits: self.cross_fade_offset_rate_bits,
            cross_fade_end_rate_bits: self.cross_fade_end_rate_bits,
            cross_fade_overlap_size: self.cross_fade_overlap_size,
            record_io: self.record_io,
            performance_bits: self.performance_bits.clone(),
        }
    }
}

/// The default settings: 48 kHz in and out, fade offset 0.1 and end 0.9,
/// overlap 4096, no recording, and four zero performance counters.
pub open spec fn default_voice_changer_settings() -> VoiceChangerSettingsView {
    VoiceChangerSettingsView {
        input_sample_rate: 48000i32,
        output_sample_rate: 48000i32,
        cross_fade_offset_rate_bits: 0x3dcccccdu32,
        cross_fade_end_rate_bits: 0x3f666666u32,
        cross_fade_overlap_size: 4096i32,
        record_io: 0i32,
        performance_bits: seq![0u32, 0u32, 0u32, 0u32],
    }
}

impl Default for VoiceChangerSettings {
    fn default() -> (r: Self)
        ensures
            r@ == default_voice_changer_settings(),
    {
        let mut perf: Vec<u32> = Vec::new();
        perf.push(0);
        perf.push(0);
        perf.push(0);
        perf.push(0);
        let r = VoiceChangerSettings {
            input_sample_rate: 48000,
            output_sample_rate: 48000,
            cross_fade_offset_rate_bits: 0x3dcccccd,
            cross_fade_end_rate_bits: 0x3f666666,
            cross_fade_overlap_size: 4096,
            record_io: 0,
            performance_bits: perf,
        };
        assert(r@.performance_bits =~= seq![0u32, 0u32, 0u32, 0u32]);
        r
    }
}

/// The settings after applying `key` = `v`, or `None` when `key` names no
/// setting. A value that does not read as the setting's kind leaves the
/// settings as they are.
pub open spec fn voice_changer_settings_update(
    s: VoiceChangerSettingsView,
    key: Seq<char>,
    v: SettingValue,
) -> Option<VoiceChangerSettingsView> {
    if key == "inputSampleRate"@ {
        Some(match v.int { Some(x) => VoiceChangerSettingsView { input_sample_rate: x as i32, ..s }, None => s })
    } else if key == "outputSampleRate"@ {
        Some(match v.int { Some(x) => VoiceChangerSettingsView { output_sample_rate: x as i32, ..s }, None => s })
    } else if key == "crossFadeOffsetRate"@ {
        Some(
            match v.float_bits {
                Some(x) => VoiceChangerSettingsView { cross_fade_offset_rate_bits: x, ..s },
                None => s,
            },
        )
    } else if key == "crossFadeEndRate"@ {
        Some(
            match v.float_bits {
                Some(x) => VoiceChangerSettingsView { cross_fade_end_rate_bits: x, ..s },
                None => s,
            },
        )
    } else if key == "crossFadeOverlapSize"@ {
        Some(
            match v.int {
                Some(x) => VoiceChangerSettingsView { cross_fade_overlap_size: x as i32, ..s },
                None => s,
            },
        )
    } else if key == "recordIO"@ {
        Some(match v.int { Some(x) => VoiceChangerSettingsView { record_io: x as i32, ..s }, None => s })
    } else {
        None
    }
}

/// Each key writes the setting it names and no other: an integer to the
/// sample rates, the overlap size and `recordIO` (cut to 32 bits), an
/// `f32` to the two cross-fade rates; a value of another kind changes
/// nothing. Every one of these keys is accepted.
pub proof fn law_voice_changer_keys_write_their_fields(s: VoiceChangerSettingsView, v: SettingValue)
    ensures
        voice_changer_settings_update(s, "inputSampleRate"@, v) == Some(match v.int { Some(x) => VoiceChangerSettingsView { input_sample_rate: x as i32, ..s }, None => s }),
        voice_changer_settings_update(s, "outputSampleRate"@, v) == Some(match v.int { Some(x) => VoiceChangerSettingsView { output_sample_rate: x as i32, ..s }, None => s }),
        voice_changer_settings_update(s, "crossFadeOffsetRate"@, v) == Some(match v.float_bits { Some(x) => VoiceChangerSettingsView { cross_fade_offset_rate_bits: x, ..s }, None => s }),
        voice_changer_settings_update(s, "crossFadeEndRate"@, v) == Some(match v.float_bits { Some(x) => VoiceChangerSettingsView { cross_fade_end_rate_bits: x, ..s }, None => s }),
        voice_changer_settings_update(s, "crossFadeOverlapSize"@, v) == Some(match v.int { Some(x) => VoiceChangerSettingsView { cross_fade_overlap_size: x as i32, ..s }, None => s }),
        voice_changer_settings_update(s, "recordIO"@, v) == Some(match v.int { Some(x) => VoiceChangerSettingsView { record_io: x as i32, ..s }, None => s }),
{
    reveal_strlit("inputSampleRate");
    reveal_strlit("outputSampleRate");
    reveal_strlit("crossFadeOffsetRate");
    reveal_strlit("crossFadeEndRate");
    reveal_strlit("crossFadeOverlapSize");
    reveal_strlit("recordIO");
    assert("outputSampleRate"@.len() != "inputSampleRate"@.len());
    assert("crossFadeOffsetRate"@.len() != "inputSampleRate"@.len());
    assert("crossFadeOffsetRate"@.len() != "outputSampleRate"@.len());
    assert("crossFadeEndRate"@.len() != "inputSampleRate"@.len());
    assert("crossFadeEndRate"@[0] != "outputSampleRate"@[0]);
    assert("crossFadeEndRate"@.len() != "crossFadeOffsetRate"@.len());
    assert("crossFadeOverlapSize"@.len() != "inputSampleRate"@.len());
    assert("crossFadeOverlapSize"@.len() != "outputSampleRate"@.len());
    assert("crossFadeOverlapSize"@.len() != "crossFadeOffsetRate"@.len());
    assert("crossFadeOverlapSize"@.len() != "crossFadeEndRate"@.len());
    assert("recordIO"@.len() != "inputSampleRate"@.len());
    assert("recordIO"@.len() != "outputSampleRate"@.len());
    assert("recordIO"@.len() != "crossFadeOffsetRate"@.len());
    assert("recordIO"@.len() != "crossFadeEndRate"@.len());
    assert("recordIO"@.len() != "crossFadeOverlapSize"@.len());
}

/// A value that reads as no kind of setting changes no setting.
pub proof fn law_voice_changer_update_needs_a_readable_value(s: VoiceChangerSettingsView, key: Seq<char>, v: SettingValue)
    requires
        v.int is None,
        v.float_bits is None,
        v.flag is None,
        v.text is None,
    ensures
        voice_changer_settings_update(s, key, v) matches Some(t) ==> t == s,
{
}

/// Applying the same update twice is applying it once.
pub proof fn law_voice_changer_update_idempotent(s: VoiceChangerSettingsView, key: Seq<char>, v: SettingValue)
    ensures
        voice_changer_settings_update(s, key, v) matches Some(t) ==> voice_changer_settings_update(t, key, v) == Some(t),
{
}

/// The performance counters `after` are `before` with counter `i`, when there
/// is one, incremented: `increment` is the `f32` addition of one on bit
/// patterns, and every other counter is kept.
pub open spec fn incremented_performance<F: Fn(u32) -> u32>(
    increment: F,
    before: Seq<u32>,
    after: Seq<u32>,
    i: int,
) -> bool {
    &&& after.len() == before.len()
    &&& forall|j: int| 0 <= j < before.len() && j != i ==> after[j] == before[j]
    &&& 0 <= i < before.len() ==> increment.ensures((before[i],), after[i])
}

/// The state `after` is `before` with performance counter `i` incremented
/// and everything else kept.
pub open spec fn counter_incremented<M, F: Fn(u32) -> u32>(
    increment: F,
    before: VoiceChangerView<M>,
    after: VoiceChangerView<M>,
    i: int,
) -> bool {
    &&& after == (VoiceChangerView {
        settings: VoiceChangerSettingsView {
            performance_bits: after.settings.performance_bits,
            ..before.settings
        },
        ..before
    })
    &&& incremented_performance(increment, before.settings.performance_bits, after.settings.performance_bits, i)
}

/// A voice changer converting with a model of type `M`.
pub struct VoiceChanger<M: VCModel> {
    settings: VoiceChangerSettings,
    prev_audio: Vec<i16>,
    model: Option<M>,
}

/// The state of a voice changer.
pub struct VoiceChangerView<M> {
    pub settings: VoiceChangerSettingsView,
    pub prev_audio: Seq<i16>,
    pub model: Option<M>,
}

impl<M: VCModel> View for VoiceChanger<M> {
    type V = VoiceChangerView<M>;

    closed spec fn view(&self) -> VoiceChangerView<M> {
        VoiceChangerView { settings: self.settings@, prev_audio: self.prev_audio@, model: self.model }
    }
}

/// What the model (or, without one, the identity) makes of a block.
pub open spec fn processed_block<M: VCModel>(model: Option<M>, input: &[i16], out: Vec<i16>) -> bool {
    match model {
        Some(m) => call_ensures(M::inference, (&m, input), out),
        None => out@ == input@,
    }
}

/// With no kept audio (after start-up, a reset or a cleared buffer), a
/// block comes out exactly as the model made it.
pub proof fn law_first_block_is_model_output<F: Fn(CrossfadePoint) -> i16>(
    blend: F,
    prev: Seq<i16>,
    processed: Seq<i16>,
    overlap: usize,
    offset_rate_bits: u32,
    end_rate_bits: u32,
    out: Seq<i16>,
    next_prev: Seq<i16>,
)
    requires
        prev.len() == 0,
        crossfaded(blend, prev, processed, overlap, offset_rate_bits, end_rate_bits, out, next_prev),
    ensures
        out == processed,
{
    assert(out =~= processed);
}

impl<M: VCModel> VoiceChanger<M> {
    /// A voice changer with default settings, no model and no kept audio.
    pub fn new() -> (r: Self)
        ensures
            r@.settings == default_voice_changer_settings(),
            r@.prev_audio.len() == 0,
            r@.model.is_none(),
    {
        VoiceChanger { settings: VoiceChangerSettings::default(), prev_audio: Vec::new(), model: None }
    }

    /// Converts one block: the model's output (the input itself without a
    /// model) has its head cross-faded with the tail kept from the previous
    /// block of the same length, and the tail of the result is kept.
    pub fn change_voice<F: Fn(CrossfadePoint) -> i16>(&mut self, input: &[i16], blend: F) -> (out: Vec<i16>)
        requires
            forall|p: CrossfadePoint| blend.requires((p,)),
        ensures
            exists|processed: Vec<i16>| processed_block(old(self)@.model, input, processed) && crossfaded(
                blend,
                old(self)@.prev_audio,
                processed@,
                old(self)@.settings.cross_fade_overlap_size as usize,
                old(self)@.settings.cross_fade_offset_rate_bits,
                old(self)@.settings.cross_fade_end_rate_bits,
                out@,
                final(self)@.prev_audio,
            ),
            final(self)@ == (VoiceChangerView { prev_audio: final(self)@.prev_audio, ..old(self)@ }),
    {
        let processed = match &self.model {
            Some(m) => m.inference(input),
            None => {
                let mut cur: Vec<i16> = Vec::new();
                let mut i: usize = 0;
                while i < input.len()
                    invariant
                        i <= input@.len(),
                        cur@ == input@.subrange(0, i as int),
                    decreases input@.len() - i,
                {
                    cur.push(input[i]);
                    i = i + 1;
                }
                assert(cur@ =~= input@);
                cur
            },
        };
        let overlap = self.settings.cross_fade_overlap_size as usize;
        let offset = self.settings.cross_fade_offset_rate_bits;
        let end = self.settings.cross_fade_end_rate_bits;
        let ghost pv = processed;
        let out = crossfade(&mut self.prev_audio, processed, overlap, offset, end, blend);
        assert(processed_block(old(self)@.model, input, pv));
        out
    }

    /// Applies `key` = `val`; `false` when `key` names no setting.
    pub fn update_settings(&mut self, key: &str, val: &SettingValue) -> (r: bool)
        ensures
            match voice_changer_settings_update(old(self)@.settings, key@, *val) {
                Some(s) => r && final(self)@ == (VoiceChangerView { settings: s, ..old(self)@ }),
                None => !r && final(self)@ == old(self)@,
            },
    {
        if key_is(key, "inputSampleRate") {
            if let Some(x) = val.int { self.settings.input_sample_rate = x as i32; }
        } else if key_is(key, "outputSampleRate") {
            if let Some(x) = val.int { self.settings.output_sample_rate = x as i32; }
        } else if key_is(key, "crossFadeOffsetRate") {
            if let Some(x) = val.float_bits { self.settings.cross_fade_offset_rate_bits = x; }
        } else if key_is(key, "crossFadeEndRate") {
            if let Some(x) = val.float_bits { self.settings.cross_fade_end_rate_bits = x; }
        } else if key_is(key, "crossFadeOverlapSize") {
            if let Some(x) = val.int { self.settings.cross_fade_overlap_size = x as i32; }
        } else if key_is(key, "recordIO") {
            if let Some(x) = val.int { self.settings.record_io = x as i32; }
        } else {
            return false;
        }
        true
    }

    /// The current settings.
    pub fn get_info(&self) -> (r: VoiceChangerSettings)
        ensures
            r@ == self@.settings,
    {
        self.settings.clone()
    }

    /// The performance counters (as `f32` bit patterns).
    pub fn get_performance(&self) -> (r: Vec<u32>)
        ensures
            r@ == self@.settings.performance_bits,
    {
        self.settings.performance_bits.clone()
    }

    /// Sets the input sample rate.
    pub fn set_input_sample_rate(&mut self, sr: i32)
        ensures
            final(self)@ == (VoiceChangerView {
                settings: VoiceChangerSettingsView { input_sample_rate: sr, ..old(self)@.settings },
                ..old(self)@
            }),
    {
        self.settings.input_sample_rate = sr;
    }

    /// Sets the output sample rate.
    pub fn set_output_sample_rate(&mut self, sr: i32)
        ensures
            final(self)@ == (VoiceChangerView {
                settings: VoiceChangerSettingsView { output_sample_rate: sr, ..old(self)@.settings },
                ..old(self)@
            }),
    {
        self.settings.output_sample_rate = sr;
    }

    /// The model's processing rate, or the output rate without a model.
    pub fn get_processing_sampling_rate(&self) -> (r: i32)
        ensures
            match self@.model {
                Some(m) => call_ensures(M::processing_sample_rate, (&m,), r),
                None => r == self@.settings.output_sample_rate,
            },
    {
        match &self.model {
            Some(m) => m.processing_sample_rate(),
            None => self.settings.output_sample_rate,
        }
    }

    /// Installs the model that converts from now on.
    pub fn set_model(&mut self, model: M)
        ensures
            final(self)@ == (VoiceChangerView { model: Some(model), ..old(self)@ }),
    {
        self.model = Some(model);
    }

    /// Installs a boxed model.
    pub fn set_model_box(&mut self, model: Box<M>)
        ensures
            final(self)@ == (VoiceChangerView { model: Some(*model), ..old(self)@ }),
    {
        self.model = Some(*model);
    }

    /// Forgets the audio kept for cross-fading.
    pub fn clear_prev_audio(&mut self)
        ensures
            final(self)@ == (VoiceChangerView { prev_audio: Seq::<i16>::empty(), ..old(self)@ }),
    {
        self.prev_audio = Vec::new();
    }

    fn increment_counter<F: Fn(u32) -> u32>(&mut self, i: usize, increment: F)
        requires
            forall|b: u32| increment.requires((b,)),
        ensures
            counter_incremented(increment, old(self)@, final(self)@, i as int),
    {
        if i < self.settings.performance_bits.len() {
            let b = increment(self.settings.performance_bits[i]);
            self.settings.performance_bits.set(i, b);
        }
        assert(self@.settings.performance_bits.len() == old(self)@.settings.performance_bits.len());
    }

    /// Updates the model defaults by incrementing performance counter 0.
    /// The counters are `f32` bit patterns; `increment` adds one to such a
    /// value.
    pub fn update_model_default<F: Fn(u32) -> u32>(&mut self, increment: F)
        requires
            forall|b: u32| increment.requires((b,)),
        ensures
            counter_incremented(increment, old(self)@, final(self)@, 0),
    {
        self.increment_counter(0, increment);
    }

    /// Updates the model metadata by incrementing performance counter 1;
    /// `new_data` is not read.
    pub fn update_model_info<F: Fn(u32) -> u32>(&mut self, _new_data: &str, increment: F)
        requires
            forall|b: u32| increment.requires((b,)),
        ensures
            counter_incremented(increment, old(self)@, final(self)@, 1),
    {
        self.increment_counter(1, increment);
    }

    /// Records an upload of model assets by incrementing performance counter 2;
    /// `params` is not read.
    pub fn upload_model_assets<F: Fn(u32) -> u32>(&mut self, _params: &str, increment: F)
        requires
            forall|b: u32| increment.requires((b,)),
        ensures
            counter_incremented(increment, old(self)@, final(self)@, 2),
    {
        self.increment_counter(2, increment);
    }

    /// Restores default settings, forgets the kept audio and the model.
    pub fn reset(&mut self)
        ensures
            final(self)@.settings == default_voice_changer_settings(),
            final(self)@.prev_audio.len() == 0,
            final(self)@.model.is_none(),
    {
        self.settings = VoiceChangerSettings::default();
        self.prev_audio = Vec::new();
        self.model = None;
    }
}

} // verus!
