use server_rs::model_sample::{ModelSample, RVCModelSample};
use server_rs::model_slot::{ModelSlotEntry, RVCModelSlot};
use server_rs::plugin::{RvcPlugin, VCModelPlugin};
use server_rs::rvc::{DefaultValue, Rvc, RvcSettings, VoiceChangerModel};
use server_rs::setting_value::SettingValue;
use server_rs::voice_changer::VoiceChanger;
use server_rs::voice_changer_params::VoiceChangerParams;
use server_rs::voice_changer_params_manager::VoiceChangerParamsManager;
use server_rs::volume_extractor::{dilate_mask, VolumeExtractor};
use server_rs::crossfade::CrossfadePoint;

fn int_value(v: i64) -> SettingValue {
    SettingValue { int: Some(v), float_bits: Some((v as f32).to_bits()), flag: None, text: None }
}

fn text_value(s: &str) -> SettingValue {
    SettingValue { int: None, float_bits: None, flag: None, text: Some(s.to_string()) }
}

fn float_value(f: f32) -> SettingValue {
    SettingValue { int: None, float_bits: Some(f.to_bits()), flag: None, text: None }
}

fn keep_current(p: CrossfadePoint) -> i16 {
    p.cur
}

fn params() -> VoiceChangerParams {
    VoiceChangerParams {
        model_dir: "m".into(),
        content_vec_500: "".into(),
        content_vec_500_onnx: "".into(),
        content_vec_500_onnx_on: false,
        hubert_base: "".into(),
        hubert_base_jp: "".into(),
        hubert_soft: "".into(),
        nsf_hifigan: "".into(),
        sample_mode: "".into(),
        crepe_onnx_full: "".into(),
        crepe_onnx_tiny: "".into(),
        rmvpe: "".into(),
        rmvpe_onnx: "".into(),
        whisper_tiny: "".into(),
    }
}

struct DummyModel;

impl VoiceChangerModel for DummyModel {
    fn processing_sample_rate(&self) -> i32 {
        16000
    }

    fn inference(&self, input: &[i16]) -> Vec<i16> {
        input.to_vec()
    }

    fn update_settings(&mut self, _key: &str, _val: &SettingValue) -> bool {
        true
    }

    fn get_model_current(&self) -> Vec<server_rs::rvc::ModelDefault> {
        Vec::new()
    }
}

impl server_rs::rvc::VCModel for DummyModel {}

#[test]
fn update_and_get_info() {
    let mut r = Rvc::new(48000, "m.pth".into());
    assert_eq!(r.processing_sample_rate(), 48000);
    r.update_settings("tran", &int_value(7));
    let info = r.get_info();
    assert_eq!(info.tran, 7);
}

#[test]
fn get_model_current_contains_keys() {
    let r = Rvc::new(48000, String::new());
    let cur = r.get_model_current();
    assert_eq!(cur.len(), 3);
    assert_eq!(cur[0].key, "defaultTune");
    assert_eq!(cur[0].value, DefaultValue::Int(12));
    assert_eq!(cur[1].key, "defaultIndexRatio");
    assert_eq!(cur[2].key, "defaultProtect");
    assert_eq!(cur[2].value, DefaultValue::FloatBits(0.5f32.to_bits()));
}

#[test]
fn rvc_settings_defaults_and_updates() {
    let d = RvcSettings::default();
    assert_eq!(d.gpu, -9999);
    assert_eq!(d.f0_detector, "rmvpe_onnx");
    assert_eq!(f32::from_bits(d.silent_threshold_bits), 0.00001);
    assert_eq!(d.extra_convert_size, 4096);
    assert_eq!(f32::from_bits(d.protect_bits), 0.5);
    let mut r = Rvc::new(48000, String::new());
    assert!(r.update_settings("f0Detector", &text_value("crepe")));
    assert!(r.update_settings("protect", &float_value(0.25)));
    assert!(r.update_settings("gpu", &int_value(1)));
    assert!(r.update_settings("dstId", &int_value(2)));
    assert!(r.update_settings("silenceFront", &int_value(0)));
    assert!(!r.update_settings("unknown", &int_value(1)));
    // a known key with a value of another kind is accepted and ignored
    assert!(r.update_settings("tran", &text_value("x")));
    let s = r.get_info();
    assert_eq!(s.f0_detector, "crepe");
    assert_eq!(f32::from_bits(s.protect_bits), 0.25);
    assert_eq!(s.gpu, 1);
    assert_eq!(s.dst_id, 2);
    assert_eq!(s.silence_front, 0);
    assert_eq!(s.tran, 12);
}

#[test]
fn rvc_inference_is_identity() {
    let r = Rvc::new(40000, String::new());
    assert_eq!(r.inference(&[3, -4, 5]), vec![3, -4, 5]);
    assert_eq!(r.processing_sample_rate(), 40000);
}

#[test]
fn generate_input_keeps_newest_samples() {
    let mut r = Rvc::new(48000, String::new());
    r.update_settings("extraConvertSize", &int_value(0));
    let g = r.generate_input(&[1, 2, 3], 2, 1, 1);
    assert_eq!(g.convert_size, 4);
    assert_eq!(g.audio, vec![1, 2, 3]);
    assert_eq!(g.vol_size, 3);
    assert_eq!(g.vol_samples, vec![3, 2, 1]);
    let g = r.generate_input(&[4, 5], 2, 1, 1);
    assert_eq!(g.audio, vec![2, 3, 4, 5]);
    assert_eq!(g.vol_samples, vec![5, 4, 3]);
    assert!(g.pitchf.is_empty() && g.feature.is_empty());
}

#[test]
fn generate_input_series_keeps_newest_of_all_blocks() {
    let mut r = Rvc::new(48000, String::new());
    r.update_settings("extraConvertSize", &int_value(0));
    let blocks: Vec<Vec<i16>> = vec![vec![1, 2, 3], vec![], vec![4], vec![5, 6, 7, 8, 9], vec![10]];
    let mut all: Vec<i16> = Vec::new();
    for b in &blocks {
        all.extend_from_slice(b);
        let g = r.generate_input(b, 3, 1, 1);
        let keep = all.len().min(g.convert_size);
        assert_eq!(g.audio, all[all.len() - keep..].to_vec());
    }
    assert_eq!(r.generate_input(&[], 3, 1, 1).audio, vec![6, 7, 8, 9, 10]);
}

#[test]
fn sample_rate_methods() {
    let mut vc: VoiceChanger<Rvc> = VoiceChanger::new();
    vc.set_input_sample_rate(24000);
    vc.set_output_sample_rate(24000);
    let info = vc.get_info();
    assert_eq!(info.input_sample_rate, 24000);
    assert_eq!(info.output_sample_rate, 24000);
}

#[test]
fn model_inference_and_processing_rate() {
    let mut vc: VoiceChanger<DummyModel> = VoiceChanger::new();
    vc.set_model(DummyModel);
    let rate = vc.get_processing_sampling_rate();
    assert_eq!(rate, 16000);
    let out = vc.change_voice(&[1, 2, 3], keep_current);
    assert_eq!(out, vec![1, 2, 3]);
}

#[test]
fn voice_changer_without_model_uses_output_rate() {
    let mut vc: VoiceChanger<Rvc> = VoiceChanger::new();
    assert_eq!(vc.get_processing_sampling_rate(), 48000);
    vc.set_model_box(Box::new(Rvc::new(32000, String::new())));
    assert_eq!(vc.get_processing_sampling_rate(), 32000);
    vc.reset();
    assert_eq!(vc.get_processing_sampling_rate(), 48000);
}

#[test]
fn voice_changer_settings_and_markers() {
    let mut vc: VoiceChanger<Rvc> = VoiceChanger::new();
    assert!(vc.update_settings("recordIO", &int_value(1)));
    assert!(!vc.update_settings("passThrough", &int_value(1)));
    assert_eq!(vc.get_info().record_io, 1);
    vc.update_model_default(add_one);
    vc.update_model_info("{}", add_one);
    vc.upload_model_assets("{}", add_one);
    let perf: Vec<f32> = vc.get_performance().into_iter().map(f32::from_bits).collect();
    assert_eq!(perf, vec![1.0, 1.0, 1.0, 0.0]);
}

fn add_one(bits: u32) -> u32 {
    (f32::from_bits(bits) + 1.0).to_bits()
}

#[test]
fn voice_changer_markers_count_each_call() {
    let mut vc: VoiceChanger<Rvc> = VoiceChanger::new();
    vc.update_model_default(add_one);
    vc.update_model_default(add_one);
    let perf: Vec<f32> = vc.get_performance().into_iter().map(f32::from_bits).collect();
    assert_eq!(perf, vec![2.0, 0.0, 0.0, 0.0]);
    vc.update_model_info("{}", add_one);
    vc.upload_model_assets("{}", add_one);
    vc.upload_model_assets("{}", add_one);
    vc.upload_model_assets("{}", add_one);
    let perf: Vec<f32> = vc.get_performance().into_iter().map(f32::from_bits).collect();
    assert_eq!(perf, vec![2.0, 1.0, 3.0, 0.0]);
    assert_eq!(vc.get_info().record_io, 0);
}

#[test]
fn voice_changer_crossfades_with_previous_block() {
    let mut vc: VoiceChanger<Rvc> = VoiceChanger::new();
    vc.update_settings("crossFadeOverlapSize", &int_value(2));
    vc.change_voice(&[10, 20], keep_current);
    let seen_prev = std::cell::RefCell::new(Vec::new());
    let out = vc.change_voice(&[1, 2], |p: CrossfadePoint| {
        seen_prev.borrow_mut().push(p.prev);
        p.prev
    });
    assert_eq!(out, vec![10, 20]);
    assert_eq!(*seen_prev.borrow(), vec![10, 20]);
    vc.clear_prev_audio();
    assert_eq!(vc.change_voice(&[1, 2], |p: CrossfadePoint| p.prev), vec![1, 2]);
}

#[test]
fn rvc_plugin_creates_models() {
    let plugin = RvcPlugin;
    assert_eq!(plugin.name(), "RVC");
    let mut slot = RVCModelSlot::default();
    slot.sampling_rate = 40000;
    slot.model_file = "a.pth".into();
    let m = plugin.create_model(&params(), &ModelSlotEntry::RVC(slot));
    assert_eq!(m.processing_sample_rate(), 40000);
    let m = plugin.create_model(&params(), &ModelSlotEntry::Empty);
    assert_eq!(m.processing_sample_rate(), 48000);
}

#[test]
fn model_sample_defaults() {
    let s = RVCModelSample::default();
    assert_eq!(s.base.voice_changer_type.as_deref(), Some("RVC"));
    assert_eq!(s.sample_rate, 48000);
    assert!(s.f0);
    let b = ModelSample::default();
    assert_eq!(b.id, "");
    assert_eq!(b.voice_changer_type, None);
}

#[test]
fn params_manager_holds_params() {
    let mut m = VoiceChangerParamsManager::new();
    assert!(m.params().is_none());
    m.set_params(params());
    assert_eq!(m.params().unwrap().model_dir, "m");
}

#[test]
fn test_extract_basic() {
    let ext = VolumeExtractor::new(160);
    let frames = ext.frame_bounds(480);
    assert_eq!(frames.len(), 4); // 480/160 + 1
    let info = ext.get_volume_extractor_info();
    assert_eq!(info.hop_size, 160);
    assert_eq!(frames[0], Some((0, 160)));
    assert_eq!(frames[2], Some((320, 480)));
    assert_eq!(frames[3], None);
}

#[test]
fn frames_of_partial_signal() {
    let ext = VolumeExtractor::new(160);
    let frames = ext.frame_bounds(500);
    assert_eq!(frames.len(), 4);
    assert_eq!(frames[3], Some((480, 500)));
    assert!(VolumeExtractor::new(0).frame_bounds(10).is_empty());
}

#[test]
fn test_mask_generation() {
    let volume = vec![0.0f32, 0.5, 0.0, 0.5];
    let threshold = 10f32.powf(-6.0 / 20.0);
    let mask: Vec<bool> = volume.iter().map(|v| *v > threshold).collect();
    let dilated = dilate_mask(&mask);
    assert!(!dilated.is_empty());
}

#[test]
fn dilation_reaches_four_samples() {
    let mut mask = vec![false; 12];
    mask[5] = true;
    let d = dilate_mask(&mask);
    let expect: Vec<bool> = (0..12).map(|i| i >= 1 && i <= 9).collect();
    assert_eq!(d, expect);
    assert!(dilate_mask(&Vec::new()).is_empty());
}
