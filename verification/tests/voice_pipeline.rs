use base64::{engine::general_purpose, Engine as _};
use server_rs::audio_codec::{bytes_to_samples, samples_to_bytes};
use server_rs::crossfade::CrossfadePoint;
use server_rs::setting_value::SettingValue;
use server_rs::voice_api::{process_test_request, process_voice_message};
use server_rs::voice_changer_manager::VoiceChangerManager;
use server_rs::voice_changer_params::VoiceChangerParams;

fn params() -> VoiceChangerParams {
    VoiceChangerParams {
        model_dir: "m".into(),
        content_vec_500: "".into(),
        content_vec_500_onnx: "".into(),
        content_vec_500_onnx_on: false,
        hubert_base: "".into(),
        hubert_base_jp: "".into(),
        hubert_soft: "".into(),
        nsf_hifigan: "".into(),
        sample_mode: "".into(),
        crepe_onnx_full: "".into(),
        crepe_onnx_tiny: "".into(),
        rmvpe: "".into(),
        rmvpe_onnx: "".into(),
        whisper_tiny: "".into(),
    }
}

fn int_value(v: i64) -> SettingValue {
    SettingValue { int: Some(v), float_bits: Some((v as f32).to_bits()), flag: None, text: None }
}

fn flag_value(b: bool) -> SettingValue {
    SettingValue { int: None, float_bits: None, flag: Some(b), text: None }
}

/// The equal-power fade of the server, for one sample.
fn blend(p: CrossfadePoint) -> i16 {
    let size = p.size;
    let offset = (size as f32 * f32::from_bits(p.offset_rate_bits)).round() as usize;
    let end = (size as f32 * f32::from_bits(p.end_rate_bits)).round() as usize;
    let i = p.index;
    let (ps, cs) = if i < offset {
        (1.0f32, 0.0f32)
    } else if i < end && end > offset {
        let percent = (i - offset) as f32 / (end - offset) as f32;
        (
            (percent * 0.5 * std::f32::consts::PI).cos().powi(2),
            ((1.0 - percent) * 0.5 * std::f32::consts::PI).cos().powi(2),
        )
    } else {
        (0.0, 1.0)
    };
    (p.prev as f32 * ps + p.cur as f32 * cs) as i16
}

#[test]
fn mmvc_rest_test_endpoint_echoes_payload() {
    let mut manager = VoiceChangerManager::new(params());
    manager.reset();
    let samples = vec![1i16, -2i16];
    let bytes: Vec<u8> = samples.iter().flat_map(|x| x.to_le_bytes()).collect();
    let encoded = general_purpose::STANDARD.encode(&bytes);
    let r = process_test_request(&mut manager, 123, &encoded, blend);
    assert_eq!(r.timestamp, 123);
    assert_eq!(r.changed_voice_base64, encoded);
}

#[test]
fn mmvc_rest_voice_changer_test_endpoint_echoes_payload() {
    let mut manager = VoiceChangerManager::new(params());
    manager.reset();
    let samples = vec![1i16, -2i16];
    let bytes: Vec<u8> = samples.iter().flat_map(|x| x.to_le_bytes()).collect();
    let encoded = general_purpose::STANDARD.encode(&bytes);
    let r = process_test_request(&mut manager, 123, &encoded, blend);
    assert_eq!(r.timestamp, 123);
    assert_eq!(r.changed_voice_base64, encoded);
    manager.reset();
}

#[test]
fn binary_roundtrip() {
    let mut manager = VoiceChangerManager::new(params());
    manager.reset();
    let input = [1i16, -2i16];
    let out = manager.change_voice(&input, blend);
    let mut bytes = Vec::new();
    for s in out.iter() {
        bytes.extend_from_slice(&s.to_le_bytes());
    }
    let mut resp = serde_json::Map::new();
    resp.insert("timestamp".into(), serde_json::Value::from(1u64));
    resp.insert(
        "performance".into(),
        serde_json::Value::Array(vec![
            serde_json::Value::from(0.0f32),
            serde_json::Value::from(0.0f32),
            serde_json::Value::from(0.0f32),
        ]),
    );
    let mut placeholder = serde_json::Map::new();
    placeholder.insert("_placeholder".into(), serde_json::Value::Bool(true));
    placeholder.insert("num".into(), serde_json::Value::from(0));
    let payload = serde_json::Value::Array(vec![
        serde_json::Value::String("response".into()),
        serde_json::Value::Object(resp),
        serde_json::Value::Object(placeholder),
    ]);
    let packet = format!("51-/test,{}", payload.to_string());
    assert!(packet.starts_with("51-/test,"));
    assert_eq!(out, vec![1, -2]);
    assert_eq!(bytes, vec![1, 0, 254, 255]);
    manager.reset();
}

#[test]
fn update_settings_endpoint_changes_value() {
    let mut manager = VoiceChangerManager::new(params());
    let info = manager.update_settings("modelSlotIndex", &int_value(1));
    assert_eq!(info.settings.model_slot_index, 1);
}

#[test]
fn mmvc_rest_fileuploader_performance_endpoint_returns_values() {
    let manager = VoiceChangerManager::new(params());
    let perf = manager.get_performance();
    assert!(perf.len() >= 3);
    assert_eq!(perf, vec![0, 0, 0, 0]);
}

#[test]
fn manager_defaults() {
    let manager = VoiceChangerManager::new(params());
    let info = manager.get_info();
    assert_eq!(info.settings.model_slot_index, -1);
    assert!(!info.settings.pass_through);
    assert_eq!(info.settings.input_sample_rate, 48000);
    assert_eq!(info.settings.output_sample_rate, 48000);
    assert_eq!(f32::from_bits(info.settings.cross_fade_offset_rate_bits), 0.1);
    assert_eq!(f32::from_bits(info.settings.cross_fade_end_rate_bits), 0.9);
    assert_eq!(info.settings.cross_fade_overlap_size, 4096);
    assert_eq!(info.model_path, None);
    assert_eq!(manager.model_dir(), "m");
}

#[test]
fn manager_update_settings_keys() {
    let mut manager = VoiceChangerManager::new(params());
    manager.update_settings("passThrough", &flag_value(true));
    manager.update_settings("inputSampleRate", &int_value(44100));
    manager.update_settings("outputSampleRate", &int_value(24000));
    manager.update_settings("crossFadeOverlapSize", &int_value(512));
    manager.update_settings("recordIO", &int_value(1));
    let f = SettingValue { int: None, float_bits: Some(0.25f32.to_bits()), flag: None, text: None };
    manager.update_settings("crossFadeOffsetRate", &f);
    let g = SettingValue { int: None, float_bits: Some(0.75f32.to_bits()), flag: None, text: None };
    let info = manager.update_settings("crossFadeEndRate", &g);
    assert!(info.settings.pass_through);
    assert_eq!(info.settings.input_sample_rate, 44100);
    assert_eq!(info.settings.output_sample_rate, 24000);
    assert_eq!(info.settings.cross_fade_overlap_size, 512);
    assert_eq!(info.settings.record_io, 1);
    assert_eq!(f32::from_bits(info.settings.cross_fade_offset_rate_bits), 0.25);
    assert_eq!(f32::from_bits(info.settings.cross_fade_end_rate_bits), 0.75);
    // an unknown key, and a value of the wrong kind, change nothing
    let before = manager.get_info();
    manager.update_settings("noSuchKey", &int_value(5));
    let after = manager.update_settings("passThrough", &int_value(0));
    assert_eq!(after.settings.pass_through, before.settings.pass_through);
    assert_eq!(after.settings.model_slot_index, before.settings.model_slot_index);
    // a value outside i32 is truncated as `as i32` does
    let info = manager.update_settings("modelSlotIndex", &int_value(4294967297));
    assert_eq!(info.settings.model_slot_index, 1);
}

#[test]
fn pass_through_returns_input_and_keeps_nothing() {
    let mut manager = VoiceChangerManager::new(params());
    manager.update_settings("passThrough", &flag_value(true));
    let out = manager.change_voice(&[5, 6, 7], blend);
    assert_eq!(out, vec![5, 6, 7]);
    manager.update_settings("passThrough", &flag_value(false));
    manager.update_settings("crossFadeOverlapSize", &int_value(3));
    // nothing was kept, so no fade happens here
    let out = manager.change_voice(&[5, 6, 7], blend);
    assert_eq!(out, vec![5, 6, 7]);
}

#[test]
fn crossfade_blends_equal_length_blocks() {
    let mut manager = VoiceChangerManager::new(params());
    manager.update_settings("crossFadeOverlapSize", &int_value(4));
    let first = manager.change_voice(&[100, 100, 100, 100], blend);
    assert_eq!(first, vec![100, 100, 100, 100]);
    // offset round(4 * 0.1) = 0, end round(4 * 0.9) = 4: sample 0 is all
    // previous block, the rest fades towards the new one
    let second = manager.change_voice(&[0, 0, 0, 0], blend);
    assert_eq!(second[0], 100);
    assert!(second[1] < 100 && second[1] > 0);
    assert!(second[3] < second[1]);
    // a block of another length is not faded
    let third = manager.change_voice(&[7, 7], blend);
    assert_eq!(third, vec![7, 7]);
}

#[test]
fn clear_prev_audio_stops_the_fade() {
    let mut manager = VoiceChangerManager::new(params());
    manager.update_settings("crossFadeOverlapSize", &int_value(4));
    manager.change_voice(&[100, 100, 100, 100], blend);
    manager.clear_prev_audio();
    let out = manager.change_voice(&[0, 0, 0, 0], blend);
    assert_eq!(out, vec![0, 0, 0, 0]);
}

#[test]
fn reset_restores_defaults() {
    let mut manager = VoiceChangerManager::new(params());
    manager.update_settings("modelSlotIndex", &int_value(3));
    manager.reset();
    assert_eq!(manager.get_info().settings.model_slot_index, -1);
}

#[test]
fn test_request_with_invalid_base64_carries_no_samples() {
    let mut manager = VoiceChangerManager::new(params());
    let r = process_test_request(&mut manager, 9, "not base64!", blend);
    assert_eq!(r.timestamp, 9);
    assert_eq!(r.changed_voice_base64, "");
}

#[test]
fn test_request_drops_a_trailing_odd_byte() {
    let mut manager = VoiceChangerManager::new(params());
    let encoded = general_purpose::STANDARD.encode([1u8, 0, 9]);
    let r = process_test_request(&mut manager, 1, &encoded, blend);
    assert_eq!(r.changed_voice_base64, general_purpose::STANDARD.encode([1u8, 0]));
}

#[test]
fn voice_message_defaults() {
    let mut manager = VoiceChangerManager::new(params());
    let (ts, bytes) = process_voice_message(&mut manager, None, None, blend);
    assert_eq!(ts, 0);
    assert!(bytes.is_empty());
    let (ts, bytes) = process_voice_message(&mut manager, Some(42), Some(vec![1, 0, 254, 255]), blend);
    assert_eq!(ts, 42);
    assert_eq!(bytes, vec![1, 0, 254, 255]);
}

#[test]
fn sample_byte_conversions() {
    assert_eq!(bytes_to_samples(&[1, 0, 254, 255, 0, 128, 255, 127, 7]), vec![1, -2, -32768, 32767]);
    assert_eq!(samples_to_bytes(&[1, -2, -32768, 32767]), vec![1, 0, 254, 255, 0, 128, 255, 127]);
    let all: Vec<i16> = vec![i16::MIN, -1, 0, 1, i16::MAX, 12345, -12345];
    assert_eq!(bytes_to_samples(&samples_to_bytes(&all)), all);
}

#[test]
fn test_request_reply_decodes_to_the_converted_bytes() {
    let mut manager = VoiceChangerManager::new(params());
    let bytes: Vec<u8> = vec![0, 1, 2, 3, 250, 251];
    let encoded = general_purpose::STANDARD.encode(&bytes);
    let r = process_test_request(&mut manager, 5, &encoded, blend);
    assert_ne!(r.changed_voice_base64, "");
    assert_eq!(general_purpose::STANDARD.decode(&r.changed_voice_base64).unwrap(), bytes);
}

#[test]
fn repeated_update_is_idempotent() {
    let mut manager = VoiceChangerManager::new(params());
    let a = manager.update_settings("outputSampleRate", &int_value(22050));
    let b = manager.update_settings("outputSampleRate", &int_value(22050));
    assert_eq!(a.settings.output_sample_rate, b.settings.output_sample_rate);
    assert_eq!(b.settings.output_sample_rate, 22050);
    assert_eq!(b.settings.performance_bits, vec![0, 0, 0, 0]);
}

#[test]
fn value_of_no_kind_changes_nothing() {
    let mut manager = VoiceChangerManager::new(params());
    let none = SettingValue { int: None, float_bits: None, flag: None, text: None };
    let info = manager.update_settings("inputSampleRate", &none);
    assert_eq!(info.settings.input_sample_rate, 48000);
}
