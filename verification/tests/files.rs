use server_rs::constants::{get_frontend_path, hubert_onnx_model_path, native_client_file_mac, native_client_file_win, MAX_SLOT_NUM, SERVER_DEVICE_SAMPLE_RATES, TMP_DIR, UPLOAD_DIR};
use server_rs::downloader::{
    get_sample_json_and_model_ids, missing_downloads, nsf_hifigan_extra_downloads, plan_sample_downloads, weight_download_targets,
    Sample, SampleModelParam, SlotPlan,
};
use server_rs::paths::{i32_to_string, usize_to_string};
use server_rs::file_uploader::{concat_done, concat_plan, sanitize_filename, tmp_file_path, upload_done, upload_target};
use server_rs::socketio_stub::SocketIOServer;
use server_rs::voice_changer_manager::{LoadModelParamFile, LoadModelRequest, VoiceChangerManager};
use server_rs::voice_changer_params::VoiceChangerParams;

fn params(model_dir: &str) -> VoiceChangerParams {
    VoiceChangerParams {
        model_dir: model_dir.into(),
        content_vec_500: "a".into(),
        content_vec_500_onnx: "b".into(),
        content_vec_500_onnx_on: true,
        hubert_base: "c".into(),
        hubert_base_jp: "d".into(),
        hubert_soft: "e".into(),
        nsf_hifigan: "pretrain/nsf_hifigan/model".into(),
        sample_mode: "production".into(),
        crepe_onnx_full: "g".into(),
        crepe_onnx_tiny: "h".into(),
        rmvpe: "i".into(),
        rmvpe_onnx: "j".into(),
        whisper_tiny: "k".into(),
    }
}

#[test]
fn sanitize_removes_directories() {
    assert_eq!(sanitize_filename("../../etc/passwd"), "passwd");
    assert_eq!(sanitize_filename("a/b/c.txt"), "c.txt");
    assert_eq!(sanitize_filename(".."), "");
    assert_eq!(sanitize_filename("plain"), "plain");
}

#[test]
fn sanitize_gives_no_separator_or_dot_names() {
    for name in ["", ".", "..", "/", "a/..", "a/.", "dir/", "../x/./final.txt", "final.txt"] {
        let r = sanitize_filename(name);
        assert!(!r.contains('/'));
        assert_ne!(r, ".");
        assert_ne!(r, "..");
    }
    assert_eq!(sanitize_filename("final.txt"), "final.txt");
    assert_eq!(sanitize_filename("dir/"), "dir");
    assert_eq!(sanitize_filename("a/."), "a");
}

#[test]
fn upload_and_concat_plans() {
    let t = upload_target(Some("final.txt_0"), true).unwrap();
    assert_eq!(t.safe_name, "final.txt_0");
    assert_eq!(t.path, "upload_dir/final.txt_0");
    assert_eq!(upload_done(&t.safe_name).msg, "uploaded files final.txt_0");
    let e = upload_target(None, true).err().unwrap();
    assert!(!e.ok);
    assert_eq!(e.msg, "uploaded file is not found.");
    assert!(upload_target(Some("x"), false).is_err());
    let p = concat_plan("dir/final.txt", 2);
    assert_eq!(p.safe_name, "final.txt");
    assert_eq!(p.target, "upload_dir/final.txt");
    assert_eq!(p.chunks, vec!["upload_dir/final.txt_0".to_string(), "upload_dir/final.txt_1".to_string()]);
    assert_eq!(concat_done("final.txt").msg, "concat files final.txt");
    assert!(concat_done("final.txt").ok);
}

#[test]
fn tmp_paths() {
    assert_eq!(tmp_file_path("res.txt"), "tmp_dir/res.txt");
    assert_eq!(TMP_DIR, "tmp_dir");
    assert_eq!(UPLOAD_DIR, "upload_dir");
    assert_eq!(MAX_SLOT_NUM, 500);
    assert_eq!(SERVER_DEVICE_SAMPLE_RATES, [16000, 32000, 44100, 48000, 96000, 192000]);
}

#[test]
fn load_model_plan_moves_files_into_slot() {
    let mut manager = VoiceChangerManager::new(params("m"));
    let req = LoadModelRequest {
        voice_changer_type: "RVC".into(),
        slot: 0,
        is_sample_mode: false,
        sample_id: String::new(),
        files: vec![LoadModelParamFile { name: "model.pth".into(), dir: String::new() }],
    };
    let plan = manager.load_model_plan(&req);
    assert_eq!(plan.slot_dir, "m/0");
    assert_eq!(plan.moves[0].src, "upload_dir/model.pth");
    assert_eq!(plan.moves[0].dst, "m/0/model.pth");
    let info = manager.finish_load_model(&plan, &vec![false]);
    assert_eq!(info.model_path, None);
    let info = manager.finish_load_model(&plan, &vec![true]);
    assert_eq!(info.model_path.as_deref(), Some("m/0/model.pth"));
}

#[test]
fn first_moved_file_becomes_the_model_path() {
    let mut manager = VoiceChangerManager::new(params("m"));
    let req = LoadModelRequest {
        voice_changer_type: "RVC".into(),
        slot: -1,
        is_sample_mode: false,
        sample_id: String::new(),
        files: vec![
            LoadModelParamFile { name: "a.pth".into(), dir: "x".into() },
            LoadModelParamFile { name: "b.index".into(), dir: String::new() },
            LoadModelParamFile { name: "c.png".into(), dir: String::new() },
        ],
    };
    let plan = manager.load_model_plan(&req);
    assert_eq!(plan.slot_dir, "m/-1");
    assert_eq!(plan.moves[0].src, "upload_dir/x/a.pth");
    assert_eq!(plan.moves[0].dst_dir, "m/-1/x");
    let info = manager.finish_load_model(&plan, &vec![false, true, true]);
    assert_eq!(info.model_path.as_deref(), Some("m/-1/b.index"));
}

#[test]
fn sample_catalogues() {
    let (urls, models) = get_sample_json_and_model_ids("production");
    assert_eq!(urls.len(), 3);
    assert_eq!(urls[1], "https://huggingface.co/wok000/vcclient_model/raw/main/samples_0004_o.json");
    let ids: Vec<&str> = models.iter().map(|m| m.0).collect();
    assert_eq!(ids, vec!["Tsukuyomi-chan_o", "Amitaro_o", "KikotoMahiro_o", "TokinaShigure_o"]);
    let (urls, models) = get_sample_json_and_model_ids("dev");
    assert!(urls.is_empty() && models.is_empty());
}

#[test]
fn weight_targets_and_missing() {
    let p = params("m");
    let t = weight_download_targets(&p);
    assert_eq!(t.len(), 10);
    assert_eq!(t[0].save_to, "c");
    assert_eq!(t[9].save_to, "k");
    let mut exists = vec![true; 10];
    exists[3] = false;
    exists[7] = false;
    let m = missing_downloads(&t, &exists);
    assert_eq!(m.len(), 2);
    assert_eq!(m[0].save_to, "pretrain/nsf_hifigan/model");
    assert_eq!(m[1].save_to, "i");
    let extra = nsf_hifigan_extra_downloads(&p.nsf_hifigan, false, false, true);
    assert_eq!(extra.len(), 1);
    assert_eq!(extra[0].save_to, "pretrain/nsf_hifigan/config.json");
    assert!(nsf_hifigan_extra_downloads(&p.nsf_hifigan, true, false, false).is_empty());
    assert_eq!(nsf_hifigan_extra_downloads(&p.nsf_hifigan, false, false, false).len(), 2);
}

#[test]
fn sample_download_plans() {
    let samples = vec![
        Sample { id: "Amitaro_o".into(), model_url: "https://h/x/amitaro.pth".into(), index_url: Some("https://h/x/a.index".into()), icon: Some("https://h/x/a.png".into()) },
        Sample { id: "Other".into(), model_url: "https://h/x/o.pth".into(), index_url: None, icon: None },
    ];
    let models = vec![
        ("Tsukuyomi-chan_o", SampleModelParam { use_index: false }),
        ("Amitaro_o", SampleModelParam { use_index: true }),
        ("Other", SampleModelParam::default()),
    ];
    let plans = plan_sample_downloads(&samples, &models, "model_dir");
    assert_eq!(plans.len(), 3);
    assert!(matches!(plans[0], SlotPlan::NoSample));
    match &plans[1] {
        SlotPlan::Download { slot_dir, tasks } => {
            assert_eq!(slot_dir, "model_dir/1");
            let saved: Vec<&str> = tasks.iter().map(|t| t.save_to.as_str()).collect();
            assert_eq!(saved, vec!["model_dir/1/amitaro.pth", "model_dir/1/a.index", "model_dir/1/a.png"]);
        }
        _ => panic!("expected a download"),
    }
    match &plans[2] {
        SlotPlan::Download { slot_dir, tasks } => {
            assert_eq!(slot_dir, "model_dir/2");
            assert_eq!(tasks.len(), 1);
        }
        _ => panic!("expected a download"),
    }
    let bad = vec![Sample { id: "Other".into(), model_url: "..".into(), index_url: None, icon: None }];
    let plans = plan_sample_downloads(&bad, &vec![("Other", SampleModelParam::default())], "d");
    assert!(matches!(plans[0], SlotPlan::MissingFileName));
}

#[test]
fn bundled_paths() {
    assert_eq!(get_frontend_path(None), "../client/demo/dist");
    assert_eq!(get_frontend_path(Some("/opt/app")), "/opt/app/dist");
    assert_eq!(native_client_file_win(Some("/b")), "/b/voice-changer-native-client.exe");
    assert_eq!(native_client_file_win(None), "voice-changer-native-client");
    assert_eq!(
        native_client_file_mac(Some("/b")),
        "/b/voice-changer-native-client.app/Contents/MacOS/voice-changer-native-client"
    );
    assert_eq!(native_client_file_mac(None), "voice-changer-native-client");
    assert_eq!(hubert_onnx_model_path(Some("/b")), "/b/model_hubert/hubert_simple.onnx");
    assert_eq!(hubert_onnx_model_path(None), "model_hubert/hubert_simple.onnx");
}

#[test]
fn slot_numbers_are_written_in_decimal() {
    let plan = concat_plan("f", 12);
    assert_eq!(plan.chunks[10], "upload_dir/f_10");
    assert_eq!(plan.chunks[0], "upload_dir/f_0");
}

#[test]
fn socketio_stub_constructs() {
    assert_eq!(SocketIOServer::new(), SocketIOServer);
}

#[test]
fn numbers_in_decimal() {
    assert_eq!(usize_to_string(0), "0");
    assert_eq!(usize_to_string(7), "7");
    assert_eq!(usize_to_string(1024), "1024");
    assert_eq!(usize_to_string(usize::MAX), usize::MAX.to_string());
    assert_eq!(i32_to_string(0), "0");
    assert_eq!(i32_to_string(-5), "-5");
    assert_eq!(i32_to_string(40960), "40960");
    assert_eq!(i32_to_string(i32::MIN), "-2147483648");
    assert_eq!(i32_to_string(i32::MAX), "2147483647");
}
