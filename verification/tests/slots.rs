use server_rs::model_slot::{
    set_slot_index, ModelAssetRequest, ModelInfoUpdate, ModelSlot, ModelSlotEntry, ModelSlotManager, RVCModelSlot,
    SlotRequestError,
};
use server_rs::setting_value::SettingValue;

fn int_value(v: i64) -> SettingValue {
    SettingValue { int: Some(v), float_bits: Some((v as f32).to_bits()), flag: None, text: None }
}

fn text_value(s: &str) -> SettingValue {
    SettingValue { int: None, float_bits: None, flag: None, text: Some(s.to_string()) }
}

fn rvc(entry: &ModelSlotEntry) -> &RVCModelSlot {
    match entry {
        ModelSlotEntry::RVC(r) => r,
        _ => panic!("invalid slot"),
    }
}

#[test]
fn save_and_load() {
    let mut manager = ModelSlotManager::new("slots".to_string(), Vec::new());
    let info = ModelSlotEntry::RVC(RVCModelSlot {
        base: ModelSlot::default(),
        model_file: "a.pth".into(),
        sampling_rate: 48000,
        ..RVCModelSlot::default()
    });
    manager.save_model_slot(0, info);
    let loaded = manager.get_slot_info(0).unwrap();
    match loaded {
        ModelSlotEntry::RVC(r) => {
            assert_eq!(r.model_file, "a.pth");
            assert_eq!(r.sampling_rate, 48000);
        }
        _ => panic!("invalid slot"),
    }
}

#[test]
fn update_model_info_modifies_file() {
    let mut manager = ModelSlotManager::new("slots".to_string(), Vec::new());
    let info = ModelSlotEntry::RVC(RVCModelSlot {
        base: ModelSlot::default(),
        model_file: "a.pth".into(),
        sampling_rate: 48000,
        ..RVCModelSlot::default()
    });
    manager.save_model_slot(0, info);
    let update = ModelInfoUpdate { slot: Some(0), key: Some("samplingRate".into()), val: int_value(44100) };
    let slot = ModelSlotManager::check_model_info_update(&update).unwrap();
    let current = manager.get_slot_info(slot);
    let (slot, updated) = ModelSlotManager::update_model_info(&update, current).unwrap();
    manager.save_model_slot(slot, updated);
    let loaded = manager.get_slot_info(0).unwrap();
    match loaded {
        ModelSlotEntry::RVC(r) => {
            assert_eq!(r.sampling_rate, 44100);
        }
        _ => panic!("invalid"),
    }
}

#[test]
fn saving_beyond_the_end_grows_the_table() {
    let mut manager = ModelSlotManager::new("slots".to_string(), vec![None, None]);
    manager.save_model_slot(4, ModelSlotEntry::RVC(RVCModelSlot::default()));
    let all = manager.get_all_slot_info(None);
    assert_eq!(all.len(), 5);
    assert!(matches!(all[2], ModelSlotEntry::Empty));
    assert!(matches!(all[3], ModelSlotEntry::Empty));
    assert_eq!(rvc(&all[4]).base.slot_index, 4);
    assert!(manager.get_slot_info(5).is_none());
}

#[test]
fn all_slots_carry_their_index_and_the_static_slot_comes_last() {
    let mut manager = ModelSlotManager::new("slots".to_string(), vec![Some(ModelSlotEntry::RVC(RVCModelSlot::default())), None]);
    manager.save_model_slot(1, ModelSlotEntry::RVC(RVCModelSlot::default()));
    let mut st = RVCModelSlot::default();
    st.base.name = "Beatrice-JVS".into();
    let all = manager.get_all_slot_info(Some(ModelSlotEntry::RVC(st)));
    assert_eq!(all.len(), 3);
    assert_eq!(rvc(&all[0]).base.slot_index, 0);
    assert_eq!(rvc(&all[1]).base.slot_index, 1);
    assert_eq!(rvc(&all[2]).base.slot_index, -1);
    assert_eq!(rvc(&all[2]).base.name, "Beatrice-JVS");
}

#[test]
fn rvc_slot_defaults() {
    let d = RVCModelSlot::default();
    assert_eq!(d.base.voice_changer_type.as_deref(), Some("RVC"));
    assert_eq!(d.base.speakers.get(&0).map(|s| s.as_str()), Some("target"));
    assert_eq!(d.base.slot_index, -1);
    assert_eq!(f32::from_bits(d.default_protect_bits), 0.5);
    assert_eq!(d.sampling_rate, 48000);
    assert_eq!(d.emb_channels, 256);
    assert_eq!(d.emb_output_layer, 9);
    assert_eq!(d.embedder, "hubert_base");
    assert_eq!(d.version, "v2");
    assert!(d.f0 && d.use_final_proj && !d.is_onnx && !d.deprecated);
}

#[test]
fn info_update_requests() {
    let no_slot = ModelInfoUpdate { slot: None, key: Some("k".into()), val: int_value(1) };
    assert_eq!(ModelSlotManager::check_model_info_update(&no_slot), Err(SlotRequestError::SlotMissing));
    let no_key = ModelInfoUpdate { slot: Some(3), key: None, val: int_value(1) };
    assert_eq!(ModelSlotManager::check_model_info_update(&no_key), Err(SlotRequestError::KeyMissing));
    // without an entry, the update starts from the default RVC slot
    let e = ModelSlotManager::updated_model_info(None, "model_file", &text_value("b.pth"));
    assert_eq!(rvc(&e).model_file, "b.pth");
    assert_eq!(rvc(&e).sampling_rate, 48000);
    // an empty entry stays empty
    let e = ModelSlotManager::updated_model_info(Some(ModelSlotEntry::Empty), "modelFile", &text_value("b.pth"));
    assert!(matches!(e, ModelSlotEntry::Empty));
}

#[test]
fn asset_requests() {
    let a = ModelAssetRequest { slot: Some(2), file: Some("x.index".into()), name: None };
    assert_eq!(ModelSlotManager::check_asset_request(&a), Err(SlotRequestError::NameMissing));
    let a = ModelAssetRequest { slot: Some(2), file: None, name: Some("n".into()) };
    assert_eq!(ModelSlotManager::check_asset_request(&a), Err(SlotRequestError::FileMissing));
    let a = ModelAssetRequest { slot: Some(2), file: Some("x.index".into()), name: Some("indexFile".into()) };
    assert_eq!(ModelSlotManager::check_asset_request(&a), Ok(2));
    let manager = ModelSlotManager::new("slots".to_string(), Vec::new());
    let mv = manager.asset_move(2, "x.index");
    assert_eq!(mv.src, "upload_dir/x.index");
    assert_eq!(mv.dst_dir, "slots/2");
    assert_eq!(mv.dst, "slots/2/x.index");
    let e = ModelSlotManager::updated_asset_info(Some(ModelSlotEntry::RVC(RVCModelSlot::default())), "indexFile", "x.index");
    assert_eq!(rvc(&e).model_file, "x.index");
    let e = ModelSlotManager::updated_asset_info(None, "modelFile", "x.pth");
    assert!(matches!(e, ModelSlotEntry::Empty));
    assert_eq!(manager.slot_params_path(7), "slots/7/params.json");
}

#[test]
fn set_slot_index_leaves_empty_entries() {
    let mut e = ModelSlotEntry::Empty;
    set_slot_index(&mut e, 3);
    assert!(matches!(e, ModelSlotEntry::Empty));
    let mut e = ModelSlotEntry::RVC(RVCModelSlot::default());
    set_slot_index(&mut e, 3);
    assert_eq!(rvc(&e).base.slot_index, 3);
}

#[test]
fn slot_index_is_overwritten() {
    let mut e = ModelSlotEntry::RVC(RVCModelSlot::default());
    set_slot_index(&mut e, 3);
    set_slot_index(&mut e, 8);
    assert_eq!(rvc(&e).base.slot_index, 8);
}

#[test]
fn info_update_with_other_keys_keeps_the_entry() {
    let entry = ModelSlotEntry::RVC(RVCModelSlot { model_file: "a.pth".into(), sampling_rate: 40000, ..RVCModelSlot::default() });
    let cases = [
        ModelInfoUpdate { slot: Some(1), key: Some("name".into()), val: text_value("x") },
        ModelInfoUpdate { slot: Some(1), key: Some("modelFile".into()), val: int_value(3) },
        ModelInfoUpdate { slot: Some(1), key: Some("sampling_rate".into()), val: text_value("44100") },
    ];
    for u in cases.iter() {
        let (slot, e) = ModelSlotManager::update_model_info(u, Some(entry.clone())).unwrap();
        assert_eq!(slot, 1);
        assert_eq!(rvc(&e).model_file, "a.pth");
        assert_eq!(rvc(&e).sampling_rate, 40000);
    }
    let u = ModelInfoUpdate { slot: Some(1), key: Some("model_file".into()), val: text_value("b.pth") };
    let (_, e) = ModelSlotManager::update_model_info(&u, Some(entry.clone())).unwrap();
    assert_eq!(rvc(&e).model_file, "b.pth");
    assert_eq!(rvc(&e).sampling_rate, 40000);
    let u = ModelInfoUpdate { slot: None, key: Some("model_file".into()), val: text_value("b.pth") };
    assert!(matches!(ModelSlotManager::update_model_info(&u, None), Err(SlotRequestError::SlotMissing)));
    let u = ModelInfoUpdate { slot: Some(0), key: None, val: text_value("b.pth") };
    assert!(matches!(ModelSlotManager::update_model_info(&u, None), Err(SlotRequestError::KeyMissing)));
}

#[test]
fn stored_assets_set_the_model_file() {
    let entry = ModelSlotEntry::RVC(RVCModelSlot { model_file: "a.pth".into(), index_file: "a.index".into(), ..RVCModelSlot::default() });
    for name in ["modelFile", "model_file", "indexFile", "index_file"] {
        let a = ModelAssetRequest { slot: Some(3), file: Some("new.bin".into()), name: Some(name.into()) };
        let (slot, e) = ModelSlotManager::store_model_assets(&a, Some(entry.clone())).unwrap();
        assert_eq!(slot, 3);
        assert_eq!(rvc(&e).model_file, "new.bin");
        assert_eq!(rvc(&e).index_file, "a.index");
    }
    let a = ModelAssetRequest { slot: Some(3), file: Some("new.bin".into()), name: Some("iconFile".into()) };
    let (_, e) = ModelSlotManager::store_model_assets(&a, Some(entry.clone())).unwrap();
    assert_eq!(rvc(&e).model_file, "a.pth");
    let a = ModelAssetRequest { slot: Some(3), file: Some("new.bin".into()), name: Some("modelFile".into()) };
    let (_, e) = ModelSlotManager::store_model_assets(&a, None).unwrap();
    assert!(matches!(e, ModelSlotEntry::Empty));
    let a = ModelAssetRequest { slot: None, file: Some("new.bin".into()), name: Some("modelFile".into()) };
    assert!(matches!(ModelSlotManager::store_model_assets(&a, None), Err(SlotRequestError::SlotMissing)));
    let a = ModelAssetRequest { slot: Some(3), file: None, name: Some("modelFile".into()) };
    assert!(matches!(ModelSlotManager::store_model_assets(&a, None), Err(SlotRequestError::FileMissing)));
    let a = ModelAssetRequest { slot: Some(3), file: Some("new.bin".into()), name: None };
    assert!(matches!(ModelSlotManager::store_model_assets(&a, None), Err(SlotRequestError::NameMissing)));
}

#[test]
fn stored_asset_reads_back_from_its_slot() {
    let entry = ModelSlotEntry::RVC(RVCModelSlot { model_file: "a.pth".into(), ..RVCModelSlot::default() });
    let mut manager = ModelSlotManager::new("slots".to_string(), vec![Some(entry.clone()), None, Some(entry.clone())]);
    let a = ModelAssetRequest { slot: Some(2), file: Some("b.pth".into()), name: Some("model_file".into()) };
    let (slot, e) = ModelSlotManager::store_model_assets(&a, manager.get_slot_info(2)).unwrap();
    manager.save_model_slot(slot, e);
    let back = manager.get_slot_info(2).unwrap();
    assert_eq!(rvc(&back).model_file, "b.pth");
    assert_eq!(rvc(&back).base.slot_index, 2);
    assert_eq!(rvc(&manager.get_slot_info(0).unwrap()).model_file, "a.pth");
    assert!(matches!(manager.get_slot_info(1), Some(ModelSlotEntry::Empty)));
}
