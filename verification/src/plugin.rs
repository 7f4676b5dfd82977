//! Model plugins: what creates a model for a slot.
use vstd::prelude::*;
use crate::model_slot::{ModelSlotEntry, ModelSlotEntryView};
use crate::rvc::{Rvc, VCModel, is_default_rvc_settings};
use crate::voice_changer_params::VoiceChangerParams;

verus! {

/// A kind of model that the server can load.
pub trait VCModelPlugin {
    /// The model type the plugin creates.
    type Model: VCModel;

    /// The voice changer type the plugin serves.
    fn name(&self) -> &str;

    /// Creates the model of a slot.
    fn create_model(&self, params: &VoiceChangerParams, slot: &ModelSlotEntry) -> Self::Model;
}

/// The RVC plugin.
#[derive(Debug)]
pub struct RvcPlugin;

impl VCModelPlugin for RvcPlugin {
    type Model = Rvc;

    fn name(&self) -> (r: &str)
        ensures
            r@ == "RVC"@,
    {
        "RVC"
    }

    /// An RVC slot gives a model at its sampling rate for its model file;
    /// an empty slot a 48 kHz model without weights.
    fn create_model(&self, params: &VoiceChangerParams, slot: &ModelSlotEntry) -> (r: Rvc)
        ensures
            is_default_rvc_settings(r@.settings),
            r@.audio_buffer.len() == 0,
            match slot@ {
                ModelSlotEntryView::RVC(info) => r@.sample_rate == info.sampling_rate && r@.path == info.model_file@,
                ModelSlotEntryView::Empty => r@.sample_rate == 48000 && r@.path.len() == 0,
            },
    {
        match slot {
            ModelSlotEntry::RVC(info) => Rvc::new(info.sampling_rate, info.model_file.clone()),
            ModelSlotEntry::Empty => Rvc::new(48000, String::new()),
        }
    }
}

} // verus!
