//! Paths of the pretrained weights and the sample mode the server runs with.
use vstd::prelude::*;

verus! {

/// Locations of the pretrained weights and model directory, as given on
/// the command line.
#[derive(Debug)]
pub struct VoiceChangerParams {
    pub model_dir: String,
    pub content_vec_500: String,
    pub content_vec_500_onnx: String,
    pub content_vec_500_onnx_on: bool,
    pub hubert_base: String,
    pub hubert_base_jp: String,
    pub hubert_soft: String,
    pub nsf_hifigan: String,
    pub sample_mode: String,
    pub crepe_onnx_full: String,
    pub crepe_onnx_tiny: String,
    pub rmvpe: String,
    pub rmvpe_onnx: String,
    pub whisper_tiny: String,
}

impl Clone for VoiceChangerParams {
    fn clone(&self) -> (r: Self)
        ensures
            r == *self,
    {
        VoiceChangerParams {
            model_dir: self.model_dir.clone(),
            content_vec_500: self.content_vec_500.clone(),
            content_vec_500_onnx: self.content_vec_500_onnx.clone(),
            content_vec_500_onnx_on: self.content_vec_500_onnx_on,
            hubert_base: self.hubert_base.clone(),
            hubert_base_jp: self.hubert_base_jp.clone(),
            hubert_soft: self.hubert_soft.clone(),
            nsf_hifigan: self.nsf_hifigan.clone(),
            sample_mode: self.sample_mode.clone(),
            crepe_onnx_full: self.crepe_onnx_full.clone(),
            crepe_onnx_tiny: self.crepe_onnx_tiny.clone(),
            rmvpe: self.rmvpe.clone(),
            rmvpe_onnx: self.rmvpe_onnx.clone(),
            whisper_tiny: self.whisper_tiny.clone(),
        }
    }
}

} // verus!
