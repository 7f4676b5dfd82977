//! Descriptions of the sample models that can be downloaded into slots.
use vstd::prelude::*;

verus! {

/// What every sample model description carries.
#[derive(Debug)]
pub struct ModelSample {
    pub id: String,
    pub voice_changer_type: Option<String>,
}

impl Default for ModelSample {
    fn default() -> (r: Self)
        ensures
            r.id@.len() == 0,
            r.voice_changer_type.is_none(),
    {
        ModelSample { id: String::new(), voice_changer_type: None }
    }
}

/// Description of an RVC sample model.
#[derive(Debug)]
pub struct RVCModelSample {
    pub base: ModelSample,
    pub lang: String,
    pub tag: Vec<String>,
    pub name: String,
    pub model_url: String,
    pub index_url: String,
    pub terms_of_use_url: String,
    pub icon: String,
    pub credit: String,
    pub description: String,
    pub sample_rate: i32,
    pub model_type: String,
    pub f0: bool,
}

impl Default for RVCModelSample {
    /// An RVC sample with no id or texts, typed `RVC`, at 48 kHz, with f0.
    fn default() -> (r: Self)
        ensures
            r.base.id@.len() == 0,
            r.base.voice_changer_type matches Some(t) && t@ == "RVC"@,
            r.lang@.len() == 0,
            r.tag@.len() == 0,
            r.name@.len() == 0,
            r.model_url@.len() == 0,
            r.index_url@.len() == 0,
            r.terms_of_use_url@.len() == 0,
            r.icon@.len() == 0,
            r.credit@.len() == 0,
            r.description@.len() == 0,
            r.sample_rate == 48000,
            r.model_type@.len() == 0,
            r.f0,
    {
        RVCModelSample {
            base: ModelSample { voice_changer_type: Some(String::from_str("RVC")), ..ModelSample::default() },
            lang: String::new(),
            tag: Vec::new(),
            name: String::new(),
            model_url: String::new(),
            index_url: String::new(),
            terms_of_use_url: String::new(),
            icon: String::new(),
            credit: String::new(),
            description: String::new(),
            sample_rate: 48000,
            model_type: String::new(),
            f0: true,
        }
    }
}

} // verus!
