//! Holder of the parameters that the process was started with.
use vstd::prelude::*;
use crate::voice_changer_params::VoiceChangerParams;

verus! {

/// Keeps the parameters once they are known. The server keeps one
/// process-wide value of this type.
pub struct VoiceChangerParamsManager {
    params: Option<VoiceChangerParams>,
}

impl VoiceChangerParamsManager {
    /// The parameters held, if any.
    pub closed spec fn held(&self) -> Option<VoiceChangerParams> {
        self.params
    }

    /// A manager that holds no parameters yet.
    pub fn new() -> (r: Self)
        ensures
            r.held().is_none(),
    {
        VoiceChangerParamsManager { params: None }
    }

    /// Replaces the held parameters.
    pub fn set_params(&mut self, params: VoiceChangerParams)
        ensures
            final(self).held() == Some(params),
    {
        self.params = Some(params);
    }

    /// A copy of the held parameters.
    pub fn params(&self) -> (r: Option<VoiceChangerParams>)
        ensures
            r == self.held(),
    {
        match &self.params {
            Some(p) => Some(p.clone()),
            None => None,
        }
    }
}

} // verus!
