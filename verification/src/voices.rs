//! A voice handed to callers, known by what its provider told of it.
use crate::types::VoiceInfo;
use vstd::prelude::*;

verus! {

/// A voice, as callers hold it.
pub struct VoiceResource {
    info: VoiceInfo,
}

impl View for VoiceResource {
    type V = VoiceInfo;

    closed spec fn view(&self) -> VoiceInfo {
        self.info
    }
}

impl VoiceResource {
    /// The voice that `info` describes.
    pub fn from_info(info: VoiceInfo) -> (voice: Self)
        ensures
            voice@ == info,
    {
        VoiceResource { info }
    }

    /// The provider's identifier of this voice.
    pub fn get_id(&self) -> (id: String)
        ensures
            id == self@.id,
    {
        self.info.id.clone()
    }

    /// What the provider told of this voice.
    pub fn info(&self) -> (info: &VoiceInfo)
        ensures
            *info == self@,
    {
        &self.info
    }
}

} // verus!
