//! The voices that a listing or a search found, handed out in one page.
use crate::types::{TtsError, VoiceInfo};
use vstd::prelude::*;

verus! {

/// The voices found by a listing or a search, not yet handed out.
pub struct DurableVoiceResults {
    voices: Vec<VoiceInfo>,
}

impl View for DurableVoiceResults {
    type V = Seq<VoiceInfo>;

    closed spec fn view(&self) -> Seq<VoiceInfo> {
        self.voices@
    }
}

/// The count a `u32` holds of `len` voices: `len` modulo 2^32.
pub open spec fn count_as_u32(len: nat) -> u32 {
    (len % 0x1_0000_0000) as u32
}

impl DurableVoiceResults {
    /// Holds `voices`, in their order, to be handed out.
    pub fn new(voices: Vec<VoiceInfo>) -> (results: Self)
        ensures
            results@ == voices@,
    {
        DurableVoiceResults { voices }
    }

    /// Whether any voice is still to be handed out.
    pub fn has_more(&self) -> (more: bool)
        ensures
            more == (self@.len() > 0),
    {
        !self.voices.is_empty()
    }

    /// Hands out every voice still held, in order; none is held afterwards.
    pub fn get_next(&mut self) -> (page: Result<Vec<VoiceInfo>, TtsError>)
        ensures
            page matches Ok(v) && v@ == old(self)@,
            final(self)@ == Seq::<VoiceInfo>::empty(),
    {
        let mut page: Vec<VoiceInfo> = Vec::new();
        std::mem::swap(&mut page, &mut self.voices);
        Ok(page)
    }

    /// The number of voices still held, as a `u32` (taken modulo 2^32).
    pub fn get_total_count(&self) -> (count: Option<u32>)
        ensures
            count == Some(count_as_u32(self@.len())),
            count is Some,
            count->0 as int == self@.len() % 0x1_0000_0000,
            self@.len() < 0x1_0000_0000 ==> count == Some(self@.len() as u32),
    {
        let len: usize = self.voices.len();
        assert(((len as u64) as u32) == (len as u64) % 0x1_0000_0000u64) by (bit_vector);
        assert((len as u32) == ((len as u64) as u32)) by (bit_vector);
        Some(len as u32)
    }
}

/// Voices remain to be handed out exactly when the reported count is not
/// zero, for fewer than 2^32 voices (at 2^32 the count wraps to zero).
pub proof fn lemma_more_iff_nonzero_count(results: DurableVoiceResults)
    requires
        results@.len() < 0x1_0000_0000,
    ensures
        (results@.len() > 0) <==> count_as_u32(results@.len()) != 0,
{
}

/// The reported count is the number of voices held, for fewer than 2^32
/// voices, and otherwise that number modulo 2^32.
pub proof fn lemma_count_is_number_held(len: nat)
    ensures
        count_as_u32(len) as int == len % 0x1_0000_0000,
        len < 0x1_0000_0000 ==> count_as_u32(len) as nat == len,
{
}

} // verus!
