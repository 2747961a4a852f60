//! What the speech synthesizer is asked: the address for a voice.

use vstd::prelude::*;
use vstd::string::*;

verus! {

/// The address at which a voice turns text into speech.
pub open spec fn speech_url_text(voice_id: Seq<char>) -> Seq<char> {
    "https://api.elevenlabs.io/v1/text-to-speech/"@ + voice_id
}

/// Builds the address to send a reply to, to have it spoken by `voice_id`.
pub fn speech_url(voice_id: &str) -> (url: String)
    ensures
        url@ == speech_url_text(voice_id@),
{
    let mut url = String::from_str("https://api.elevenlabs.io/v1/text-to-speech/");
    url.append(voice_id);
    url
}

} // verus!
