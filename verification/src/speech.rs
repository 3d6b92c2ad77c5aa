use vstd::prelude::*;
use vstd::string::StringExecFns;

use crate::event::ChatEvent;
use crate::event::ChatEventV;

verus! {

/// Playback effect parameters, each an IEEE 754 double carried as its bit
/// pattern (the library holds no floating-point values; the transport layer
/// converts when it serialises a request).
#[derive(Debug)]
pub struct SpeechEffects {
    pub speed: u64,
    pub volume: u64,
    pub pitch: u64,
    pub intonation: u64,
}

/// Emotion weights, each an IEEE 754 double carried as its bit pattern.
#[derive(Debug)]
pub struct SpeechEmotions {
    pub anger: u64,
    pub joy: u64,
    pub sadness: u64,
}

/// One playback request for the actuation server: the text to speak and
/// optional effect and emotion parameters. Current policy always leaves
/// both options absent; the shape carries them for future use.
#[derive(Debug)]
pub struct SpeechRequest {
    pub talktext: String,
    pub effects: Option<SpeechEffects>,
    pub emotions: Option<SpeechEmotions>,
}

/// The display string spoken for a chat event: the fixed arrow glyph, a
/// space, the sender, a separating colon and space, then the text, all
/// content preserved verbatim.
pub open spec fn talktext_of(e: ChatEventV) -> Seq<char> {
    "\u{ff1e} "@ + e.sender + ": "@ + e.text
}

/// Format the spoken line for one chat event.
pub fn format_talktext(ev: &ChatEvent) -> (r: String)
    ensures
        r@ == talktext_of(ev@),
{
    let mut s = "\u{ff1e} ".to_owned();
    s.append(ev.sender.as_str());
    s.append(": ");
    s.append(ev.text.as_str());
    proof {
        assert(s@ =~= talktext_of(ev@));
    }
    s
}

/// Build the playback request for one chat event: its formatted line, with
/// effects and emotions absent, as the current policy has it.
pub fn build_speech_request(ev: &ChatEvent) -> (r: SpeechRequest)
    ensures
        r.talktext@ == talktext_of(ev@),
        r.effects is None,
        r.emotions is None,
{
    SpeechRequest { talktext: format_talktext(ev), effects: None, emotions: None }
}

} // verus!
