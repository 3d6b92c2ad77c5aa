use vstd::prelude::*;
use vstd::string::StringExecFns;

use crate::channel::RelayChannel;
use crate::config::SeikaConfig;
use crate::config::SeikaConfigV;
use crate::event::ChatEventV;
use crate::numfmt::dec_rep;
use crate::numfmt::u16_to_dec;
use crate::speech::SpeechRequest;
use crate::speech::build_speech_request;
use crate::speech::talktext_of;

verus! {

/// The string `url::Url::join` yields when the second string is resolved as
/// a relative reference against the first as base, or `None` where the pair
/// does not resolve to a URL.
pub uninterp spec fn url_join(base: Seq<char>, rel: Seq<char>) -> Option<Seq<char>>;

/// Relies on `url::Url::parse`, `url::Url::join` and `url::Url::as_str`:
/// resolving a relative reference against an absolute base URL is a
/// function of the two strings alone.
#[verifier::external_body]
fn join_url(base: &str, rel: &str) -> (r: Option<String>)
    ensures
        match r {
            Some(s) => url_join(base@, rel@) == Some(s@),
            None => url_join(base@, rel@) is None,
        },
{
    match url::Url::parse(base) {
        Ok(u) => match u.join(rel) {
            Ok(j) => Some(j.as_str().to_string()),
            Err(_) => None,
        },
        Err(_) => None,
    }
}

/// The serialisation of a descriptor's endpoint:
/// `scheme://host:port` followed by the path.
pub open spec fn spec_base_url(c: SeikaConfigV) -> Seq<char> {
    c.scheme + "://"@ + c.host + ":"@ + dec_rep(c.port as nat) + c.path
}

/// Serialise the endpoint of a resolved descriptor, the base every request
/// URL is resolved against.
pub fn base_url_string(c: &SeikaConfig) -> (r: String)
    ensures
        r@ == spec_base_url(c@),
{
    let mut s = c.scheme.clone();
    s.append("://");
    s.append(c.host.as_str());
    s.append(":");
    let p = u16_to_dec(c.port);
    s.append(p.as_str());
    s.append(c.path.as_str());
    proof {
        assert(s@ =~= spec_base_url(c@));
    }
    s
}

/// The URL of the voice-enumeration endpoint for a descriptor.
pub open spec fn spec_voices_url(c: SeikaConfigV) -> Option<Seq<char>> {
    url_join(spec_base_url(c), "AVATOR2"@)
}

/// Build the URL the startup voice query is sent to.
pub fn voices_url(c: &SeikaConfig) -> (r: Option<String>)
    ensures
        match r {
            Some(s) => spec_voices_url(c@) == Some(s@),
            None => spec_voices_url(c@) is None,
        },
{
    let base = base_url_string(c);
    join_url(base.as_str(), "AVATOR2")
}

/// The URL of the asynchronous-playback endpoint for a descriptor and a
/// voice: the playback path joined with the voice identifier in decimal.
pub open spec fn spec_play_url(c: SeikaConfigV, voice: u16) -> Option<Seq<char>> {
    match url_join(spec_base_url(c), "PLAYASYNC2/"@) {
        Some(b) => url_join(b, dec_rep(voice as nat)),
        None => None,
    }
}

/// Build the URL a playback request for the given voice is posted to.
pub fn play_url(c: &SeikaConfig, voice: u16) -> (r: Option<String>)
    ensures
        match r {
            Some(s) => spec_play_url(c@, voice) == Some(s@),
            None => spec_play_url(c@, voice) is None,
        },
{
    let base = base_url_string(c);
    match join_url(base.as_str(), "PLAYASYNC2/") {
        Some(b) => {
            let cid = u16_to_dec(voice);
            join_url(b.as_str(), cid.as_str())
        },
        None => None,
    }
}

/// One actuation step the dispatch side owes the server: a POST of the
/// request body to the URL, with the descriptor's Basic credentials.
#[derive(Debug)]
pub struct DispatchAction {
    pub url: String,
    pub request: SpeechRequest,
}

/// What a dispatch action must look like for a given descriptor, voice and
/// event: the playback URL of the active voice, the event's formatted line,
/// and no effect or emotion parameters.
pub open spec fn action_for(a: DispatchAction, c: SeikaConfigV, voice: u16, e: ChatEventV) -> bool {
    &&& Some(a.url@) == spec_play_url(c, voice)
    &&& a.request.talktext@ == talktext_of(e)
    &&& a.request.effects is None
    &&& a.request.emotions is None
}

/// Build the actuation step for one chat event. Fails exactly where the
/// playback URL of the active voice does not resolve, which does not depend
/// on the event.
pub fn dispatch_event(c: &SeikaConfig, voice: u16, ev: &crate::event::ChatEvent) -> (r: Option<
    DispatchAction,
>)
    ensures
        r is Some <==> spec_play_url(c@, voice) is Some,
        r matches Some(a) ==> action_for(a, c@, voice, ev@),
{
    match play_url(c, voice) {
        Some(url) => Some(DispatchAction { url, request: build_speech_request(ev) }),
        None => None,
    }
}

/// Voice-selection determinism: any two actuation steps built for the same
/// descriptor and active voice are posted to the same URL, whatever chat
/// events they carry.
pub proof fn lemma_dispatch_targets_fixed_voice(
    a1: DispatchAction,
    a2: DispatchAction,
    c: SeikaConfigV,
    voice: u16,
    e1: ChatEventV,
    e2: ChatEventV,
)
    requires
        action_for(a1, c, voice, e1),
        action_for(a2, c, voice, e2),
    ensures
        a1.url@ == a2.url@,
{
}

/// Drain the relay queue into the sequence of actuation steps the dispatch
/// loop owes: one step per queued event, in exactly arrival order, every
/// step targeting the same active voice. Fails, with the queue untouched,
/// exactly where the playback URL does not resolve.
pub fn plan_dispatch(ch: &mut RelayChannel, c: &SeikaConfig, voice: u16) -> (r: Option<
    Vec<DispatchAction>,
>)
    requires
        old(ch).wf(),
    ensures
        final(ch).wf(),
        r is Some <==> spec_play_url(c@, voice) is Some,
        r matches Some(acts) ==> {
            &&& final(ch)@.len() == 0
            &&& acts@.len() == old(ch)@.len()
            &&& forall|i: int|
                0 <= i < acts@.len() ==> action_for(#[trigger] acts@[i], c@, voice, old(ch)@[i])
        },
        r is None ==> final(ch)@ == old(ch)@,
{
    let url = match play_url(c, voice) {
        Some(u) => u,
        None => {
            return None;
        },
    };
    let ghost evs = old(ch)@;
    let mut acts: Vec<DispatchAction> = Vec::new();
    while ch.len() > 0
        invariant
            ch.wf(),
            Some(url@) == spec_play_url(c@, voice),
            acts@.len() + ch@.len() == evs.len(),
            ch@ == evs.subrange(acts@.len() as int, evs.len() as int),
            forall|i: int|
                0 <= i < acts@.len() ==> action_for(#[trigger] acts@[i], c@, voice, evs[i]),
        decreases ch@.len(),
    {
        let ghost k = acts@.len() as int;
        match ch.dequeue() {
            Some(ev) => {
                proof {
                    assert(ev@ == evs[k]);
                    assert(ch@ =~= evs.subrange(k + 1, evs.len() as int));
                }
                acts.push(DispatchAction { url: url.clone(), request: build_speech_request(&ev) });
            },
            None => {
                proof {
                    assert(false);
                }
            },
        }
    }
    proof {
        assert(acts@.len() == evs.len());
    }
    Some(acts)
}

} // verus!
