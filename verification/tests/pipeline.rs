use twitch2seikasay::ChatEvent;
use twitch2seikasay::CatalogError;
use twitch2seikasay::RawSeikaConfig;
use twitch2seikasay::RelayChannel;
use twitch2seikasay::SeikaConfig;
use twitch2seikasay::VoiceCatalog;
use twitch2seikasay::base_url_string;
use twitch2seikasay::build_speech_request;
use twitch2seikasay::dispatch_event;
use twitch2seikasay::format_talktext;
use twitch2seikasay::plan_dispatch;
use twitch2seikasay::play_url;
use twitch2seikasay::seika_config_from;
use twitch2seikasay::u16_to_dec;
use twitch2seikasay::voices_url;

fn event(sender: &str, text: &str) -> ChatEvent {
    ChatEvent::new(sender.to_string(), text.to_string())
}

fn default_config() -> SeikaConfig {
    seika_config_from(RawSeikaConfig { url: None, username: None, password: None }).unwrap()
}

#[test]
fn capacity_enforcement_32_then_fail() {
    let mut ch = RelayChannel::new();
    for i in 0..32u32 {
        let r = ch.try_enqueue(event("bob", &format!("message {}", i)));
        assert!(r.is_ok());
    }
    assert_eq!(ch.len(), 32);
    let rejected = ch.try_enqueue(event("bob", "message 32"));
    let back = rejected.unwrap_err();
    assert_eq!(back.text, "message 32");
    assert_eq!(ch.len(), 32);
}

#[test]
fn channel_is_fifo() {
    let mut ch = RelayChannel::new();
    ch.try_enqueue(event("a", "1")).unwrap();
    ch.try_enqueue(event("b", "2")).unwrap();
    ch.try_enqueue(event("c", "3")).unwrap();
    assert_eq!(ch.dequeue().unwrap().sender, "a");
    assert_eq!(ch.dequeue().unwrap().sender, "b");
    assert_eq!(ch.dequeue().unwrap().sender, "c");
    assert!(ch.dequeue().is_none());
}

#[test]
fn message_formatting() {
    let s = format_talktext(&event("alice", "hello"));
    assert_eq!(s, "\u{ff1e} alice: hello");
}

#[test]
fn message_formatting_preserves_unicode() {
    let s = format_talktext(&event("\u{30dc}\u{30d6}", "\u{3053}\u{3093}\u{306b}\u{3061}\u{306f}!"));
    assert_eq!(s, "\u{ff1e} \u{30dc}\u{30d6}: \u{3053}\u{3093}\u{306b}\u{3061}\u{306f}!");
}

#[test]
fn message_formatting_with_empty_fields() {
    let s = format_talktext(&event("", ""));
    assert_eq!(s, "\u{ff1e} : ");
}

#[test]
fn speech_request_has_no_effects_or_emotions() {
    let r = build_speech_request(&event("alice", "hello"));
    assert_eq!(r.talktext, "\u{ff1e} alice: hello");
    assert!(r.effects.is_none());
    assert!(r.emotions.is_none());
}

#[test]
fn voice_selection_takes_first() {
    let cat = VoiceCatalog::from_ids(vec![3001, 3002]).unwrap();
    assert_eq!(cat.active(), 3001);
    assert_eq!(cat.active(), 3001);
    assert_eq!(cat.len(), 2);
    assert_eq!(cat.ids(), &vec![3001, 3002]);
}

#[test]
fn empty_catalog_is_fatal() {
    let r = VoiceCatalog::from_ids(vec![]);
    assert_eq!(r.unwrap_err(), CatalogError::EmptyCatalog);
}

#[test]
fn decimal_rendering() {
    assert_eq!(u16_to_dec(0), "0");
    assert_eq!(u16_to_dec(7), "7");
    assert_eq!(u16_to_dec(100), "100");
    assert_eq!(u16_to_dec(7180), "7180");
    assert_eq!(u16_to_dec(65535), "65535");
}

#[test]
fn request_urls_from_default_config() {
    let c = default_config();
    assert_eq!(base_url_string(&c), "http://localhost:7180/");
    assert_eq!(voices_url(&c).unwrap(), "http://localhost:7180/AVATOR2");
    assert_eq!(play_url(&c, 3001).unwrap(), "http://localhost:7180/PLAYASYNC2/3001");
}

#[test]
fn request_urls_resolve_against_configured_path() {
    let c = seika_config_from(RawSeikaConfig {
        url: Some("http://seika.local:1234/a/b".to_string()),
        username: None,
        password: None,
    })
    .unwrap();
    assert_eq!(base_url_string(&c), "http://seika.local:1234/a/b");
    assert_eq!(voices_url(&c).unwrap(), "http://seika.local:1234/a/AVATOR2");
    assert_eq!(play_url(&c, 1).unwrap(), "http://seika.local:1234/a/PLAYASYNC2/1");
}

#[test]
fn dispatch_event_targets_active_voice() {
    let c = default_config();
    let cat = VoiceCatalog::from_ids(vec![3001, 3002]).unwrap();
    let a = dispatch_event(&c, cat.active(), &event("alice", "hello")).unwrap();
    assert_eq!(a.url, "http://localhost:7180/PLAYASYNC2/3001");
    assert_eq!(a.request.talktext, "\u{ff1e} alice: hello");
    assert!(a.request.effects.is_none());
    assert!(a.request.emotions.is_none());
}

#[test]
fn end_to_end_scenario_two_events_in_order() {
    let c = default_config();
    let cat = VoiceCatalog::from_ids(vec![3001, 3002]).unwrap();
    let mut ch = RelayChannel::new();
    ch.try_enqueue(event("bob", "hi")).unwrap();
    ch.try_enqueue(event("bob", "bye")).unwrap();
    let acts = plan_dispatch(&mut ch, &c, cat.active()).unwrap();
    assert_eq!(acts.len(), 2);
    assert_eq!(acts[0].request.talktext, "\u{ff1e} bob: hi");
    assert_eq!(acts[1].request.talktext, "\u{ff1e} bob: bye");
    assert_eq!(acts[0].url, "http://localhost:7180/PLAYASYNC2/3001");
    assert_eq!(acts[1].url, "http://localhost:7180/PLAYASYNC2/3001");
    assert!(ch.is_empty());
}

#[test]
fn plan_dispatch_on_empty_channel_is_empty() {
    let c = default_config();
    let mut ch = RelayChannel::new();
    let acts = plan_dispatch(&mut ch, &c, 3001).unwrap();
    assert!(acts.is_empty());
}
