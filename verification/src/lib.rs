use vstd::prelude::*;

mod channel;
mod config;
mod dispatch;
mod event;
mod numfmt;
mod speech;
mod voice;

pub use channel::RelayChannel;
pub use config::lemma_defaulting_non_destructive;
pub use config::lemma_defaulting_totality;
pub use config::lemma_resolution_idempotent;
pub use config::seika_config_from;
pub use config::spec_default_url_parts;
pub use config::spec_parts_of_raw;
pub use config::spec_resolve;
pub use config::spec_resolve_parts;
pub use config::url_parse;
pub use config::ConfigError;
pub use config::RawSeikaConfig;
pub use config::RawSeikaConfigV;
pub use config::SeikaConfig;
pub use config::SeikaConfigV;
pub use config::UrlParts;
pub use config::UrlPartsV;
pub use dispatch::action_for;
pub use dispatch::base_url_string;
pub use dispatch::dispatch_event;
pub use dispatch::lemma_dispatch_targets_fixed_voice;
pub use dispatch::plan_dispatch;
pub use dispatch::play_url;
pub use dispatch::spec_base_url;
pub use dispatch::spec_play_url;
pub use dispatch::spec_voices_url;
pub use dispatch::url_join;
pub use dispatch::voices_url;
pub use dispatch::DispatchAction;
pub use event::ChatEvent;
pub use event::ChatEventV;
pub use numfmt::dec_digit;
pub use numfmt::dec_rep;
pub use numfmt::u16_to_dec;
pub use speech::build_speech_request;
pub use speech::format_talktext;
pub use speech::talktext_of;
pub use speech::SpeechEffects;
pub use speech::SpeechEmotions;
pub use speech::SpeechRequest;
pub use voice::CatalogError;
pub use voice::VoiceCatalog;

verus! {

/// Number of chat events the relay queue can hold before an enqueue fails.
pub const RELAY_CAPACITY: usize = 32;

} // verus!
