//! Receiving "share" intents from a mobile operating system, queueing them,
//! and extracting the shared text from Android intent strings and iOS
//! deep-link URLs.

pub mod config;
pub mod extract;
pub mod plugin;
pub mod queue;
pub mod scheme;

pub use config::{extract_deep_link_scheme, ConfigValue, SchemeConfigError};
pub use extract::{
    extract_android_intent_extra, extract_ios_shared_url, lemma_extra_absent, lemma_extra_found,
    TEXT_INTENT_KEY,
};
pub use plugin::{
    pop_and_extract_text_intent, CheckPendingIntentResponse, ExtractError, GetPdf, MobilePlatform,
    MobileSharetarget,
};
pub use queue::{
    lemma_no_loss_no_duplication, lemma_pushes_then_pops, pop_intent, push_new_intent,
    IntentQueue, QueueOp,
};
pub use scheme::{lemma_scheme_set_once, SchemeCell};
