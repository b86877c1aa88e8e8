//! What the embedding application sees: popping raw intents, and popping an
//! intent together with the text extracted from it.

use crate::extract::{
    extract_android_intent_extra, extract_ios_shared_url, intent_extra, shared_url,
    TEXT_INTENT_KEY,
};
use crate::queue::{pop_intent, pop_step, text_of, IntentQueue};
use crate::scheme::{after_set, accepts_set, SchemeCell};
use vstd::prelude::*;

verus! {

/// The mobile operating system that delivers intents, which fixes how text
/// is extracted from them.
#[derive(Debug, Clone, Copy, PartialEq, Eq, Structural)]
pub enum MobilePlatform {
    /// Intents are Android intent strings carrying the text as a string extra.
    Android,
    /// Intents are share links `<scheme>://share?url=<url>`.
    Ios,
}

/// Why popping an intent and extracting its text failed.
#[derive(Debug)]
pub enum ExtractError {
    /// On iOS, an intent is waiting but the deep-link scheme was not set;
    /// no intent was taken.
    SchemeNotSet,
    /// On iOS, the intent taken does not begin with
    /// `<scheme>://share?url=`; the raw intent is handed back.
    MalformedShareLink(String),
}

/// The text that `platform` extracts from the raw intent `raw`; `None`
/// where an iOS share link lacks its prefix.
pub open spec fn raw_text(raw: Seq<char>, platform: MobilePlatform, scheme: Seq<char>) -> Option<
    Option<Seq<char>>,
> {
    match platform {
        MobilePlatform::Android => Some(intent_extra(raw, TEXT_INTENT_KEY@)),
        MobilePlatform::Ios => match shared_url(raw, scheme) {
            Some(url) => Some(Some(url)),
            None => None,
        },
    }
}

/// Whether extraction on `platform` must wait for a scheme that `scheme`
/// does not hold yet.
pub open spec fn lacks_scheme(platform: MobilePlatform, scheme: Option<Seq<char>>) -> bool {
    platform == MobilePlatform::Ios && scheme is None
}

/// What popping from a queue holding `items` and extracting the text
/// returns, seen through the views of its parts.
pub open spec fn extract_result_matches(
    r: Result<Option<String>, ExtractError>,
    items: Seq<Seq<char>>,
    platform: MobilePlatform,
    scheme: Option<Seq<char>>,
) -> bool {
    if items.len() == 0 {
        r matches Ok(None)
    } else if lacks_scheme(platform, scheme) {
        r matches Err(ExtractError::SchemeNotSet)
    } else {
        match raw_text(items[0], platform, scheme->0) {
            Some(t) => r is Ok && text_of(r->Ok_0) == t,
            None => match r {
                Err(ExtractError::MalformedShareLink(raw)) => raw@ == items[0],
                _ => false,
            },
        }
    }
}

/// Takes the oldest pending intent and extracts its text as `platform`
/// encodes it. An empty queue gives `Ok(None)`. On Android the intent gives
/// the value of its `android.intent.extra.TEXT` string extra, if any. On
/// iOS it gives the URL of its share link; an intent that is no share link
/// under the configured scheme is an error. On iOS, a scheme that was never
/// set is an error only while an intent is waiting, and that intent stays
/// in the queue.
pub fn pop_and_extract_text_intent(
    queue: &mut IntentQueue,
    platform: MobilePlatform,
    scheme: &SchemeCell,
) -> (r: Result<Option<String>, ExtractError>)
    ensures
        extract_result_matches(r, old(queue)@, platform, scheme@),
        lacks_scheme(platform, scheme@) ==> final(queue)@ == old(queue)@,
        !lacks_scheme(platform, scheme@) ==> final(queue)@ == pop_step(old(queue)@).1,
{
    match platform {
        MobilePlatform::Android => match pop_intent(queue) {
            Some(raw) => Ok(extract_android_intent_extra(raw.as_str(), TEXT_INTENT_KEY)),
            None => Ok(None),
        },
        MobilePlatform::Ios => {
            if queue.is_empty() {
                return Ok(None);
            }
            let s = match scheme.get() {
                Some(s) => s,
                None => return Err(ExtractError::SchemeNotSet),
            };
            match pop_intent(queue) {
                Some(raw) => match extract_ios_shared_url(raw.as_str(), s.as_str()) {
                    Some(url) => Ok(Some(url)),
                    None => Err(ExtractError::MalformedShareLink(raw)),
                },
                None => Ok(None),
            }
        },
    }
}

/// The share-target plugin's state: the pending intents, the platform that
/// delivers them (`None` on desktop, where no intent ever arrives) and the
/// deep-link scheme.
pub struct MobileSharetarget {
    queue: IntentQueue,
    platform: Option<MobilePlatform>,
    scheme: SchemeCell,
}

impl MobileSharetarget {
    /// The intents waiting to be taken, oldest first.
    pub closed spec fn pending(&self) -> Seq<Seq<char>> {
        self.queue@
    }

    /// The platform, or `None` on desktop.
    pub closed spec fn platform_of(&self) -> Option<MobilePlatform> {
        self.platform
    }

    /// The deep-link scheme, once set.
    pub closed spec fn scheme_of(&self) -> Option<Seq<char>> {
        self.scheme@
    }

    /// The plugin on `platform` (`None` for desktop), with no pending intent
    /// and no scheme set.
    pub fn new(platform: Option<MobilePlatform>) -> (p: MobileSharetarget)
        ensures
            p.pending() == Seq::<Seq<char>>::empty(),
            p.platform_of() == platform,
            p.scheme_of() is None,
    {
        MobileSharetarget { queue: IntentQueue::new(), platform, scheme: SchemeCell::new() }
    }

    /// Queues a raw intent delivered by the operating system.
    pub fn push_intent(&mut self, raw_intent: String)
        ensures
            final(self).pending() == old(self).pending().push(raw_intent@),
            final(self).platform_of() == old(self).platform_of(),
            final(self).scheme_of() == old(self).scheme_of(),
    {
        self.queue.push(raw_intent);
    }

    /// Sets the deep-link scheme; only the first call succeeds, a later one
    /// hands its value back.
    pub fn set_deep_link_scheme(&mut self, scheme: String) -> (r: Result<(), String>)
        ensures
            r is Ok <==> accepts_set(old(self).scheme_of()),
            r is Err ==> r->Err_0@ == scheme@,
            final(self).scheme_of() == after_set(old(self).scheme_of(), scheme@),
            final(self).pending() == old(self).pending(),
            final(self).platform_of() == old(self).platform_of(),
    {
        self.scheme.set(scheme)
    }

    /// Takes the oldest pending raw intent. On desktop there is none to take.
    pub fn get_latest_intent(&mut self) -> (r: Option<String>)
        ensures
            old(self).platform_of() is None ==> r is None && final(self).pending() == old(
                self,
            ).pending(),
            old(self).platform_of() is Some ==> text_of(r) == pop_step(old(self).pending()).0
                && final(self).pending() == pop_step(old(self).pending()).1,
            final(self).platform_of() == old(self).platform_of(),
            final(self).scheme_of() == old(self).scheme_of(),
    {
        if self.platform.is_none() {
            return None;
        }
        pop_intent(&mut self.queue)
    }

    /// Takes the oldest pending intent and extracts its text, as
    /// `pop_and_extract_text_intent` does. On desktop there is none to take.
    pub fn get_latest_intent_and_extract_text(&mut self) -> (r: Result<
        Option<String>,
        ExtractError,
    >)
        ensures
            old(self).platform_of() is None ==> (r matches Ok(None)),
            old(self).platform_of() is None ==> final(self).pending() == old(self).pending(),
            old(self).platform_of() is Some ==> extract_result_matches(
                r,
                old(self).pending(),
                old(self).platform_of()->0,
                old(self).scheme_of(),
            ),
            old(self).platform_of() is Some && lacks_scheme(
                old(self).platform_of()->0,
                old(self).scheme_of(),
            ) ==> final(self).pending() == old(self).pending(),
            old(self).platform_of() is Some && !lacks_scheme(
                old(self).platform_of()->0,
                old(self).scheme_of(),
            ) ==> final(self).pending() == pop_step(old(self).pending()).1,
            final(self).platform_of() == old(self).platform_of(),
            final(self).scheme_of() == old(self).scheme_of(),
    {
        match self.platform {
            None => Ok(None),
            Some(p) => pop_and_extract_text_intent(&mut self.queue, p, &self.scheme),
        }
    }
}

/// A pending "open with" intent, as the native side reports it.
#[derive(Debug, Clone, Default)]
pub struct CheckPendingIntentResponse {
    pub action: String,
    pub uri: Option<String>,
    pub text: Option<String>,
    pub mime_type: Option<String>,
}

/// The "open with PDF" plugin on desktop, where no such intent arrives.
pub struct GetPdf {}

impl GetPdf {
    /// The plugin on desktop.
    pub fn new() -> (g: GetPdf) {
        GetPdf {  }
    }

    /// The pending "open with" intent: on desktop there never is one.
    pub fn check_pending_intent(&self) -> (r: Option<CheckPendingIntentResponse>)
        ensures
            r is None,
    {
        None
    }
}

} // verus!
