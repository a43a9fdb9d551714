//! Media helpers: MIME-type mapping and the ordered-fallback protocol that the
//! speech-to-text and vision routers follow.

use vstd::prelude::*;

use crate::error::BeaconError;
use crate::text::{all_ascii, ascii_lowercase, str_eq, to_lowercase, unicode_lowercase};

verus! {

/// File extension used for an audio MIME type (exact match; "mp3" otherwise).
pub open spec fn audio_extension(mime: Seq<char>) -> Seq<char> {
    if mime == "audio/mp4"@ || mime == "audio/m4a"@ {
        "m4a"@
    } else if mime == "audio/wav"@ || mime == "audio/wave"@ || mime == "audio/x-wav"@ {
        "wav"@
    } else if mime == "audio/webm"@ {
        "webm"@
    } else if mime == "audio/ogg"@ || mime == "audio/opus"@ {
        "ogg"@
    } else if mime == "audio/flac"@ {
        "flac"@
    } else {
        "mp3"@
    }
}

/// Get file extension for an audio MIME type.
pub fn extension_for_mime(mime_type: &str) -> (r: &'static str)
    ensures
        r@ == audio_extension(mime_type@),
{
    if str_eq(mime_type, "audio/mp4") || str_eq(mime_type, "audio/m4a") {
        "m4a"
    } else if str_eq(mime_type, "audio/wav") || str_eq(mime_type, "audio/wave") || str_eq(
        mime_type,
        "audio/x-wav",
    ) {
        "wav"
    } else if str_eq(mime_type, "audio/webm") {
        "webm"
    } else if str_eq(mime_type, "audio/ogg") || str_eq(mime_type, "audio/opus") {
        "ogg"
    } else if str_eq(mime_type, "audio/flac") {
        "flac"
    } else {
        "mp3"
    }
}

/// MIME type sent to vision APIs for an image MIME type (compared lowercased):
/// png, gif and webp are kept, everything else is sent as jpeg.
pub open spec fn vision_mime(mime: Seq<char>) -> Seq<char> {
    vision_mime_of_lower(unicode_lowercase(mime))
}

/// The vision MIME type for an already lowercased MIME type.
pub open spec fn vision_mime_of_lower(lower: Seq<char>) -> Seq<char> {
    if lower == "image/png"@ {
        "image/png"@
    } else if lower == "image/gif"@ {
        "image/gif"@
    } else if lower == "image/webp"@ {
        "image/webp"@
    } else {
        "image/jpeg"@
    }
}

/// Normalize MIME type for vision APIs.
pub fn normalize_mime_type(mime_type: &str) -> (r: &'static str)
    ensures
        r@ == vision_mime(mime_type@),
        all_ascii(mime_type@) ==> r@ == vision_mime_of_lower(ascii_lowercase(mime_type@)),
{
    let lower = to_lowercase(mime_type);
    if str_eq(lower.as_str(), "image/png") {
        "image/png"
    } else if str_eq(lower.as_str(), "image/gif") {
        "image/gif"
    } else if str_eq(lower.as_str(), "image/webp") {
        "image/webp"
    } else {
        "image/jpeg"
    }
}

/// What an ordered fallback over providers answers, given the results of the
/// providers tried: the first success; otherwise the last failure; or, with no
/// provider at all, a media error with the given message.
pub open spec fn fallback_answer(
    attempts: Seq<Result<String, BeaconError>>,
    none_msg: Seq<char>,
    r: Result<String, BeaconError>,
) -> bool {
    if attempts.len() > 0 {
        r == attempts.last()
    } else {
        r matches Err(BeaconError::Media(m)) && m@ == none_msg
    }
}

/// Progress of one request through providers tried in order until one succeeds.
pub struct FallbackRun {
    total: usize,
    tried: usize,
    answer: Option<String>,
    last_error: Option<BeaconError>,
    none_msg: String,
    attempts: Ghost<Seq<Result<String, BeaconError>>>,
}

impl FallbackRun {
    /// The results recorded so far, in provider order.
    pub closed spec fn attempts(&self) -> Seq<Result<String, BeaconError>> {
        self.attempts@
    }

    /// Number of providers configured.
    pub closed spec fn total(&self) -> nat {
        self.total as nat
    }

    /// Message of the error reported when no provider is configured.
    pub closed spec fn none_msg(&self) -> Seq<char> {
        self.none_msg@
    }

    /// Internal consistency: every attempt but the last failed, and the cached
    /// answer and error are those of the last attempt.
    pub closed spec fn wf(&self) -> bool {
        &&& self.tried == self.attempts@.len()
        &&& self.tried <= self.total
        &&& forall|i: int| 0 <= i < self.attempts@.len() - 1 ==> (#[trigger] self.attempts@[i]) is Err
        &&& (self.answer is Some <==> (self.attempts@.len() > 0 && self.attempts@.last() is Ok))
        &&& (self.answer matches Some(a) ==> self.attempts@.last() == Ok::<String, BeaconError>(a))
        &&& (self.attempts@.len() > 0 && self.attempts@.last() is Err ==> self.last_error
            == Some(self.attempts@.last()->Err_0))
        &&& (self.attempts@.len() == 0 ==> self.last_error is None)
    }

    /// Start a request over `total` providers.
    pub fn start(total: usize, none_msg: &str) -> (r: Self)
        ensures
            r.wf(),
            r.total() == total,
            r.attempts().len() == 0,
            r.none_msg() == none_msg@,
    {
        FallbackRun {
            total,
            tried: 0,
            answer: None,
            last_error: None,
            none_msg: String::from_str(none_msg),
            attempts: Ghost(Seq::empty()),
        }
    }

    /// The provider to try next: the one after those tried, unless one succeeded or
    /// all were tried.
    pub fn next_provider(&self) -> (r: Option<usize>)
        requires
            self.wf(),
        ensures
            r == (if (self.attempts().len() > 0 && self.attempts().last() is Ok)
                || self.attempts().len() >= self.total() {
                None::<usize>
            } else {
                Some(self.attempts().len() as usize)
            }),
    {
        if self.answer.is_some() || self.tried >= self.total {
            None
        } else {
            Some(self.tried)
        }
    }

    /// Record the result of the provider just tried.
    pub fn record(&mut self, result: Result<String, BeaconError>)
        requires
            old(self).wf(),
            old(self).attempts().len() < old(self).total(),
            !(old(self).attempts().len() > 0 && old(self).attempts().last() is Ok),
        ensures
            final(self).wf(),
            final(self).total() == old(self).total(),
            final(self).none_msg() == old(self).none_msg(),
            final(self).attempts() == old(self).attempts().push(result),
    {
        let ghost r = result;
        match result {
            Ok(text) => {
                self.answer = Some(text);
            },
            Err(e) => {
                self.last_error = Some(e);
            },
        }
        self.tried = self.tried + 1;
        self.attempts = Ghost(self.attempts@.push(r));
    }

    /// The request's answer once no provider is left to try.
    pub fn finish(self) -> (r: Result<String, BeaconError>)
        requires
            self.wf(),
            (self.attempts().len() > 0 && self.attempts().last() is Ok) || self.attempts().len() >= self.total(),
        ensures
            fallback_answer(self.attempts(), self.none_msg(), r),
    {
        match self.answer {
            Some(a) => Ok(a),
            None => match self.last_error {
                Some(e) => Err(e),
                None => Err(BeaconError::Media(self.none_msg)),
            },
        }
    }
}

/// Providers are tried in order: provider `i` is tried only after providers
/// `0..i` have all failed, and the answer is the first success.
pub proof fn fallback_stops_at_first_success(run: FallbackRun)
    requires
        run.wf(),
    ensures
        forall|i: int| 0 <= i < run.attempts().len() - 1 ==> (#[trigger] run.attempts()[i]) is Err,
        forall|r: Result<String, BeaconError>| #[trigger] fallback_answer(run.attempts(), run.none_msg(), r)
            && run.attempts().len() > 0 && run.attempts().last() is Ok ==> r == run.attempts().last()
            && r is Ok,
{
}

} // verus!
