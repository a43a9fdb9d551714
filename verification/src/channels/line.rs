//! Line messaging: configuration, webhook signature verification and conversion of
//! webhook events.

use vstd::prelude::*;
use vstd::utf8::*;

use crate::channels::encoding::{b64_standard_encode, b64_standard_encoding, hmac_sha256, hmac_sha256_of};
use crate::channels::IncomingMessage;
use crate::text::str_eq;

verus! {

/// Line connection configuration.
#[derive(Debug, Clone)]
pub struct LineConfig {
    /// Line channel access token
    pub channel_access_token: String,
    /// Line channel secret (for webhook signature verification)
    pub channel_secret: String,
    /// Port for the inbound webhook HTTP server
    pub webhook_port: u16,
}

/// A webhook signature is valid when it is the base64 (standard, padded) encoding of
/// the HMAC-SHA256 of the raw body under the channel secret.
pub open spec fn signature_valid(secret: Seq<char>, body: Seq<u8>, signature: Seq<char>) -> bool {
    b64_standard_encoding(hmac_sha256_of(encode_utf8(secret), body)) == signature
}

/// Verify a Line webhook signature.
pub fn verify_signature(channel_secret: &str, body: &[u8], signature: &str) -> (b: bool)
    ensures
        b == signature_valid(channel_secret@, body@, signature@),
{
    let key = channel_secret.as_bytes();
    let tag = match hmac_sha256(key, body) {
        Some(t) => t,
        None => {
            return false;
        },
    };
    let expected = b64_standard_encode(tag.as_slice());
    str_eq(expected.as_str(), signature)
}

/// Top-level webhook request body.
#[derive(Debug, Clone)]
pub struct LineWebhookBody {
    /// Array of webhook events
    pub events: Vec<LineEvent>,
}

/// A single Line webhook event.
#[derive(Debug, Clone)]
pub struct LineEvent {
    /// Event type (e.g. "message", "follow", "unfollow")
    pub event_type: String,
    /// Reply token for responding to this event
    pub reply_token: Option<String>,
    /// Source of the event
    pub source: Option<LineSource>,
    /// Message payload (present when `event_type` is "message")
    pub message: Option<LineMessage>,
}

/// Source of a Line event.
#[derive(Debug, Clone)]
pub struct LineSource {
    /// Source type ("user", "group", "room")
    pub source_type: String,
    /// User ID
    pub user_id: Option<String>,
}

/// Line message payload.
#[derive(Debug, Clone)]
pub struct LineMessage {
    /// Message type ("text", "image", "video", etc.)
    pub message_type: String,
    /// Message ID
    pub id: String,
    /// Text content (present when `message_type` is "text")
    pub text: Option<String>,
}

/// The webhook event carries a text message: a "message" event whose message is
/// of type "text" and has text.
pub open spec fn is_text_event(e: LineEvent) -> bool {
    &&& e.event_type@ == "message"@
    &&& e.message matches Some(m)
    &&& m.message_type@ == "text"@
    &&& m.text is Some
}

/// The sender of an event: the source's user id, or empty.
pub open spec fn event_sender(e: LineEvent) -> Seq<char> {
    match e.source {
        Some(s) => match s.user_id {
            Some(u) => u@,
            None => Seq::empty(),
        },
        None => Seq::empty(),
    }
}

/// The incoming message a text event becomes: direct, from its sender, replying
/// with the event's reply token.
pub open spec fn event_message(e: LineEvent, m: IncomingMessage) -> bool {
    &&& m.id@ == e.message->0.id@
    &&& m.channel_id@ == event_sender(e)
    &&& m.sender_id@ == event_sender(e)
    &&& m.sender_name@ == event_sender(e)
    &&& m.content@ == e.message->0.text->0@
    &&& m.is_dm
    &&& m.reply_to == e.reply_token
    &&& m.attachments@.len() == 0
    &&& m.thread_id is None
    &&& m.callback_data is None
}

/// Convert one webhook event; only text message events produce a message.
pub fn line_event_to_incoming(event: &LineEvent) -> (r: Option<IncomingMessage>)
    ensures
        r is Some <==> is_text_event(*event),
        r matches Some(m) ==> event_message(*event, m),
{
    proof {
        reveal_strlit("message");
        reveal_strlit("text");
    }
    if !str_eq(event.event_type.as_str(), "message") {
        return None;
    }
    let message = match &event.message {
        Some(m) => m,
        None => {
            return None;
        },
    };
    if !str_eq(message.message_type.as_str(), "text") {
        return None;
    }
    let text = match &message.text {
        Some(t) => t.clone(),
        None => {
            return None;
        },
    };
    let sender_id = match &event.source {
        Some(s) => match &s.user_id {
            Some(u) => u.clone(),
            None => String::new(),
        },
        None => String::new(),
    };
    Some(IncomingMessage {
        id: message.id.clone(),
        channel_id: sender_id.clone(),
        sender_id: sender_id.clone(),
        sender_name: sender_id,
        content: text,
        is_dm: true,
        reply_to: event.reply_token.clone(),
        attachments: Vec::new(),
        thread_id: None,
        callback_data: None,
    })
}

/// Convert all webhook events, keeping the text message events in order.
pub fn line_events_to_incoming(events: &Vec<LineEvent>) -> (r: Vec<IncomingMessage>)
    ensures
        r@.len() == events@.filter(|e: LineEvent| is_text_event(e)).len(),
        forall|i: int| 0 <= i < r@.len() ==> event_message(
            events@.filter(|e: LineEvent| is_text_event(e))[i],
            #[trigger] r@[i],
        ),
{
    let ghost pred = |e: LineEvent| is_text_event(e);
    let mut out: Vec<IncomingMessage> = Vec::new();
    let mut i: usize = 0;
    while i < events.len()
        invariant
            i <= events@.len(),
            pred == (|e: LineEvent| is_text_event(e)),
            out@.len() == events@.subrange(0, i as int).filter(pred).len(),
            forall|k: int| 0 <= k < out@.len() ==> event_message(
                events@.subrange(0, i as int).filter(pred)[k],
                #[trigger] out@[k],
            ),
        decreases events@.len() - i,
    {
        proof {
            assert(events@.subrange(0, i + 1) =~= events@.subrange(0, i as int).push(events@[i as int]));
            events@.subrange(0, i as int).lemma_filter_push(events@[i as int], pred);
        }
        match line_event_to_incoming(&events[i]) {
            Some(m) => {
                out.push(m);
            },
            None => {},
        }
        i = i + 1;
    }
    proof {
        assert(events@.subrange(0, events@.len() as int) =~= events@);
    }
    out
}

} // verus!
