//! Feishu (Lark): configuration, token-response checking and the decision of what a
//! webhook callback does.

use vstd::prelude::*;

use crate::channels::IncomingMessage;
use crate::error::BeaconError;
use crate::text::{concat, i64_to_string, signed_decimal, str_eq};

verus! {

/// Feishu bot connection configuration.
#[derive(Debug, Clone)]
pub struct FeishuConfig {
    /// Feishu app ID
    pub app_id: String,
    /// Feishu app secret
    pub app_secret: String,
    /// Verification token for webhook validation
    pub verification_token: String,
    /// Port for the inbound webhook HTTP server
    pub webhook_port: u16,
}

/// Feishu message content (nested JSON).
#[derive(Debug, Clone)]
pub struct FeishuTextContent {
    /// Message text
    pub text: String,
}

/// Check a tenant-access-token response: code 0 with a token yields the token;
/// a non-zero code or a missing token is a channel error.
pub fn check_token_response(code: i32, token: Option<String>) -> (r: Result<String, BeaconError>)
    ensures
        code != 0 ==> (r matches Err(BeaconError::Channel(m)) && m@ == "Feishu token request returned code "@ + signed_decimal(code as int)),
        code == 0 && token is None ==> (r matches Err(BeaconError::Channel(m)) && m@ == "Feishu token response missing token"@),
        code == 0 && token is Some ==> r == Ok::<String, BeaconError>(token->0),
{
    if code != 0 {
        let c = i64_to_string(code as i64);
        return Err(BeaconError::Channel(concat("Feishu token request returned code ", c.as_str())));
    }
    match token {
        Some(t) => Ok(t),
        None => Err(BeaconError::Channel(String::from_str("Feishu token response missing token"))),
    }
}

/// The message fields of a received message event (the content already parsed
/// from its nested JSON into `text`).
#[derive(Debug, Clone)]
pub struct FeishuMessageEvent {
    pub sender_open_id: Option<String>,
    pub text: Option<String>,
    pub chat_id: Option<String>,
    pub message_id: Option<String>,
}

/// The parts of a webhook callback the adapter reads.
#[derive(Debug, Clone)]
pub struct FeishuWebhook {
    /// URL verification challenge (present during setup)
    pub challenge: Option<String>,
    /// Event type from the header, if there is a header
    pub event_type: Option<String>,
    /// The event body, if any
    pub event: Option<FeishuMessageEvent>,
}

/// What a webhook callback does.
#[derive(Debug)]
pub enum FeishuWebhookAction {
    /// Answer the URL verification challenge
    Challenge(String),
    /// Acknowledge without forwarding anything
    Acknowledge,
    /// Forward a received message
    Forward(IncomingMessage),
}

/// An optional text, or the given default.
pub open spec fn or_default(o: Option<String>, d: Seq<char>) -> Seq<char> {
    match o {
        Some(s) => s@,
        None => d,
    }
}

/// The optional text, or the given default.
fn text_or(o: Option<String>, d: &str) -> (r: String)
    ensures
        r@ == or_default(o, d@),
{
    match o {
        Some(s) => s,
        None => String::from_str(d),
    }
}

/// Decide what a webhook callback does: a challenge is answered; a message-receive
/// event with a body is forwarded (group message; missing sender is "unknown", other
/// missing fields are empty); anything else is acknowledged.
pub fn decide_webhook(payload: FeishuWebhook) -> (a: FeishuWebhookAction)
    ensures
        payload.challenge is Some ==> a == FeishuWebhookAction::Challenge(payload.challenge->0),
        payload.challenge is None && (payload.event_type is None || payload.event_type->0@
            != "im.message.receive_v1"@ || payload.event is None) ==> a is Acknowledge,
        payload.challenge is None && payload.event_type is Some && payload.event_type->0@
            == "im.message.receive_v1"@ && payload.event is Some ==> (a matches FeishuWebhookAction::Forward(m)
            && m.id@ == or_default(payload.event->0.message_id, Seq::empty())
            && m.channel_id@ == or_default(payload.event->0.chat_id, Seq::empty())
            && m.sender_id@ == or_default(payload.event->0.sender_open_id, "unknown"@)
            && m.sender_name@ == m.sender_id@
            && m.content@ == or_default(payload.event->0.text, Seq::empty())
            && !m.is_dm && m.reply_to is None && m.attachments@.len() == 0 && m.thread_id is None
            && m.callback_data is None),
{
    if let Some(c) = payload.challenge {
        return FeishuWebhookAction::Challenge(c);
    }
    let event_type = match payload.event_type {
        Some(t) => t,
        None => {
            return FeishuWebhookAction::Acknowledge;
        },
    };
    if !str_eq(event_type.as_str(), "im.message.receive_v1") {
        return FeishuWebhookAction::Acknowledge;
    }
    let event = match payload.event {
        Some(e) => e,
        None => {
            return FeishuWebhookAction::Acknowledge;
        },
    };
    let sender = text_or(event.sender_open_id, "unknown");
    let msg = IncomingMessage {
        id: text_or(event.message_id, ""),
        channel_id: text_or(event.chat_id, ""),
        sender_id: sender.clone(),
        sender_name: sender,
        content: text_or(event.text, ""),
        is_dm: false,
        reply_to: None,
        attachments: Vec::new(),
        thread_id: None,
        callback_data: None,
    };
    proof {
        reveal_strlit("");
    }
    FeishuWebhookAction::Forward(msg)
}

} // verus!
