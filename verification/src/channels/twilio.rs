//! Twilio SMS: configuration, inbound SMS conversion and outbound request shaping.

use vstd::prelude::*;

use crate::channels::IncomingMessage;
use crate::text::{concat3, string_from_chars};

verus! {

/// Twilio connection configuration.
#[derive(Debug, Clone)]
pub struct TwilioConfig {
    /// Twilio Account SID
    pub account_sid: String,
    /// Twilio Auth Token
    pub auth_token: String,
    /// Phone number to send from (E.164 format, e.g. "+1234567890")
    pub phone_number: String,
    /// Port for the inbound webhook HTTP server
    pub webhook_port: u16,
}

/// Form data Twilio sends to the webhook endpoint.
#[derive(Debug, Clone)]
pub struct TwilioIncomingSms {
    /// Sender phone number
    pub from: String,
    /// Recipient phone number
    pub to: String,
    /// Message body
    pub body: String,
    /// Twilio message SID
    pub message_sid: String,
}

impl TwilioIncomingSms {
    /// Convert to an `IncomingMessage`: the sender's number is the channel, sender id
    /// and name; SMS are direct messages without attachments or threads.
    pub fn into_incoming_message(self) -> (m: IncomingMessage)
        ensures
            m.id@ == self.message_sid@,
            m.channel_id@ == self.from@,
            m.sender_id@ == self.from@,
            m.sender_name@ == self.from@,
            m.content@ == self.body@,
            m.is_dm,
            m.reply_to is None,
            m.attachments@.len() == 0,
            m.thread_id is None,
            m.callback_data is None,
    {
        IncomingMessage {
            id: self.message_sid,
            channel_id: self.from.clone(),
            sender_id: self.from.clone(),
            sender_name: self.from,
            content: self.body,
            is_dm: true,
            reply_to: None,
            attachments: Vec::new(),
            thread_id: None,
            callback_data: None,
        }
    }
}

/// Build the form body for sending an SMS via the Twilio REST API:
/// `To`, `From` and `Body`, in that order.
pub fn build_sms_form_body(to: &str, from: &str, body: &str) -> (r: Vec<(String, String)>)
    ensures
        r@.len() == 3,
        r@[0].0@ == "To"@ && r@[0].1@ == to@,
        r@[1].0@ == "From"@ && r@[1].1@ == from@,
        r@[2].0@ == "Body"@ && r@[2].1@ == body@,
{
    let mut v: Vec<(String, String)> = Vec::new();
    v.push((String::from_str("To"), String::from_str(to)));
    v.push((String::from_str("From"), String::from_str(from)));
    v.push((String::from_str("Body"), String::from_str(body)));
    v
}

/// REST endpoint that validates the account's credentials.
pub fn account_url(account_sid: &str) -> (r: String)
    ensures
        r@ == "https://api.twilio.com/2010-04-01/Accounts/"@ + account_sid@ + ".json"@,
{
    concat3("https://api.twilio.com/2010-04-01/Accounts/", account_sid, ".json")
}

/// REST endpoint that sends messages from the account.
pub fn messages_url(account_sid: &str) -> (r: String)
    ensures
        r@ == "https://api.twilio.com/2010-04-01/Accounts/"@ + account_sid@ + "/Messages.json"@,
{
    concat3("https://api.twilio.com/2010-04-01/Accounts/", account_sid, "/Messages.json")
}

} // verus!
