//! Channel adapters' message shaping: the incoming/outgoing message types and the
//! per-platform conversions, signatures and payload builders.

pub mod encoding;
pub mod feishu;
pub mod gmail;
pub mod irc;
pub mod line;
pub mod twilio;

use vstd::prelude::*;

verus! {

/// A file attached to a message.
#[derive(Debug, Clone)]
pub struct Attachment {
    /// MIME type of the file
    pub mime_type: String,
    /// Raw file contents
    pub data: Vec<u8>,
    /// Original file name, if known
    pub filename: Option<String>,
}

/// A message received from a channel.
#[derive(Debug, Clone)]
pub struct IncomingMessage {
    pub id: String,
    pub channel_id: String,
    pub sender_id: String,
    pub sender_name: String,
    pub content: String,
    pub is_dm: bool,
    pub reply_to: Option<String>,
    pub attachments: Vec<Attachment>,
    pub thread_id: Option<String>,
    pub callback_data: Option<String>,
}

/// A message to send on a channel.
#[derive(Debug, Clone)]
pub struct OutgoingMessage {
    pub channel_id: String,
    pub content: String,
    pub reply_to: Option<String>,
    pub thread_id: Option<String>,
}

} // verus!
