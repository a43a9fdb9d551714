//! IRC: configuration and conversion of received PRIVMSG commands.

use vstd::prelude::*;

use crate::channels::IncomingMessage;
use crate::text::{chars_of};

verus! {

/// IRC connection configuration.
#[derive(Debug, Clone)]
pub struct IrcConfig {
    /// IRC server hostname
    pub server: String,
    /// IRC server port
    pub port: u16,
    /// Bot nickname
    pub nickname: String,
    /// Channels to join (e.g. `["#general", "#dev"]`)
    pub channels: Vec<String>,
    /// Use TLS for the connection
    pub use_tls: bool,
    /// Optional server password
    pub password: Option<String>,
}

/// A PRIVMSG target that does not start with `#` is a direct message.
pub open spec fn is_direct_target(target: Seq<char>) -> bool {
    !(target.len() > 0 && target[0] == '#')
}

/// Convert a received PRIVMSG into an incoming message: the target is the channel,
/// the sender's nickname (or "unknown") is the sender id and name.
pub fn privmsg_to_incoming(id: String, target: &str, text: &str, source_nick: Option<&str>) -> (m: IncomingMessage)
    ensures
        m.id@ == id@,
        m.channel_id@ == target@,
        m.sender_id@ == (match source_nick { Some(n) => n@, None => "unknown"@ }),
        m.sender_name@ == m.sender_id@,
        m.content@ == text@,
        m.is_dm == is_direct_target(target@),
        m.reply_to is None,
        m.attachments@.len() == 0,
        m.thread_id is None,
        m.callback_data is None,
{
    let nick = match source_nick {
        Some(n) => String::from_str(n),
        None => String::from_str("unknown"),
    };
    let t = chars_of(target);
    let is_dm = !(t.len() > 0 && t[0] == '#');
    IncomingMessage {
        id,
        channel_id: String::from_str(target),
        sender_id: nick.clone(),
        sender_name: nick,
        content: String::from_str(text),
        is_dm,
        reply_to: None,
        attachments: Vec::new(),
        thread_id: None,
        callback_data: None,
    }
}

} // verus!
