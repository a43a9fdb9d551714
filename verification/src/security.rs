//! Direct-message policy and response moderation decisions.

use vstd::prelude::*;

use crate::text::{char_is_whitespace, chars_of, is_white_space};

verus! {

/// Who may message the bot directly.
#[derive(Debug, Clone, Copy, PartialEq, Eq, Structural)]
pub enum DmPolicy {
    /// Anyone can message the bot
    Open,
    /// Unknown senders must pair first
    Pairing,
    /// Only allowlisted senders
    Allowlist,
}

/// Every character is whitespace (the text is empty once trimmed).
pub open spec fn blank(s: Seq<char>) -> bool {
    forall|i: int| 0 <= i < s.len() ==> is_white_space(#[trigger] s[i])
}

/// Whether a text is empty or whitespace only.
pub fn is_blank(s: &str) -> (b: bool)
    ensures
        b == blank(s@),
{
    let cs = chars_of(s);
    let mut i: usize = 0;
    while i < cs.len()
        invariant
            cs@ == s@,
            i <= cs@.len(),
            forall|k: int| 0 <= k < i ==> is_white_space(#[trigger] cs@[k]),
        decreases cs@.len() - i,
    {
        if !char_is_whitespace(cs[i]) {
            return false;
        }
        i = i + 1;
    }
    true
}

/// What a moderation check returned: a successful response with the parsed body's
/// `result.flagged` value (if it was a boolean), an unsuccessful status, or a
/// transport failure.
pub enum ModerationReply {
    Success { flagged: Option<bool> },
    Unsuccessful,
    TransportFailed,
}

/// Moderation fails open: content is flagged only when the service answered
/// successfully with `flagged = true`.
pub open spec fn moderation_flags(reply: ModerationReply) -> bool {
    reply matches ModerationReply::Success { flagged: Some(true) }
}

/// Whether a text needs to be sent to moderation at all (blank text never is).
pub fn needs_moderation(text: &str) -> (b: bool)
    ensures
        b == !blank(text@),
{
    !is_blank(text)
}

/// Decide whether content is flagged from the moderation service's reply.
pub fn is_flagged_reply(reply: &ModerationReply) -> (b: bool)
    ensures
        b == moderation_flags(*reply),
{
    match reply {
        ModerationReply::Success { flagged } => match flagged {
            Some(f) => *f,
            None => false,
        },
        _ => false,
    }
}

} // verus!
