//! Routing rule definitions for message filtering.

use vstd::prelude::*;

use crate::pattern::{compile_regex, regex_compiles, regex_finds_match, regex_is_match};
use crate::text::str_eq;

verus! {

/// A routing rule evaluated against incoming messages.
#[derive(Debug, Clone)]
pub struct RoutingRule {
    /// Human-readable rule name
    pub name: String,
    /// Whether the rule is active
    pub enabled: bool,
    /// Conditions that must all match for the rule to fire
    pub match_on: MatchCondition,
    /// Action to take when the rule matches
    pub action: RoutingAction,
    /// Lower number = higher priority (evaluated first)
    pub priority: u32,
}

/// Rules are enabled unless configured otherwise.
pub fn default_enabled() -> (b: bool)
    ensures
        b,
{
    true
}

/// Priority a rule gets when none is configured.
pub fn default_priority() -> (p: u32)
    ensures
        p == 100,
{
    100
}

/// All conditions must match for the rule to fire.
#[derive(Debug, Clone)]
pub struct MatchCondition {
    /// Channel names (empty = all)
    pub channels: Vec<String>,
    /// Sender IDs (empty = all)
    pub senders: Vec<String>,
    /// Regex on content
    pub content_pattern: Option<String>,
    /// Only match DMs
    pub dm_only: Option<bool>,
    /// Only match group messages
    pub group_only: Option<bool>,
}

impl Default for MatchCondition {
    fn default() -> (r: Self)
        ensures
            r.channels@.len() == 0,
            r.senders@.len() == 0,
            r.content_pattern is None,
            r.dm_only is None,
            r.group_only is None,
    {
        MatchCondition {
            channels: Vec::new(),
            senders: Vec::new(),
            content_pattern: None,
            dm_only: None,
            group_only: None,
        }
    }
}

/// Some string of the list equals `s`.
pub open spec fn list_has(v: Seq<String>, s: Seq<char>) -> bool {
    exists|i: int| 0 <= i < v.len() && (#[trigger] v[i])@ == s
}

/// Whether some string of the list equals `s`.
pub fn list_contains(v: &Vec<String>, s: &str) -> (b: bool)
    ensures
        b == list_has(v@, s@),
{
    let mut i: usize = 0;
    while i < v.len()
        invariant
            i <= v@.len(),
            forall|k: int| 0 <= k < i ==> (#[trigger] v@[k])@ != s@,
        decreases v@.len() - i,
    {
        if str_eq(v[i].as_str(), s) {
            return true;
        }
        i = i + 1;
    }
    false
}

impl MatchCondition {
    /// The condition holds for a message: every configured filter accepts it. A content
    /// pattern that does not compile never matches.
    pub open spec fn accepts(
        &self,
        channel: Seq<char>,
        sender_id: Seq<char>,
        content: Seq<char>,
        is_dm: bool,
    ) -> bool {
        &&& (self.channels@.len() == 0 || list_has(self.channels@, channel))
        &&& (self.senders@.len() == 0 || list_has(self.senders@, sender_id))
        &&& match self.content_pattern {
            Some(p) => regex_compiles(p@) && regex_finds_match(p@, content),
            None => true,
        }
        &&& !(self.dm_only == Some(true) && !is_dm)
        &&& !(self.group_only == Some(true) && is_dm)
    }

    /// Check whether this condition matches the given message parameters.
    pub fn matches(&self, channel: &str, sender_id: &str, content: &str, is_dm: bool) -> (b: bool)
        ensures
            b == self.accepts(channel@, sender_id@, content@, is_dm),
    {
        if self.channels.len() != 0 && !list_contains(&self.channels, channel) {
            return false;
        }
        if self.senders.len() != 0 && !list_contains(&self.senders, sender_id) {
            return false;
        }
        match &self.content_pattern {
            Some(pattern) => match compile_regex(pattern.as_str()) {
                Ok(re) => {
                    if !regex_is_match(&re, content) {
                        return false;
                    }
                },
                Err(_) => {
                    return false;
                },
            },
            None => {},
        }
        if self.dm_only == Some(true) && !is_dm {
            return false;
        }
        if self.group_only == Some(true) && is_dm {
            return false;
        }
        true
    }
}

/// The channel filter is membership: a condition whose channel list names the
/// message's channel, at any position, decides exactly as the same condition with no
/// channel restriction; a condition whose non-empty list does not name it rejects.
pub proof fn channel_filter_law(
    c: MatchCondition,
    unrestricted: MatchCondition,
    channel: Seq<char>,
    sender_id: Seq<char>,
    content: Seq<char>,
    is_dm: bool,
)
    requires
        unrestricted.channels@.len() == 0,
        unrestricted.senders@ == c.senders@,
        unrestricted.content_pattern == c.content_pattern,
        unrestricted.dm_only == c.dm_only,
        unrestricted.group_only == c.group_only,
    ensures
        (exists|i: int| 0 <= i < c.channels@.len() && (#[trigger] c.channels@[i])@ == channel) ==> (c.accepts(
            channel,
            sender_id,
            content,
            is_dm,
        ) == unrestricted.accepts(channel, sender_id, content, is_dm)),
        (c.channels@.len() > 0 && forall|i: int| 0 <= i < c.channels@.len() ==> (#[trigger] c.channels@[i])@ != channel)
            ==> !c.accepts(channel, sender_id, content, is_dm),
{
}

/// The other filters: a condition with no filters accepts every message; a sender list
/// that names the sender passes it and one that does not rejects; a DM-only condition
/// rejects group messages and a group-only one rejects DMs.
pub proof fn condition_filters_law(
    c: MatchCondition,
    channel: Seq<char>,
    sender_id: Seq<char>,
    content: Seq<char>,
    is_dm: bool,
)
    ensures
        (c.channels@.len() == 0 && c.senders@.len() == 0 && c.content_pattern is None && c.dm_only is None
            && c.group_only is None) ==> c.accepts(channel, sender_id, content, is_dm),
        (c.senders@.len() > 0 && forall|i: int| 0 <= i < c.senders@.len() ==> (#[trigger] c.senders@[i])@ != sender_id)
            ==> !c.accepts(channel, sender_id, content, is_dm),
        (exists|i: int| 0 <= i < c.senders@.len() && (#[trigger] c.senders@[i])@ == sender_id) && (c.channels@.len()
            == 0 || exists|i: int| 0 <= i < c.channels@.len() && (#[trigger] c.channels@[i])@ == channel)
            && c.content_pattern is None && c.dm_only is None && c.group_only is None ==> c.accepts(
            channel,
            sender_id,
            content,
            is_dm,
        ),
        (c.dm_only == Some(true) && !is_dm) ==> !c.accepts(channel, sender_id, content, is_dm),
        (c.group_only == Some(true) && is_dm) ==> !c.accepts(channel, sender_id, content, is_dm),
{
}

/// The order of a condition's channel and sender lists does not matter: two conditions
/// whose lists name the same entries, in whatever order, decide every message alike.
pub proof fn condition_order_law(
    c1: MatchCondition,
    c2: MatchCondition,
    channel: Seq<char>,
    sender_id: Seq<char>,
    content: Seq<char>,
    is_dm: bool,
)
    requires
        c1.channels@.len() == c2.channels@.len(),
        forall|i: int| 0 <= i < c1.channels@.len() ==> exists|j: int| 0 <= j < c2.channels@.len() && (#[trigger] c1.channels@[i])@ == (#[trigger] c2.channels@[j])@,
        forall|j: int| 0 <= j < c2.channels@.len() ==> exists|i: int| 0 <= i < c1.channels@.len() && (#[trigger] c1.channels@[i])@ == (#[trigger] c2.channels@[j])@,
        c1.senders@.len() == c2.senders@.len(),
        forall|i: int| 0 <= i < c1.senders@.len() ==> exists|j: int| 0 <= j < c2.senders@.len() && (#[trigger] c1.senders@[i])@ == (#[trigger] c2.senders@[j])@,
        forall|j: int| 0 <= j < c2.senders@.len() ==> exists|i: int| 0 <= i < c1.senders@.len() && (#[trigger] c1.senders@[i])@ == (#[trigger] c2.senders@[j])@,
        c1.content_pattern == c2.content_pattern,
        c1.dm_only == c2.dm_only,
        c1.group_only == c2.group_only,
    ensures
        c1.accepts(channel, sender_id, content, is_dm) == c2.accepts(channel, sender_id, content, is_dm),
{
    if list_has(c1.channels@, channel) {
        let i = choose|i: int| 0 <= i < c1.channels@.len() && (#[trigger] c1.channels@[i])@ == channel;
        let j = choose|j: int| 0 <= j < c2.channels@.len() && (#[trigger] c1.channels@[i])@ == (#[trigger] c2.channels@[j])@;
        assert(c2.channels@[j]@ == channel);
    }
    if list_has(c2.channels@, channel) {
        let j = choose|j: int| 0 <= j < c2.channels@.len() && (#[trigger] c2.channels@[j])@ == channel;
        let i = choose|i: int| 0 <= i < c1.channels@.len() && (#[trigger] c1.channels@[i])@ == (#[trigger] c2.channels@[j])@;
        assert(c1.channels@[i]@ == channel);
    }
    if list_has(c1.senders@, sender_id) {
        let i = choose|i: int| 0 <= i < c1.senders@.len() && (#[trigger] c1.senders@[i])@ == sender_id;
        let j = choose|j: int| 0 <= j < c2.senders@.len() && (#[trigger] c1.senders@[i])@ == (#[trigger] c2.senders@[j])@;
        assert(c2.senders@[j]@ == sender_id);
    }
    if list_has(c2.senders@, sender_id) {
        let j = choose|j: int| 0 <= j < c2.senders@.len() && (#[trigger] c2.senders@[j])@ == sender_id;
        let i = choose|i: int| 0 <= i < c1.senders@.len() && (#[trigger] c1.senders@[i])@ == (#[trigger] c2.senders@[j])@;
        assert(c1.senders@[i]@ == sender_id);
    }
}

/// Action to take when a routing rule matches.
#[derive(Debug, Clone)]
pub enum RoutingAction {
    /// Allow the message through (no-op)
    Allow,
    /// Silently deny the message
    Deny,
    /// Deny and send a reply to the sender
    DenyWithReply {
        /// Reply message to send
        message: String,
    },
    /// Redirect to a specific agent
    RedirectToAgent {
        /// Agent identifier
        agent_id: String,
    },
    /// Rate limit the sender
    RateLimit {
        /// Maximum messages per minute
        max_per_minute: u32,
    },
}

} // verus!
