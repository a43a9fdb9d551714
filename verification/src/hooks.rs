//! Hook system for message lifecycle events: configuration, event-pattern matching
//! and the manager's enabled state.

use vstd::prelude::*;

use crate::text::{
    chars_of, has_prefix, join_path, path_joined, seq_ends_with, seq_starts_with, str_eq,
};

verus! {

/// An auto-reply rule: messages matching the pattern get a canned reply.
#[derive(Debug, Clone)]
pub struct AutoReplyRule {
    /// Regex the message content must match
    pub pattern: String,
    /// Reply text
    pub reply: String,
    /// Channels the rule applies to (empty = all)
    pub channels: Vec<String>,
    /// Whether the agent is skipped after replying
    pub skip_agent: bool,
    /// Case-insensitive matching
    pub case_insensitive: bool,
}

/// Hook configuration.
#[derive(Debug, Clone)]
pub struct HooksConfig {
    /// Enable hook system
    pub enabled: bool,
    /// Custom hooks directory (default: `<data_dir>/hooks`)
    pub path: Option<String>,
    /// Auto-reply rules
    pub auto_reply: Vec<AutoReplyRule>,
}

impl Default for HooksConfig {
    fn default() -> (c: Self)
        ensures
            !c.enabled,
            c.path is None,
            c.auto_reply@.len() == 0,
    {
        HooksConfig { enabled: false, path: None, auto_reply: Vec::new() }
    }
}

/// Hooks are enabled unless configured otherwise.
pub fn default_true() -> (b: bool)
    ensures
        b,
{
    true
}

/// Whether an event name matches a hook's event pattern: `*` matches everything, a
/// pattern ending in `:*` matches every event starting with the pattern minus its
/// final `*`, and any other pattern matches only the identical event.
pub open spec fn event_matches(event: Seq<char>, pattern: Seq<char>) -> bool {
    if pattern == seq!['*'] {
        true
    } else if pattern.len() >= 2 && pattern.subrange(pattern.len() - 2, pattern.len() as int) == seq![':', '*'] {
        has_prefix(event, pattern.drop_last())
    } else {
        event == pattern
    }
}

/// Check whether an event string matches a pattern.
pub fn event_matches_pattern(event: &str, pattern: &str) -> (b: bool)
    ensures
        b == event_matches(event@, pattern@),
{
    proof {
        reveal_strlit("*");
        reveal_strlit(":*");
        assert("*"@ =~= seq!['*']);
        assert(":*"@ =~= seq![':', '*']);
    }
    if str_eq(pattern, "*") {
        return true;
    }
    let p = chars_of(pattern);
    let suffix = chars_of(":*");
    if seq_ends_with(&p, &suffix) {
        let mut prefix: Vec<char> = Vec::new();
        let mut i: usize = 0;
        let last = p.len() - 1;
        while i < last
            invariant
                p@.len() >= 2,
                last == p@.len() - 1,
                i <= last,
                prefix@ == p@.subrange(0, i as int),
            decreases last - i,
        {
            prefix.push(p[i]);
            proof {
                assert(prefix@ =~= p@.subrange(0, i + 1));
            }
            i = i + 1;
        }
        proof {
            assert(prefix@ =~= p@.drop_last());
        }
        let e = chars_of(event);
        return seq_starts_with(&e, &prefix);
    }
    str_eq(event, pattern)
}

/// Every event name, used as a pattern, matches itself.
pub proof fn event_pattern_reflexive(event: Seq<char>)
    ensures
        event_matches(event, event),
{
    if event.len() >= 2 && event.subrange(event.len() - 2, event.len() as int) == seq![':', '*'] {
        assert(event.subrange(0, event.drop_last().len() as int) =~= event.drop_last());
    }
}

/// The catch-all pattern matches every event, and a namespace wildcard never matches
/// an event outside its namespace.
pub proof fn event_pattern_wildcards(event: Seq<char>, namespace: Seq<char>)
    ensures
        event_matches(event, seq!['*']),
        event_matches(event, namespace + seq![':', '*']) <==> has_prefix(event, namespace + seq![':']),
{
    let p = namespace + seq![':', '*'];
    assert(p.subrange(p.len() - 2, p.len() as int) =~= seq![':', '*']);
    assert(p.drop_last() =~= namespace + seq![':']);
    if p == seq!['*'] {
        assert(p.len() == 1);
    }
}

/// Hook manager state: whether hooks run, the auto-reply rules in force and the
/// directory external hooks are discovered in.
#[derive(Debug)]
pub struct HookManager {
    enabled: bool,
    auto_reply: Vec<AutoReplyRule>,
    hooks_dir: Option<String>,
}

impl HookManager {
    /// Whether hooks run.
    pub closed spec fn spec_enabled(&self) -> bool {
        self.enabled
    }

    /// The auto-reply rules in force.
    pub closed spec fn rules(&self) -> Seq<AutoReplyRule> {
        self.auto_reply@
    }

    /// The directory external hooks are discovered in (none when disabled).
    pub closed spec fn dir(&self) -> Option<Seq<char>> {
        match self.hooks_dir {
            Some(d) => Some(d@),
            None => None,
        }
    }

    /// Create a new hook manager. A disabled configuration yields a manager with no
    /// rules and no hook directory; an enabled one keeps the configured rules and
    /// uses the configured path, or `<data_dir>/hooks`.
    pub fn new(config: &HooksConfig, data_dir: &str) -> (m: Self)
        ensures
            m.spec_enabled() == config.enabled,
            !config.enabled ==> m.rules().len() == 0 && m.dir() is None,
            config.enabled ==> rules_same(m.rules(), config.auto_reply@),
            config.enabled ==> m.dir() == Some(match config.path {
                Some(p) => p@,
                None => path_joined(data_dir@, "hooks"@),
            }),
    {
        if !config.enabled {
            return HookManager { enabled: false, auto_reply: Vec::new(), hooks_dir: None };
        }
        let dir = match &config.path {
            Some(p) => p.clone(),
            None => join_path(data_dir, "hooks"),
        };
        let rules = clone_rules(&config.auto_reply);
        HookManager { enabled: true, auto_reply: rules, hooks_dir: Some(dir) }
    }

    /// Check if hooks are enabled.
    pub fn is_enabled(&self) -> (b: bool)
        ensures
            b == self.spec_enabled(),
    {
        self.enabled
    }
}

/// Copy of a string, character for character.
pub fn copy_string(s: &String) -> (r: String)
    ensures
        r@ == s@,
{
    s.clone()
}

/// Copy of a list of strings.
pub fn copy_strings(v: &Vec<String>) -> (r: Vec<String>)
    ensures
        r@ == v@,
{
    let mut out: Vec<String> = Vec::new();
    let mut i: usize = 0;
    while i < v.len()
        invariant
            i <= v@.len(),
            out@ == v@.subrange(0, i as int),
        decreases v@.len() - i,
    {
        out.push(v[i].clone());
        proof {
            assert(out@ =~= v@.subrange(0, i + 1));
        }
        i = i + 1;
    }
    proof {
        assert(v@.subrange(0, v@.len() as int) =~= v@);
    }
    out
}

/// Two auto-reply rules say the same thing.
pub open spec fn rule_same(a: AutoReplyRule, b: AutoReplyRule) -> bool {
    &&& a.pattern@ == b.pattern@
    &&& a.reply@ == b.reply@
    &&& a.channels@ == b.channels@
    &&& a.skip_agent == b.skip_agent
    &&& a.case_insensitive == b.case_insensitive
}

/// Two lists of auto-reply rules say the same things in the same order.
pub open spec fn rules_same(a: Seq<AutoReplyRule>, b: Seq<AutoReplyRule>) -> bool {
    a.len() == b.len() && forall|i: int| 0 <= i < a.len() ==> rule_same(#[trigger] a[i], b[i])
}

/// Copy of a list of auto-reply rules.
fn clone_rules(v: &Vec<AutoReplyRule>) -> (r: Vec<AutoReplyRule>)
    ensures
        rules_same(r@, v@),
{
    let mut out: Vec<AutoReplyRule> = Vec::new();
    let mut i: usize = 0;
    while i < v.len()
        invariant
            i <= v@.len(),
            rules_same(out@, v@.subrange(0, i as int)),
        decreases v@.len() - i,
    {
        let r = &v[i];
        let c = AutoReplyRule {
            pattern: r.pattern.clone(),
            reply: r.reply.clone(),
            channels: copy_strings(&r.channels),
            skip_agent: r.skip_agent,
            case_insensitive: r.case_insensitive,
        };
        out.push(c);
        i = i + 1;
    }
    proof {
        assert(v@.subrange(0, v@.len() as int) =~= v@);
    }
    out
}

/// Outcome of running hooks for an event.
#[derive(Debug, Clone)]
pub struct HookResult {
    pub skip_processing: bool,
    pub skip_agent: bool,
    pub reply: Option<String>,
    pub modified_response: Option<String>,
    pub messages: Vec<String>,
}

/// Response body of the hook emission endpoint.
#[derive(Debug, Clone)]
pub struct EmitHookResponse {
    pub skip_processing: bool,
    pub skip_agent: bool,
    pub reply: Option<String>,
    pub modified_response: Option<String>,
    pub messages: Vec<String>,
}

impl EmitHookResponse {
    /// The response reporting a hook result, field for field.
    pub fn from_result(r: HookResult) -> (e: Self)
        ensures
            e.skip_processing == r.skip_processing,
            e.skip_agent == r.skip_agent,
            e.reply == r.reply,
            e.modified_response == r.modified_response,
            e.messages == r.messages,
    {
        EmitHookResponse {
            skip_processing: r.skip_processing,
            skip_agent: r.skip_agent,
            reply: r.reply,
            modified_response: r.modified_response,
            messages: r.messages,
        }
    }
}

} // verus!
