//! Agent binding router for channel-to-agent mapping.

use vstd::prelude::*;

use crate::agent::registry::AgentId;
use crate::text::{all_ascii, ascii_lowercase, str_eq, unicode_lowercase};

verus! {

/// Binding of a channel (and optionally an account) to a specific agent.
#[derive(Debug, Clone)]
pub struct AgentBinding {
    /// Channel name (e.g. "discord", "telegram", "web")
    pub channel: String,
    /// Optional channel-specific account ID
    pub account_id: Option<String>,
    /// Agent to route to
    pub agent_id: String,
}

/// The binding names the channel and exactly this account.
pub open spec fn binds_account(b: AgentBinding, channel: Seq<char>, account: Seq<char>) -> bool {
    b.channel@ == channel && (b.account_id matches Some(a) && a@ == account)
}

/// The binding names the channel without an account filter.
pub open spec fn binds_channel(b: AgentBinding, channel: Seq<char>) -> bool {
    b.channel@ == channel && b.account_id is None
}

/// `i` is the first binding satisfying `p`.
pub open spec fn first_with(v: Seq<AgentBinding>, p: spec_fn(AgentBinding) -> bool, i: int) -> bool {
    0 <= i < v.len() && p(v[i]) && forall|j: int| 0 <= j < i ==> !p(#[trigger] v[j])
}

/// The characters of an optional string slice.
pub open spec fn opt_view(o: Option<&str>) -> Option<Seq<char>> {
    match o {
        Some(a) => Some(a@),
        None => None,
    }
}

/// Predicate of an exact channel + account binding (none when no account is given).
pub open spec fn exact_pred(channel: Seq<char>, account: Option<Seq<char>>) -> spec_fn(AgentBinding) -> bool {
    |b: AgentBinding| account matches Some(a) && binds_account(b, channel, a)
}

/// Predicate of a channel-only binding.
pub open spec fn chan_pred(channel: Seq<char>) -> spec_fn(AgentBinding) -> bool {
    |b: AgentBinding| binds_channel(b, channel)
}

/// The agent a channel/account resolves to (before lowercasing): the first exact
/// channel+account binding, else the first channel-only binding, else the default.
pub open spec fn resolved_agent(
    v: Seq<AgentBinding>,
    default_agent: Seq<char>,
    channel: Seq<char>,
    account: Option<Seq<char>>,
) -> Seq<char> {
    let exact = exact_pred(channel, account);
    let chan = chan_pred(channel);
    if exists|i: int| first_with(v, exact, i) {
        v[choose|i: int| first_with(v, exact, i)].agent_id@
    } else if exists|i: int| first_with(v, chan, i) {
        v[choose|i: int| first_with(v, chan, i)].agent_id@
    } else {
        default_agent
    }
}

/// A first match is unique.
proof fn lemma_first_unique(v: Seq<AgentBinding>, p: spec_fn(AgentBinding) -> bool, i: int, j: int)
    requires
        first_with(v, p, i),
        first_with(v, p, j),
    ensures
        i == j,
{
    if i < j {
        assert(!p(v[i]));
    } else if j < i {
        assert(!p(v[j]));
    }
}

/// No binding satisfies `p` means there is no first one.
proof fn lemma_no_first(v: Seq<AgentBinding>, p: spec_fn(AgentBinding) -> bool)
    requires
        forall|j: int| 0 <= j < v.len() ==> !p(#[trigger] v[j]),
    ensures
        !exists|i: int| first_with(v, p, i),
{
}

/// Router that resolves which agent handles a given channel/account.
#[derive(Debug)]
pub struct BindingRouter {
    bindings: Vec<AgentBinding>,
    default_agent_id: String,
}

impl BindingRouter {
    /// The configured bindings, in order.
    pub closed spec fn bindings(&self) -> Seq<AgentBinding> {
        self.bindings@
    }

    /// The agent used when no binding applies.
    pub closed spec fn default_agent(&self) -> Seq<char> {
        self.default_agent_id@
    }

    /// Create a new binding router.
    pub fn new(bindings: Vec<AgentBinding>, default_agent_id: String) -> (r: Self)
        ensures
            r.bindings() == bindings@,
            r.default_agent() == default_agent_id@,
    {
        BindingRouter { bindings, default_agent_id }
    }

    /// Resolve channel + account to an agent ID.
    ///
    /// Matching priority: exact channel + account binding, then channel-only binding,
    /// then the default agent. The id is lowercased.
    pub fn resolve(&self, channel: &str, account_id: Option<&str>) -> (r: AgentId)
        ensures
            r.0@ == unicode_lowercase(
                resolved_agent(
                    self.bindings(),
                    self.default_agent(),
                    channel@,
                    opt_view(account_id),
                ),
            ),
            all_ascii(resolved_agent(self.bindings(), self.default_agent(), channel@, opt_view(account_id)))
                ==> r.0@ == ascii_lowercase(
                resolved_agent(self.bindings(), self.default_agent(), channel@, opt_view(account_id)),
            ),
    {
        let ghost v = self.bindings@;
        let ghost acct = opt_view(account_id);
        let ghost exact = exact_pred(channel@, acct);
        let ghost chan = chan_pred(channel@);
        if let Some(acct_str) = account_id {
            let mut i: usize = 0;
            while i < self.bindings.len()
                invariant
                    i <= v.len(),
                    v == self.bindings@,
                    acct == Some(acct_str@),
                    acct == opt_view(account_id),
                    exact == exact_pred(channel@, acct),
                    forall|j: int| 0 <= j < i ==> !exact(#[trigger] v[j]),
                decreases v.len() - i,
            {
                let b = &self.bindings[i];
                let hit = match &b.account_id {
                    Some(a) => str_eq(b.channel.as_str(), channel) && str_eq(a.as_str(), acct_str),
                    None => false,
                };
                if hit {
                    proof {
                        assert(first_with(v, exact, i as int));
                        let c = choose|k: int| first_with(v, exact, k);
                        lemma_first_unique(v, exact, i as int, c);
                        assert(resolved_agent(v, self.default_agent_id@, channel@, acct) == v[i as int].agent_id@);
                    }
                    return AgentId::new(b.agent_id.as_str());
                }
                i = i + 1;
            }
            proof {
                lemma_no_first(v, exact);
            }
        } else {
            proof {
                lemma_no_first(v, exact);
            }
        }
        let mut i: usize = 0;
        while i < self.bindings.len()
            invariant
                i <= v.len(),
                v == self.bindings@,
                !exists|k: int| first_with(v, exact, k),
                exact == exact_pred(channel@, opt_view(account_id)),
                chan == chan_pred(channel@),
                forall|j: int| 0 <= j < i ==> !chan(#[trigger] v[j]),
            decreases v.len() - i,
        {
            let b = &self.bindings[i];
            if b.account_id.is_none() && str_eq(b.channel.as_str(), channel) {
                proof {
                    assert(first_with(v, chan, i as int));
                    let c = choose|k: int| first_with(v, chan, k);
                    lemma_first_unique(v, chan, i as int, c);
                }
                return AgentId::new(b.agent_id.as_str());
            }
            i = i + 1;
        }
        proof {
            lemma_no_first(v, chan);
        }
        AgentId::new(self.default_agent_id.as_str())
    }
}

} // verus!
