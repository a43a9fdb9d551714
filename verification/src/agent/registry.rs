//! Multi-agent registry for isolated agent configurations.

use vstd::prelude::*;

use crate::agent::harness::Execution;
use crate::security::DmPolicy;
use crate::text::{all_ascii, ascii_lowercase, join_path, path_joined, str_eq, to_lowercase, unicode_lowercase};

verus! {

/// Unique agent identifier, lowercase-normalized.
#[derive(Debug, Clone, PartialEq, Eq, Hash)]
pub struct AgentId(pub String);

impl AgentId {
    /// Create a new agent ID, normalizing to lowercase.
    pub fn new(id: &str) -> (r: Self)
        ensures
            r.0@ == unicode_lowercase(id@),
            all_ascii(id@) ==> r.0@ == ascii_lowercase(id@),
    {
        AgentId(to_lowercase(id))
    }

    /// Default agent ID used when no agents are configured.
    pub fn default_id() -> (r: Self)
        ensures
            r.0@ == "default"@,
    {
        AgentId(String::from_str("default"))
    }

    /// Get the string value.
    pub fn as_str(&self) -> (r: &str)
        ensures
            r@ == self.0@,
    {
        self.0.as_str()
    }
}

/// Configuration for a single agent instance.
#[derive(Debug, Clone)]
pub struct AgentConfig {
    /// Unique agent identifier
    pub id: AgentId,
    /// Optional persona override
    pub persona_id: Option<String>,
    /// Optional model override
    pub model_override: Option<String>,
    /// Optional skill filter (allowlist)
    pub skill_filter: Option<Vec<String>>,
    /// Per-agent workspace directory
    pub workspace_dir: String,
    /// Optional DM policy override
    pub dm_policy_override: Option<DmPolicy>,
    /// Channels this agent is enabled for (None = all)
    pub enabled_channels: Option<Vec<String>>,
    /// Execution mode: built-in loop or external harness
    pub execution: Execution,
}

/// The configuration registered under an id: the last one with that id.
pub open spec fn lookup(v: Seq<AgentConfig>, k: Seq<char>) -> Option<AgentConfig>
    decreases v.len(),
{
    if v.len() == 0 {
        None
    } else if v.last().id.0@ == k {
        Some(v.last())
    } else {
        lookup(v.drop_last(), k)
    }
}

/// Two lists of configurations register the same configuration under `k`.
pub open spec fn same_lookup(a: Seq<AgentConfig>, b: Seq<AgentConfig>, k: Seq<char>) -> bool {
    lookup(a, k) == lookup(b, k)
}

/// No two configurations share an id.
pub open spec fn ids_unique(v: Seq<AgentConfig>) -> bool {
    forall|i: int, j: int| 0 <= i < j < v.len() ==> (#[trigger] v[i]).id.0@ != (#[trigger] v[j]).id.0@
}

proof fn lemma_lookup_at(v: Seq<AgentConfig>, k: Seq<char>, idx: int)
    requires
        0 <= idx < v.len(),
        v[idx].id.0@ == k,
        forall|m: int| idx < m < v.len() ==> (#[trigger] v[m]).id.0@ != k,
    ensures
        lookup(v, k) == Some(v[idx]),
    decreases v.len(),
{
    if idx < v.len() - 1 {
        assert(v.last().id.0@ != k);
        lemma_lookup_at(v.drop_last(), k, idx);
    }
}

proof fn lemma_lookup_absent(v: Seq<AgentConfig>, k: Seq<char>)
    requires
        forall|m: int| 0 <= m < v.len() ==> (#[trigger] v[m]).id.0@ != k,
    ensures
        lookup(v, k) is None,
    decreases v.len(),
{
    if v.len() > 0 {
        assert(v.last().id.0@ != k);
        lemma_lookup_absent(v.drop_last(), k);
    }
}

proof fn lemma_lookup_update(v: Seq<AgentConfig>, idx: int, a: AgentConfig, k: Seq<char>)
    requires
        0 <= idx < v.len(),
        v[idx].id.0@ == a.id.0@,
        k != a.id.0@,
    ensures
        lookup(v.update(idx, a), k) == lookup(v, k),
    decreases v.len(),
{
    let u = v.update(idx, a);
    if idx == v.len() - 1 {
        assert(u.drop_last() =~= v.drop_last());
    } else {
        assert(u.drop_last() =~= v.drop_last().update(idx, a));
        lemma_lookup_update(v.drop_last(), idx, a, k);
    }
}

/// Putting a configuration in front changes a lookup only where nothing later has the id.
proof fn lemma_lookup_prepend(x: AgentConfig, s: Seq<AgentConfig>, k: Seq<char>)
    ensures
        lookup(seq![x] + s, k) == (if lookup(s, k) is Some {
            lookup(s, k)
        } else if x.id.0@ == k {
            Some(x)
        } else {
            None
        }),
    decreases s.len(),
{
    if s.len() == 0 {
        assert(seq![x] + s =~= seq![x]);
        assert(seq![x].drop_last() =~= Seq::<AgentConfig>::empty());
    } else {
        assert((seq![x] + s).last() == s.last());
        assert((seq![x] + s).drop_last() =~= seq![x] + s.drop_last());
        lemma_lookup_prepend(x, s.drop_last(), k);
    }
}

/// Index of the configuration with the given id, if any.
fn find_agent(v: &Vec<AgentConfig>, k: &str) -> (r: Option<usize>)
    requires
        ids_unique(v@),
    ensures
        match r {
            Some(i) => i < v@.len() && v@[i as int].id.0@ == k@ && lookup(v@, k@) == Some(v@[i as int]),
            None => lookup(v@, k@) is None && forall|m: int| 0 <= m < v@.len() ==> (#[trigger] v@[m]).id.0@ != k@,
        },
{
    let mut i: usize = 0;
    while i < v.len()
        invariant
            i <= v@.len(),
            ids_unique(v@),
            forall|m: int| 0 <= m < i ==> (#[trigger] v@[m]).id.0@ != k@,
        decreases v@.len() - i,
    {
        if str_eq(v[i].id.0.as_str(), k) {
            proof {
                assert forall|m: int| i < m < v@.len() implies (#[trigger] v@[m]).id.0@ != k@ by {
                    assert(v@[i as int].id.0@ != v@[m].id.0@);
                }
                lemma_lookup_at(v@, k@, i as int);
            }
            return Some(i);
        }
        i = i + 1;
    }
    proof {
        lemma_lookup_absent(v@, k@);
    }
    None
}

/// Registry of all configured agents.
#[derive(Debug)]
pub struct AgentRegistry {
    agents: Vec<AgentConfig>,
    default_id: String,
}

impl AgentRegistry {
    /// The registered configurations (one per id).
    pub closed spec fn entries(&self) -> Seq<AgentConfig> {
        self.agents@
    }

    /// The id of the default agent.
    pub closed spec fn default_key(&self) -> Seq<char> {
        self.default_id@
    }

    /// A registry never holds two configurations with the same id.
    #[verifier::type_invariant]
    spec fn wf(&self) -> bool {
        ids_unique(self.agents@)
    }

    /// Create a registry from a list of agent configs; a later config replaces an
    /// earlier one with the same id. The default id is "default" unless given.
    pub fn new(agents: Vec<AgentConfig>, default_id: Option<String>) -> (r: Self)
        ensures
            ids_unique(r.entries()),
            forall|k: Seq<char>| #[trigger] same_lookup(r.entries(), agents@, k),
            r.default_key() == match default_id {
                Some(d) => d@,
                None => "default"@,
            },
    {
        let default_id = match default_id {
            Some(d) => d,
            None => String::from_str("default"),
        };
        let ghost orig = agents@;
        let mut rest = agents;
        let mut map: Vec<AgentConfig> = Vec::new();
        proof {
            assert(orig.subrange(orig.len() as int, orig.len() as int) =~= Seq::<AgentConfig>::empty());
        }
        while rest.len() > 0
            invariant
                rest@ == orig.subrange(0, rest@.len() as int),
                rest@.len() <= orig.len(),
                ids_unique(map@),
                forall|k: Seq<char>| same_lookup(map@, orig.subrange(rest@.len() as int, orig.len() as int), k),
            decreases rest@.len(),
        {
            let ghost n = rest@.len();
            let ghost old_map = map@;
            let ghost suffix = orig.subrange(n as int, orig.len() as int);
            let agent = rest.pop().unwrap();
            proof {
                assert(agent == orig[n - 1]);
                assert(orig.subrange(n - 1, orig.len() as int) =~= seq![agent] + suffix);
            }
            match find_agent(&map, agent.id.0.as_str()) {
                Some(_) => {
                    proof {
                        assert(lookup(map@, agent.id.0@) is Some);
                        assert(same_lookup(map@, suffix, agent.id.0@));
                        assert(lookup(suffix, agent.id.0@) is Some);
                        assert forall|k: Seq<char>| same_lookup(map@, seq![agent] + suffix, k) by {
                            lemma_lookup_prepend(agent, suffix, k);
                            assert(same_lookup(map@, suffix, k));
                        }
                    }
                },
                None => {
                    map.push(agent);
                    proof {
                        assert(map@.drop_last() =~= old_map);
                        assert forall|k: Seq<char>| same_lookup(map@, seq![agent] + suffix, k) by {
                            lemma_lookup_prepend(agent, suffix, k);
                            assert(same_lookup(old_map, suffix, k));
                        }
                        assert forall|i: int, j: int| 0 <= i < j < map@.len() implies (#[trigger] map@[i]).id.0@ != (#[trigger] map@[j]).id.0@ by {
                            if j == map@.len() - 1 {
                                assert(old_map[i] == map@[i]);
                            } else {
                                assert(old_map[i] == map@[i]);
                                assert(old_map[j] == map@[j]);
                            }
                        }
                    }
                },
            }
        }
        proof {
            assert(orig.subrange(0, orig.len() as int) =~= orig);
        }
        AgentRegistry { agents: map, default_id }
    }

    /// Create a single-agent registry: one "default" agent whose workspace is
    /// `<data_dir>/agents/default`, with no overrides and built-in execution.
    pub fn single(data_dir: &str) -> (r: Self)
        ensures
            r.entries().len() == 1,
            r.default_key() == "default"@,
            r.entries()[0].id.0@ == "default"@,
            r.entries()[0].workspace_dir@ == path_joined(path_joined(data_dir@, "agents"@), "default"@),
            r.entries()[0].persona_id is None,
            r.entries()[0].model_override is None,
            r.entries()[0].skill_filter is None,
            r.entries()[0].dm_policy_override is None,
            r.entries()[0].enabled_channels is None,
            r.entries()[0].execution is Builtin,
    {
        let agents_dir = join_path(data_dir, "agents");
        let workspace_dir = join_path(agents_dir.as_str(), "default");
        let default_config = AgentConfig {
            id: AgentId::default_id(),
            persona_id: None,
            model_override: None,
            skill_filter: None,
            workspace_dir,
            dm_policy_override: None,
            enabled_channels: None,
            execution: Execution::default(),
        };
        let mut agents: Vec<AgentConfig> = Vec::new();
        agents.push(default_config);
        AgentRegistry { agents, default_id: String::from_str("default") }
    }

    /// Get agent config by ID.
    pub fn get(&self, id: &str) -> (r: Option<&AgentConfig>)
        ensures
            r is Some <==> lookup(self.entries(), id@) is Some,
            r matches Some(c) ==> lookup(self.entries(), id@) == Some(*c),
    {
        proof {
            use_type_invariant(self);
        }
        match find_agent(&self.agents, id) {
            Some(i) => Some(&self.agents[i]),
            None => None,
        }
    }

    /// Get the default agent config.
    pub fn default_agent(&self) -> (r: Option<&AgentConfig>)
        ensures
            r is Some <==> lookup(self.entries(), self.default_key()) is Some,
            r matches Some(c) ==> lookup(self.entries(), self.default_key()) == Some(*c),
    {
        self.get(self.default_id.as_str())
    }

    /// Get the default agent ID.
    pub fn default_id(&self) -> (r: &str)
        ensures
            r@ == self.default_key(),
    {
        self.default_id.as_str()
    }

    /// List all agent configs: each registered configuration once, no two with the
    /// same id, each the one that `get` finds for its id.
    pub fn list(&self) -> (r: Vec<&AgentConfig>)
        ensures
            r@.len() == self.entries().len(),
            forall|i: int| 0 <= i < r@.len() ==> *(#[trigger] r@[i]) == self.entries()[i],
            forall|i: int, j: int| 0 <= i < j < r@.len() ==> (#[trigger] r@[i]).id.0@ != (#[trigger] r@[j]).id.0@,
            forall|i: int| 0 <= i < r@.len() ==> lookup(self.entries(), (#[trigger] r@[i]).id.0@) == Some(*r@[i]),
    {
        proof {
            use_type_invariant(self);
            let v = self.agents@;
            assert forall|i: int| 0 <= i < v.len() implies lookup(v, (#[trigger] v[i]).id.0@) == Some(v[i]) by {
                assert forall|m: int| i < m < v.len() implies (#[trigger] v[m]).id.0@ != v[i].id.0@ by {
                    assert(v[i].id.0@ != v[m].id.0@);
                }
                lemma_lookup_at(v, v[i].id.0@, i);
            }
        }
        let mut out: Vec<&AgentConfig> = Vec::new();
        let mut i: usize = 0;
        while i < self.agents.len()
            invariant
                i <= self.agents@.len(),
                out@.len() == i,
                forall|k: int| 0 <= k < i ==> *(#[trigger] out@[k]) == self.agents@[k],
            decreases self.agents@.len() - i,
        {
            out.push(&self.agents[i]);
            i = i + 1;
        }
        out
    }

    /// Number of configured agents.
    pub fn len(&self) -> (n: usize)
        ensures
            n == self.entries().len(),
    {
        self.agents.len()
    }

    /// Check if registry is empty.
    pub fn is_empty(&self) -> (b: bool)
        ensures
            b == (self.entries().len() == 0),
    {
        self.agents.len() == 0
    }
}

} // verus!
