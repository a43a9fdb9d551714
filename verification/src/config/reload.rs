//! Reload classification: which subsystems a configuration change touches, and whether
//! it needs a restart.

use vstd::prelude::*;

use crate::text::{str_eq, views};

verus! {

/// A TOML value, carried opaquely.
#[verifier::external_type_specification]
#[verifier::external_body]
pub struct ExTomlValue(toml::Value);

/// The top-level keys of a TOML document, in the order toml's table holds them; `None`
/// when the text is not a TOML document.
pub uninterp spec fn toml_top_keys(text: Seq<char>) -> Option<Seq<Seq<char>>>;

/// `text.parse::<toml::Value>()`, keeping the keys of the top-level table: `None` when
/// the text does not parse. The keys of a table are distinct.
#[verifier::external_body]
fn toml_top_level(text: &str) -> (r: Option<Vec<String>>)
    ensures
        match r {
            Some(keys) => {
                &&& toml_top_keys(text@) == Some(views(keys@))
                &&& forall|i: int, j: int| 0 <= i < j < keys@.len() ==> (#[trigger] keys@[i])@ != (#[trigger] keys@[j])@
            },
            None => toml_top_keys(text@) is None,
        },
{
    match text.parse::<toml::Value>() {
        Ok(toml::Value::Table(map)) => Some(map.keys().cloned().collect()),
        Ok(_) => None,
        Err(_) => None,
    }
}

/// Whether the two TOML texts hold the same value at top-level key `key`: toml's `==`
/// on the `Option<&toml::Value>` that `get(key)` gives in each parsed document (absent
/// on both sides counts as the same; a text that does not parse holds nothing).
pub uninterp spec fn toml_top_value_same(old: Seq<char>, new: Seq<char>, key: Seq<char>) -> bool;

/// Compares the values that two TOML texts hold at a top-level key, with toml's `==`
/// on `get(key)` of each parsed document. A key present in one document and absent in
/// the other is never the same (`Some` is not equal to `None`).
#[verifier::external_body]
fn toml_top_values_same(old: &str, new: &str, key: &str) -> (r: bool)
    ensures
        r == toml_top_value_same(old@, new@, key@),
        toml_top_keys(old@) matches Some(ko) && toml_top_keys(new@) matches Some(kn) && ko.contains(key@)
            != kn.contains(key@) ==> !r,
{
    let a = match old.parse::<toml::Value>() {
        Ok(v) => v.get(key).cloned(),
        Err(_) => None,
    };
    let b = match new.parse::<toml::Value>() {
        Ok(v) => v.get(key).cloned(),
        Err(_) => None,
    };
    a == b
}

/// Which configuration sections changed.
#[derive(Debug, Clone, Copy, PartialEq, Eq, Structural)]
pub struct ReloadDiff {
    /// Persona identity/prompt changed
    pub persona: bool,
    /// Skills configuration changed
    pub skills: bool,
    /// Hooks configuration changed
    pub hooks: bool,
    /// Tool policy changed
    pub tool_policy: bool,
    /// Memory configuration changed
    pub memory: bool,
    /// Change requires a full daemon restart
    pub requires_restart: bool,
}

impl Default for ReloadDiff {
    fn default() -> (d: Self)
        ensures
            d == (ReloadDiff {
                persona: false,
                skills: false,
                hooks: false,
                tool_policy: false,
                memory: false,
                requires_restart: false,
            }),
    {
        ReloadDiff {
            persona: false,
            skills: false,
            hooks: false,
            tool_policy: false,
            memory: false,
            requires_restart: false,
        }
    }
}

/// Some hot-reloadable section changed.
pub open spec fn hot_changes(d: ReloadDiff) -> bool {
    d.persona || d.skills || d.hooks || d.tool_policy || d.memory
}

impl ReloadDiff {
    /// Whether any hot-reloadable section changed.
    pub fn has_hot_changes(&self) -> (b: bool)
        ensures
            b == hot_changes(*self),
    {
        self.persona || self.skills || self.hooks || self.tool_policy || self.memory
    }
}

/// Keys that can be reloaded without a restart.
pub open spec fn hot_key(key: Seq<char>) -> bool {
    ||| key == "persona"@
    ||| key == "skills"@
    ||| key == "hooks"@
    ||| key == "media"@
    ||| key == "memory"@
    ||| key == "tools"@
    ||| key == "tool_policy"@
}

/// Check whether a key is hot-reloadable.
pub fn is_hot_key(key: &str) -> (b: bool)
    ensures
        b == hot_key(key@),
{
    str_eq(key, "persona") || str_eq(key, "skills") || str_eq(key, "hooks") || str_eq(key, "media")
        || str_eq(key, "memory") || str_eq(key, "tools") || str_eq(key, "tool_policy")
}

/// The diff that a set of changed top-level keys makes. Unknown keys require a
/// restart, for safety.
pub open spec fn diff_of(changed: Seq<Seq<char>>) -> ReloadDiff {
    ReloadDiff {
        persona: changed.contains("persona"@),
        skills: changed.contains("skills"@),
        hooks: changed.contains("hooks"@),
        tool_policy: changed.contains("tools"@) || changed.contains("tool_policy"@),
        memory: changed.contains("memory"@),
        requires_restart: has_restart_key(changed),
    }
}

/// Some key is not hot-reloadable.
pub open spec fn has_restart_key(keys: Seq<Seq<char>>) -> bool {
    exists|i: int| 0 <= i < keys.len() && !hot_key(#[trigger] keys[i])
}

/// Each section's flag follows its own top-level key: persona, skills, hooks and
/// memory are set exactly when that key changed, the tool policy when "tools" or
/// "tool_policy" changed, and a restart is needed exactly when some changed key is none
/// of the hot-reloadable ones (persona, skills, hooks, media, memory, tools,
/// tool_policy); a changed "media" sets no flag.
pub proof fn reload_flags_law(changed: Seq<Seq<char>>)
    ensures
        diff_of(changed).persona == changed.contains("persona"@),
        diff_of(changed).skills == changed.contains("skills"@),
        diff_of(changed).hooks == changed.contains("hooks"@),
        diff_of(changed).memory == changed.contains("memory"@),
        diff_of(changed).tool_policy == (changed.contains("tools"@) || changed.contains("tool_policy"@)),
        diff_of(changed).requires_restart == exists|i: int|
            0 <= i < changed.len() && #[trigger] changed[i] != "persona"@ && changed[i] != "skills"@ && changed[i]
                != "hooks"@ && changed[i] != "media"@ && changed[i] != "memory"@ && changed[i] != "tools"@
                && changed[i] != "tool_policy"@,
        changed == seq!["media"@] ==> diff_of(changed) == (ReloadDiff {
            persona: false,
            skills: false,
            hooks: false,
            tool_policy: false,
            memory: false,
            requires_restart: false,
        }),
{
    reveal_strlit("persona");
    reveal_strlit("skills");
    reveal_strlit("hooks");
    reveal_strlit("media");
    reveal_strlit("memory");
    reveal_strlit("tools");
    reveal_strlit("tool_policy");
    if changed == seq!["media"@] {
        assert(changed[0] == "media"@);
        assert("media"@[0] == 'm' && "hooks"@[0] == 'h' && "tools"@[0] == 't');
        assert(!changed.contains("persona"@));
        assert(!changed.contains("skills"@));
        assert(!changed.contains("hooks"@));
        assert(!changed.contains("memory"@));
        assert(!changed.contains("tools"@));
        assert(!changed.contains("tool_policy"@));
    }
}

proof fn lemma_restart_push(s: Seq<Seq<char>>, x: Seq<char>)
    ensures
        has_restart_key(s.push(x)) == (has_restart_key(s) || !hot_key(x)),
{
    let t = s.push(x);
    if has_restart_key(s) {
        let j = choose|j: int| 0 <= j < s.len() && !hot_key(#[trigger] s[j]);
        assert(t[j] == s[j]);
    }
    if !hot_key(x) {
        assert(t[s.len() as int] == x);
    }
    if has_restart_key(t) {
        let j = choose|j: int| 0 <= j < t.len() && !hot_key(#[trigger] t[j]);
        if j < s.len() {
            assert(s[j] == t[j]);
        }
    }
}

proof fn lemma_contains_push(s: Seq<Seq<char>>, x: Seq<char>, k: Seq<char>)
    ensures
        s.push(x).contains(k) == (s.contains(k) || x == k),
{
    if s.contains(k) {
        let i = choose|i: int| 0 <= i < s.len() && s[i] == k;
        assert(s.push(x)[i] == k);
    }
    if x == k {
        assert(s.push(x)[s.len() as int] == k);
    }
    if s.push(x).contains(k) {
        let i = choose|i: int| 0 <= i < s.push(x).len() && s.push(x)[i] == k;
        if i < s.len() {
            assert(s[i] == k);
        }
    }
}

/// Classify a list of changed top-level keys.
pub fn classify_keys(changed: &Vec<String>) -> (d: ReloadDiff)
    ensures
        d == diff_of(views(changed@)),
{
    let ghost keys = views(changed@);
    let mut d = ReloadDiff::default();
    let mut i: usize = 0;
    while i < changed.len()
        invariant
            i <= changed@.len(),
            keys == views(changed@),
            d == diff_of(keys.take(i as int)),
        decreases changed@.len() - i,
    {
        let k = changed[i].as_str();
        proof {
            reveal_strlit("persona");
            reveal_strlit("skills");
            reveal_strlit("hooks");
            reveal_strlit("media");
            reveal_strlit("memory");
            reveal_strlit("tools");
            reveal_strlit("tool_policy");
            assert("persona"@[0] == 'p' && "skills"@[0] == 's' && "hooks"@[0] == 'h');
            assert("media"@[1] == 'e' && "memory"@[2] == 'm' && "tools"@[0] == 't');
            assert("tool_policy"@[4] == '_' && "media"@.len() == 5 && "memory"@.len() == 6);
            assert("tools"@.len() == 5 && "tool_policy"@.len() == 11);
            let t = keys.take(i + 1);
            let p = keys.take(i as int);
            assert(keys[i as int] == k@);
            assert(t =~= p.push(k@));
            lemma_contains_push(p, k@, "persona"@);
            lemma_contains_push(p, k@, "skills"@);
            lemma_contains_push(p, k@, "hooks"@);
            lemma_contains_push(p, k@, "tools"@);
            lemma_contains_push(p, k@, "tool_policy"@);
            lemma_contains_push(p, k@, "memory"@);
            lemma_restart_push(p, k@);
        }
        if str_eq(k, "persona") {
            d.persona = true;
        } else if str_eq(k, "skills") {
            d.skills = true;
        } else if str_eq(k, "hooks") {
            d.hooks = true;
        } else if str_eq(k, "media") {
        } else if str_eq(k, "memory") {
            d.memory = true;
        } else if str_eq(k, "tools") || str_eq(k, "tool_policy") {
            d.tool_policy = true;
        } else {
            d.requires_restart = true;
        }
        i = i + 1;
    }
    proof {
        assert(keys.take(changed@.len() as int) =~= keys);
    }
    d
}

/// A top-level key changed between the two texts: it is a key of either document and
/// the values the documents hold at it are not the same.
pub open spec fn key_changed(
    old: Seq<char>,
    new: Seq<char>,
    ko: Seq<Seq<char>>,
    kn: Seq<Seq<char>>,
    k: Seq<char>,
) -> bool {
    (ko.contains(k) || kn.contains(k)) && !toml_top_value_same(old, new, k)
}

/// Whether a list of keys contains `key`.
fn has_key(keys: &Vec<String>, key: &str) -> (b: bool)
    ensures
        b == views(keys@).contains(key@),
{
    let mut i: usize = 0;
    while i < keys.len()
        invariant
            i <= keys@.len(),
            forall|m: int| 0 <= m < i ==> (#[trigger] keys@[m])@ != key@,
        decreases keys@.len() - i,
    {
        if str_eq(keys[i].as_str(), key) {
            proof {
                assert(views(keys@)[i as int] == key@);
            }
            return true;
        }
        i = i + 1;
    }
    proof {
        if views(keys@).contains(key@) {
            let j = choose|j: int| 0 <= j < views(keys@).len() && views(keys@)[j] == key@;
            assert(keys@[j]@ == key@);
        }
    }
    false
}

/// The top-level keys whose values differ between `old` and `new` (whose keys are
/// `ko` and `kn`): exactly the keys of either document whose values are not the same.
fn changed_keys(old: &str, new: &str, ko: &Vec<String>, kn: &Vec<String>) -> (r: Vec<String>)
    ensures
        forall|k: Seq<char>|
            #[trigger] views(r@).contains(k) == key_changed(old@, new@, views(ko@), views(kn@), k),
{
    let ghost vo = views(ko@);
    let ghost vn = views(kn@);
    let mut out: Vec<String> = Vec::new();
    let mut i: usize = 0;
    while i < ko.len()
        invariant
            i <= ko@.len(),
            vo == views(ko@),
            vn == views(kn@),
            forall|k: Seq<char>|
                #[trigger] views(out@).contains(k) == (vo.take(i as int).contains(k) && !toml_top_value_same(old@, new@, k)),
        decreases ko@.len() - i,
    {
        let key = ko[i].as_str();
        let same = toml_top_values_same(old, new, key);
        let ghost before = out@;
        if !same {
            out.push(ko[i].clone());
        }
        proof {
            assert(vo[i as int] == key@);
            assert(vo.take(i + 1) =~= vo.take(i as int).push(key@));
            assert forall|k: Seq<char>|
                #[trigger] views(out@).contains(k) == (vo.take(i + 1).contains(k) && !toml_top_value_same(old@, new@, k)) by {
                lemma_contains_push(vo.take(i as int), key@, k);
                if !same {
                    assert(views(out@) =~= views(before).push(key@));
                    lemma_contains_push(views(before), key@, k);
                } else {
                    assert(views(out@) =~= views(before));
                }
            }
        }
        i = i + 1;
    }
    proof {
        assert(vo.take(ko@.len() as int) =~= vo);
    }
    let ghost mid = views(out@);
    let mut j: usize = 0;
    while j < kn.len()
        invariant
            j <= kn@.len(),
            vo == views(ko@),
            vn == views(kn@),
            forall|k: Seq<char>|
                #[trigger] views(out@).contains(k) == ((vo.contains(k) || (vn.take(j as int).contains(k)))
                    && !toml_top_value_same(old@, new@, k)),
        decreases kn@.len() - j,
    {
        let key = kn[j].as_str();
        let ghost before = out@;
        let in_old = has_key(ko, key);
        if !in_old {
            let same = toml_top_values_same(old, new, key);
            if !same {
                out.push(kn[j].clone());
            }
        }
        proof {
            assert(vn[j as int] == key@);
            assert(vn.take(j + 1) =~= vn.take(j as int).push(key@));
            assert forall|k: Seq<char>|
                #[trigger] views(out@).contains(k) == ((vo.contains(k) || vn.take(j + 1).contains(k))
                    && !toml_top_value_same(old@, new@, k)) by {
                lemma_contains_push(vn.take(j as int), key@, k);
                if views(out@).len() != views(before).len() {
                    assert(views(out@) =~= views(before).push(key@));
                    lemma_contains_push(views(before), key@, k);
                } else {
                    assert(views(out@) =~= views(before));
                }
            }
        }
        j = j + 1;
    }
    proof {
        assert(vn.take(kn@.len() as int) =~= vn);
    }
    out
}

/// A diff that says only that a restart is needed.
pub open spec fn restart_only() -> ReloadDiff {
    ReloadDiff {
        persona: false,
        skills: false,
        hooks: false,
        tool_policy: false,
        memory: false,
        requires_restart: true,
    }
}

/// Compare two TOML configuration texts and classify what changed at the top level.
/// When either text does not parse as a TOML document, a restart is required.
/// Otherwise the diff is that of the changed keys: the keys of either document whose
/// values are not the same.
pub fn classify_changes(old: &str, new: &str) -> (d: ReloadDiff)
    ensures
        toml_top_keys(old@) is None || toml_top_keys(new@) is None ==> d == restart_only(),
        toml_top_keys(old@) is Some && toml_top_keys(new@) is Some ==> exists|changed: Seq<Seq<char>>|
            {
                &&& d == #[trigger] diff_of(changed)
                &&& forall|k: Seq<char>|
                    #[trigger] changed.contains(k) == key_changed(
                        old@,
                        new@,
                        toml_top_keys(old@)->0,
                        toml_top_keys(new@)->0,
                        k,
                    )
            },
        toml_top_keys(old@) is Some && toml_top_keys(new@) is Some ==> ({
            let ko = toml_top_keys(old@)->0;
            let kn = toml_top_keys(new@)->0;
            &&& d.persona == key_changed(old@, new@, ko, kn, "persona"@)
            &&& d.skills == key_changed(old@, new@, ko, kn, "skills"@)
            &&& d.hooks == key_changed(old@, new@, ko, kn, "hooks"@)
            &&& d.memory == key_changed(old@, new@, ko, kn, "memory"@)
            &&& d.tool_policy == (key_changed(old@, new@, ko, kn, "tools"@) || key_changed(
                old@,
                new@,
                ko,
                kn,
                "tool_policy"@,
            ))
        }),
{
    let old_keys = toml_top_level(old);
    let new_keys = toml_top_level(new);
    match (old_keys, new_keys) {
        (Some(o), Some(n)) => {
            let changed = changed_keys(old, new, &o, &n);
            let d = classify_keys(&changed);
            proof {
                assert(d == diff_of(views(changed@)));
                reload_flags_law(views(changed@));
                let c = views(changed@);
                let vo = views(o@);
                let vn = views(n@);
                assert(c.contains("persona"@) == key_changed(old@, new@, vo, vn, "persona"@));
                assert(c.contains("skills"@) == key_changed(old@, new@, vo, vn, "skills"@));
                assert(c.contains("hooks"@) == key_changed(old@, new@, vo, vn, "hooks"@));
                assert(c.contains("memory"@) == key_changed(old@, new@, vo, vn, "memory"@));
                assert(c.contains("tools"@) == key_changed(old@, new@, vo, vn, "tools"@));
                assert(c.contains("tool_policy"@) == key_changed(old@, new@, vo, vn, "tool_policy"@));
                assert(toml_top_keys(old@) == Some(vo) && toml_top_keys(new@) == Some(vn));
                assert(d.persona == key_changed(old@, new@, vo, vn, "persona"@));
                assert(d.tool_policy == (key_changed(old@, new@, vo, vn, "tools"@) || key_changed(old@, new@, vo, vn, "tool_policy"@)));
            }
            d
        },
        _ => {
            let mut d = ReloadDiff::default();
            d.requires_restart = true;
            proof {
                assert(toml_top_keys(old@) is None || toml_top_keys(new@) is None);
            }
            d
        },
    }
}

} // verus!
