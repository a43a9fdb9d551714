//! Reading and writing configuration values by dotted key path (`llm.model`), on the
//! table structure of a TOML document.

use vstd::prelude::*;

use crate::error::BeaconError;
use crate::text::{chars_of, concat3, str_eq, string_from_chars, views};

verus! {

/// A TOML document as tables of named entries; anything that is not a table is a leaf.
#[derive(Debug)]
pub enum TomlNode {
    /// A table: its entries, each a key and a node
    Table(Vec<(String, TomlNode)>),
    /// Any other value
    Leaf(toml::Value),
}

/// The pieces of `s` between occurrences of `sep` (`str::split`): always at least one.
pub open spec fn split_on(s: Seq<char>, sep: char) -> Seq<Seq<char>>
    decreases s.len(),
{
    if s.len() == 0 {
        seq![Seq::<char>::empty()]
    } else {
        let rest = split_on(s.drop_last(), sep);
        if s.last() == sep {
            rest.push(Seq::empty())
        } else {
            rest.update(rest.len() - 1, rest.last().push(s.last()))
        }
    }
}

proof fn lemma_split_nonempty(s: Seq<char>, sep: char)
    ensures
        split_on(s, sep).len() >= 1,
    decreases s.len(),
{
    if s.len() > 0 {
        lemma_split_nonempty(s.drop_last(), sep);
    }
}

/// Split a dotted key into its parts.
pub fn split_key(key: &str) -> (r: Vec<String>)
    ensures
        views(r@) == split_on(key@, '.'),
        r@.len() >= 1,
{
    let cs = chars_of(key);
    let mut parts: Vec<String> = Vec::new();
    let mut cur: Vec<char> = Vec::new();
    let mut i: usize = 0;
    proof {
        assert(cs@.take(0) =~= Seq::<char>::empty());
    }
    while i < cs.len()
        invariant
            cs@ == key@,
            i <= cs@.len(),
            views(parts@).push(cur@) == split_on(cs@.take(i as int), '.'),
        decreases cs@.len() - i,
    {
        let c = cs[i];
        let ghost before = split_on(cs@.take(i as int), '.');
        proof {
            assert(cs@.take(i + 1).drop_last() =~= cs@.take(i as int));
            lemma_split_nonempty(cs@.take(i as int), '.');
        }
        if c == '.' {
            let piece = string_from_chars(cur.as_slice());
            parts.push(piece);
            cur = Vec::new();
            proof {
                assert(views(parts@).push(cur@) =~= before.push(Seq::empty()));
            }
        } else {
            let ghost old_cur = cur@;
            cur.push(c);
            proof {
                assert(views(parts@).push(cur@) =~= before.update(before.len() - 1, old_cur.push(c)));
            }
        }
        i = i + 1;
    }
    proof {
        assert(cs@.take(cs@.len() as int) =~= cs@);
    }
    let last = string_from_chars(cur.as_slice());
    parts.push(last);
    proof {
        assert(views(parts@) =~= split_on(key@, '.'));
    }
    parts
}

/// Index of the first entry with key `k`, or -1.
pub open spec fn entry_index(es: Seq<(String, TomlNode)>, k: Seq<char>) -> int
    decreases es.len(),
{
    if es.len() == 0 {
        -1
    } else if es[0].0@ == k {
        0
    } else {
        let r = entry_index(es.drop_first(), k);
        if r < 0 {
            -1
        } else {
            r + 1
        }
    }
}

/// The node under key `k` in a table's entries (the first such entry).
pub open spec fn entry_of(es: Seq<(String, TomlNode)>, k: Seq<char>) -> Option<TomlNode> {
    let i = entry_index(es, k);
    if 0 <= i < es.len() {
        Some(es[i].1)
    } else {
        None
    }
}

/// The node at a path of keys, if every step is a table holding the next key.
pub open spec fn node_at(node: TomlNode, path: Seq<Seq<char>>) -> Option<TomlNode>
    decreases path.len(),
{
    if path.len() == 0 {
        Some(node)
    } else {
        match node {
            TomlNode::Table(es) => match entry_of(es@, path[0]) {
                Some(c) => node_at(c, path.drop_first()),
                None => None,
            },
            TomlNode::Leaf(_) => None,
        }
    }
}

proof fn lemma_entry_index(es: Seq<(String, TomlNode)>, k: Seq<char>)
    ensures
        -1 <= entry_index(es, k) < es.len(),
        entry_index(es, k) >= 0 ==> es[entry_index(es, k)].0@ == k,
        forall|j: int| 0 <= j < es.len() && (j < entry_index(es, k) || entry_index(es, k) < 0) ==> (
        #[trigger] es[j]).0@ != k,
    decreases es.len(),
{
    if es.len() > 0 && es[0].0@ != k {
        lemma_entry_index(es.drop_first(), k);
        assert forall|j: int|
            0 <= j < es.len() && (j < entry_index(es, k) || entry_index(es, k) < 0) implies (
            #[trigger] es[j]).0@ != k by {
            if j > 0 {
                assert(es[j] == es.drop_first()[j - 1]);
            }
        }
    }
}

proof fn lemma_entry_index_is(es: Seq<(String, TomlNode)>, k: Seq<char>, i: int)
    requires
        -1 <= i < es.len(),
        i >= 0 ==> es[i].0@ == k,
        forall|j: int| 0 <= j < es.len() && (j < i || i < 0) ==> (#[trigger] es[j]).0@ != k,
    ensures
        entry_index(es, k) == i,
{
    lemma_entry_index(es, k);
    let e = entry_index(es, k);
    if e >= 0 && i >= 0 {
        if e < i {
            assert(es[e].0@ != k);
        } else if i < e {
            assert(es[i].0@ != k);
        }
    } else if e >= 0 {
        assert(es[e].0@ != k);
    } else if i >= 0 {
        assert(es[i].0@ != k);
    }
}

/// Position of the first entry with the given key.
fn find_key(es: &Vec<(String, TomlNode)>, k: &str) -> (r: Option<usize>)
    ensures
        match r {
            Some(i) => i < es@.len() && entry_index(es@, k@) == i && es@[i as int].0@ == k@,
            None => entry_index(es@, k@) == -1,
        },
{
    let mut i: usize = 0;
    while i < es.len()
        invariant
            i <= es@.len(),
            forall|j: int| 0 <= j < i ==> (#[trigger] es@[j]).0@ != k@,
        decreases es@.len() - i,
    {
        if str_eq(es[i].0.as_str(), k) {
            proof {
                lemma_entry_index_is(es@, k@, i as int);
            }
            return Some(i);
        }
        i = i + 1;
    }
    proof {
        lemma_entry_index_is(es@, k@, -1);
    }
    None
}

/// Navigate a document by the parts of a dotted key.
pub fn navigate<'a>(node: &'a TomlNode, parts: &Vec<String>, i: usize) -> (r: Option<&'a TomlNode>)
    requires
        i <= parts@.len(),
    ensures
        match r {
            Some(n) => node_at(*node, views(parts@).skip(i as int)) == Some(*n),
            None => node_at(*node, views(parts@).skip(i as int)) is None,
        },
    decreases parts@.len() - i,
{
    let ghost path = views(parts@).skip(i as int);
    if i == parts.len() {
        return Some(node);
    }
    proof {
        assert(path[0] == parts@[i as int]@);
        assert(path.drop_first() =~= views(parts@).skip(i + 1));
    }
    match node {
        TomlNode::Table(es) => match find_key(es, parts[i].as_str()) {
            Some(p) => navigate(&es[p].1, parts, i + 1),
            None => None,
        },
        TomlNode::Leaf(_) => None,
    }
}

/// Look up the value at a dotted key.
pub fn navigate_toml<'a>(doc: &'a TomlNode, key: &str) -> (r: Option<&'a TomlNode>)
    ensures
        match r {
            Some(n) => node_at(*doc, split_on(key@, '.')) == Some(*n),
            None => node_at(*doc, split_on(key@, '.')) is None,
        },
{
    let parts = split_key(key);
    proof {
        assert(views(parts@).skip(0) =~= views(parts@));
    }
    navigate(doc, &parts, 0)
}

/// Why setting a value at a path fails, if it does: a leaf where a table is needed.
pub open spec fn set_error(node: TomlNode, path: Seq<Seq<char>>) -> Option<Seq<char>>
    decreases path.len(),
{
    if path.len() == 0 {
        None
    } else {
        match node {
            TomlNode::Leaf(_) => Some(
                if path.len() == 1 {
                    "cannot set key on non-table value"@
                } else {
                    "intermediate key '"@ + path[0] + "' is not a table"@
                },
            ),
            TomlNode::Table(es) => if path.len() == 1 {
                None
            } else {
                match entry_of(es@, path[0]) {
                    Some(c) => set_error(c, path.drop_first()),
                    None => None,
                }
            },
        }
    }
}

/// Path `q` leaves path `p` somewhere: neither is a prefix of the other.
pub open spec fn diverges(q: Seq<Seq<char>>, p: Seq<Seq<char>>) -> bool {
    exists|j: int| 0 <= j < q.len() && j < p.len() && q[j] != p[j]
}

proof fn lemma_entry_index_update(es: Seq<(String, TomlNode)>, p: int, e: (String, TomlNode), k: Seq<char>)
    requires
        0 <= p < es.len(),
        es[p].0@ == e.0@,
    ensures
        entry_index(es.update(p, e), k) == entry_index(es, k),
{
    let u = es.update(p, e);
    lemma_entry_index(es, k);
    let i = entry_index(es, k);
    assert forall|j: int| 0 <= j < u.len() && (j < i || i < 0) implies (#[trigger] u[j]).0@ != k by {
        assert(es[j].0@ != k);
    }
    lemma_entry_index_is(u, k, i);
}

proof fn lemma_entry_index_push(es: Seq<(String, TomlNode)>, e: (String, TomlNode), k: Seq<char>)
    requires
        entry_index(es, e.0@) == -1,
    ensures
        entry_index(es.push(e), k) == (if entry_index(es, k) >= 0 {
            entry_index(es, k)
        } else if k == e.0@ {
            es.len() as int
        } else {
            -1
        }),
{
    let u = es.push(e);
    lemma_entry_index(es, k);
    lemma_entry_index(es, e.0@);
    let i = entry_index(es, k);
    if i >= 0 {
        assert forall|j: int| 0 <= j < u.len() && (j < i || i < 0) implies (#[trigger] u[j]).0@ != k by {
            assert(u[j] == es[j]);
        }
        lemma_entry_index_is(u, k, i);
    } else if k == e.0@ {
        assert forall|j: int| 0 <= j < u.len() && (j < es.len() || es.len() < 0) implies (
        #[trigger] u[j]).0@ != k by {
            assert(u[j] == es[j]);
        }
        lemma_entry_index_is(u, k, es.len() as int);
    } else {
        assert forall|j: int| 0 <= j < u.len() && (j < -1 || -1 < 0) implies (#[trigger] u[j]).0@ != k by {
            if j < es.len() {
                assert(u[j] == es[j]);
            }
        }
        lemma_entry_index_is(u, k, -1);
    }
}

/// Why setting a value at `parts[i..]` of `node` would fail, if it would.
fn set_blocked(node: &TomlNode, parts: &Vec<String>, i: usize) -> (r: Option<String>)
    requires
        i < parts@.len(),
    ensures
        match r {
            Some(m) => set_error(*node, views(parts@).skip(i as int)) == Some(m@),
            None => set_error(*node, views(parts@).skip(i as int)) is None,
        },
    decreases parts@.len() - i,
{
    let ghost ps = views(parts@).skip(i as int);
    proof {
        assert(ps[0] == parts@[i as int]@);
        assert(ps.drop_first() =~= views(parts@).skip(i + 1));
    }
    match node {
        TomlNode::Leaf(_) => {
            proof {
                reveal_strlit("intermediate key '");
                reveal_strlit("' is not a table");
            }
            if i == parts.len() - 1 {
                Some(String::from_str("cannot set key on non-table value"))
            } else {
                Some(concat3("intermediate key '", parts[i].as_str(), "' is not a table"))
            }
        },
        TomlNode::Table(es) => {
            if i == parts.len() - 1 {
                None
            } else {
                match find_key(es, parts[i].as_str()) {
                    Some(p) => set_blocked(&es[p].1, parts, i + 1),
                    None => None,
                }
            }
        },
    }
}

/// Set `value` at the path `parts[i..]` of `node`, creating missing tables on the way.
fn set_node(node: TomlNode, parts: &Vec<String>, i: usize, value: TomlNode) -> (n: TomlNode)
    requires
        i < parts@.len(),
        set_error(node, views(parts@).skip(i as int)) is None,
    ensures
        ({
            let ps = views(parts@).skip(i as int);
            &&& node_at(n, ps) == Some(value)
            &&& forall|q: Seq<Seq<char>>| diverges(q, ps) ==> #[trigger] node_at(n, q) == node_at(node, q)
        }),
    decreases parts@.len() - i,
{
    let ghost ps = views(parts@).skip(i as int);
    let ghost orig = node;
    proof {
        assert(ps[0] == parts@[i as int]@);
        assert(ps.drop_first() =~= views(parts@).skip(i + 1));
    }
    match node {
        TomlNode::Leaf(v) => {
            proof {
                assert(false);
            }
            TomlNode::Leaf(v)
        },
        TomlNode::Table(mut es) => {
            let ghost es0 = es@;
            let k = parts[i].as_str();
            let pos = find_key(&es, k);
            if i == parts.len() - 1 {
                match pos {
                    Some(p) => {
                        let key = es[p].0.clone();
                        es.set(p, (key, value));
                        proof {
                            assert(ps.len() == 1);
                            lemma_entry_index_update(es0, p as int, es@[p as int], k@);
                            assert(entry_index(es@, ps[0]) == p);
                            assert(node_at(value, ps.drop_first()) == Some(value));
                            assert(node_at(TomlNode::Table(es), ps) == Some(value));
                            assert forall|k2: Seq<char>| true implies entry_index(es@, k2) == entry_index(es0, k2) by {
                                lemma_entry_index_update(es0, p as int, es@[p as int], k2);
                            }
                            assert forall|q: Seq<Seq<char>>| diverges(q, ps) implies #[trigger] node_at(
                                TomlNode::Table(es),
                                q,
                            ) == node_at(orig, q) by {
                                let j = choose|j: int| 0 <= j < q.len() && j < ps.len() && q[j] != ps[j];
                                assert(j == 0);
                                assert(entry_index(es@, q[0]) == entry_index(es0, q[0]));
                                lemma_entry_index(es0, q[0]);
                                if entry_index(es0, q[0]) >= 0 {
                                    assert(entry_index(es0, q[0]) != p);
                                }
                            }
                        }
                        TomlNode::Table(es)
                    },
                    None => {
                        let key = parts[i].clone();
                        es.push((key, value));
                        proof {
                            assert forall|q: Seq<Seq<char>>| diverges(q, ps) implies #[trigger] node_at(
                                TomlNode::Table(es),
                                q,
                            ) == node_at(orig, q) by {
                                let j = choose|j: int| 0 <= j < q.len() && j < ps.len() && q[j] != ps[j];
                                assert(j == 0);
                                lemma_entry_index_push(es0, es@.last(), q[0]);
                                lemma_entry_index(es0, q[0]);
                                if entry_index(es0, q[0]) >= 0 {
                                    assert(es@[entry_index(es0, q[0])] == es0[entry_index(es0, q[0])]);
                                }
                            }
                            lemma_entry_index_push(es0, es@.last(), k@);
                            assert(ps.len() == 1);
                            assert(entry_index(es@, ps[0]) == es0.len());
                            assert(node_at(value, ps.drop_first()) == Some(value));
                            assert(node_at(TomlNode::Table(es), ps) == Some(value));
                        }
                        TomlNode::Table(es)
                    },
                }
            } else {
                match pos {
                    Some(p) => {
                        let (key, child) = es.remove(p);
                        let ghost removed = es@;
                        proof {
                            assert(child == es0[p as int].1);
                            assert(key == es0[p as int].0);
                        }
                        proof {
                            assert(entry_of(es0, ps[0]) == Some(child));
                        }
                        let c2 = set_node(child, parts, i + 1, value);
                                es.insert(p, (key, c2));
                                proof {
                                    assert(es@ =~= es0.update(p as int, (key, c2)));
                                    lemma_entry_index_update(es0, p as int, (key, c2), k@);
                                    assert(entry_index(es@, ps[0]) == p);
                                    assert(node_at(TomlNode::Table(es), ps) == node_at(c2, ps.drop_first()));
                                    assert forall|k2: Seq<char>| true implies entry_index(es@, k2) == entry_index(
                                        es0,
                                        k2,
                                    ) by {
                                        lemma_entry_index_update(es0, p as int, (key, c2), k2);
                                    }
                                    assert forall|q: Seq<Seq<char>>| diverges(q, ps) implies #[trigger] node_at(
                                        TomlNode::Table(es),
                                        q,
                                    ) == node_at(orig, q) by {
                                        let j = choose|j: int| 0 <= j < q.len() && j < ps.len() && q[j] != ps[j];
                                        lemma_entry_index(es0, q[0]);
                                        if q[0] == ps[0] {
                                            assert(j > 0);
                                            let q1 = q.drop_first();
                                            assert(q1[j - 1] != ps.drop_first()[j - 1]);
                                            assert(diverges(q1, ps.drop_first()));
                                            assert(entry_index(es@, q[0]) == p);
                                            assert(node_at(TomlNode::Table(es), q) == node_at(c2, q1));
                                            assert(node_at(c2, q1) == node_at(child, q1));
                                            assert(node_at(orig, q) == node_at(child, q1));
                                        } else if entry_index(es0, q[0]) >= 0 {
                                            assert(entry_index(es0, q[0]) != p);
                                        }
                                    }
                                }
                                TomlNode::Table(es)
                    },
                    None => {
                        let fresh = TomlNode::Table(Vec::new());
                        let ghost fresh_g = fresh;
                        proof {
                            assert(entry_index(Seq::<(String, TomlNode)>::empty(), ps[1]) == -1);
                            assert(set_error(fresh_g, ps.drop_first()) is None);
                        }
                        let c2 = set_node(fresh, parts, i + 1, value);
                                let key = parts[i].clone();
                                es.push((key, c2));
                                proof {
                                    lemma_entry_index_push(es0, es@.last(), k@);
                                    assert(entry_index(es@, ps[0]) == es0.len());
                                    assert(node_at(TomlNode::Table(es), ps) == node_at(c2, ps.drop_first()));
                                    assert forall|q: Seq<Seq<char>>| diverges(q, ps) implies #[trigger] node_at(
                                        TomlNode::Table(es),
                                        q,
                                    ) == node_at(orig, q) by {
                                        let j = choose|j: int| 0 <= j < q.len() && j < ps.len() && q[j] != ps[j];
                                        lemma_entry_index_push(es0, es@.last(), q[0]);
                                        lemma_entry_index(es0, q[0]);
                                        if q[0] == ps[0] {
                                            assert(j > 0);
                                            let q1 = q.drop_first();
                                            assert(q1[j - 1] != ps.drop_first()[j - 1]);
                                            assert(diverges(q1, ps.drop_first()));
                                            assert(node_at(fresh_g, q1) is None) by {
                                                assert(q1.len() > 0);
                                                assert(entry_index(Seq::<(String, TomlNode)>::empty(), q1[0]) == -1);
                                            }
                                            assert(entry_index(es@, q[0]) == es0.len());
                                            assert(node_at(TomlNode::Table(es), q) == node_at(c2, q1));
                                            assert(node_at(c2, q1) == node_at(fresh_g, q1));
                                            assert(node_at(orig, q) is None);
                                        } else if entry_index(es0, q[0]) >= 0 {
                                            assert(es@[entry_index(es0, q[0])] == es0[entry_index(es0, q[0])]);
                                        }
                                    }
                                }
                                TomlNode::Table(es)
                    },
                }
            }
        },
    }
}

/// Set a value in a document by dotted key path, creating intermediate tables. On
/// failure the document is left as it was.
pub fn set_toml_value(doc: &mut TomlNode, key: &str, value: TomlNode) -> (r: Result<(), BeaconError>)
    ensures
        ({
            let ps = split_on(key@, '.');
            match set_error(*old(doc), ps) {
                None => {
                    &&& r is Ok
                    &&& node_at(*final(doc), ps) == Some(value)
                    &&& forall|q: Seq<Seq<char>>| diverges(q, ps) ==> #[trigger] node_at(*final(doc), q)
                        == node_at(*old(doc), q)
                },
                Some(m) => r is Err && r->Err_0 is Config && r->Err_0.spec_message() == m && *final(doc)
                    == *old(doc),
            }
        }),
{
    let parts = split_key(key);
    proof {
        assert(views(parts@).skip(0) =~= views(parts@));
    }
    match set_blocked(doc, &parts, 0) {
        Some(m) => Err(BeaconError::Config(m)),
        None => {
            let mut current = TomlNode::Table(Vec::new());
            std::mem::swap(&mut current, doc);
            let n = set_node(current, &parts, 0, value);
            *doc = n;
            Ok(())
        },
    }
}

/// A value given on the command line, read as the most specific TOML type it fits.
#[derive(Debug, Clone, PartialEq, Eq)]
pub enum ConfigValue {
    /// `true` or `false`
    Bool(bool),
    /// A 64-bit integer
    Integer(i64),
    /// A float, as written (the caller converts it)
    Float(String),
    /// Anything else, as a string
    Text(String),
}

/// The digits' value in base 10.
pub open spec fn digits_value(d: Seq<char>) -> int
    decreases d.len(),
{
    if d.len() == 0 {
        0
    } else {
        digits_value(d.drop_last()) * 10 + (d.last() as int - '0' as int)
    }
}

/// Every character is an ASCII digit.
pub open spec fn all_digits(d: Seq<char>) -> bool {
    forall|i: int| 0 <= i < d.len() ==> '0' <= #[trigger] d[i] <= '9'
}

/// The text after an optional leading `+` or `-`.
pub open spec fn unsigned_part(s: Seq<char>) -> Seq<char> {
    if s.len() > 0 && (s[0] == '-' || s[0] == '+') {
        s.drop_first()
    } else {
        s
    }
}

/// What `str::parse::<i64>` accepts: an optional `+` or `-`, then one or more ASCII
/// digits, with a value in range.
pub open spec fn i64_text(s: Seq<char>) -> Option<i64> {
    let neg = s.len() > 0 && s[0] == '-';
    let d = unsigned_part(s);
    let v = if neg {
        -digits_value(d)
    } else {
        digits_value(d)
    };
    if d.len() > 0 && all_digits(d) && i64::MIN <= v <= i64::MAX {
        Some(v as i64)
    } else {
        None
    }
}

/// The value of a prefix of decimal digits is not negative and does not shrink as the
/// prefix grows.
proof fn lemma_digits_grow(d: Seq<char>, i: int, j: int)
    requires
        0 <= i <= j <= d.len(),
        forall|k: int| 0 <= k < d.len() ==> '0' <= #[trigger] d[k] <= '9',
    ensures
        0 <= digits_value(d.take(i)) <= digits_value(d.take(j)),
    decreases j,
{
    if j == 0 {
        assert(d.take(0) =~= Seq::<char>::empty());
    } else {
        if i == j {
            lemma_digits_grow(d, j - 1, j - 1);
        } else {
            lemma_digits_grow(d, i, j - 1);
        }
        assert(d.take(j).drop_last() =~= d.take(j - 1));
        assert(d.take(j).last() == d[j - 1]);
    }
}

/// Parse a decimal `i64` as `str::parse::<i64>` does: an optional `+` or `-`, then one
/// or more ASCII digits, with a value in range.
fn parse_i64(s: &str) -> (r: Option<i64>)
    ensures
        r == i64_text(s@),
{
    let cs = chars_of(s);
    let n = cs.len();
    let neg = n > 0 && cs[0] == '-';
    let signed = n > 0 && (cs[0] == '-' || cs[0] == '+');
    let start: usize = if signed {
        1
    } else {
        0
    };
    let ghost d = if signed {
        s@.drop_first()
    } else {
        s@
    };
    proof {
        assert(d =~= cs@.skip(start as int));
    }
    if start == n {
        return None;
    }
    let mut acc: u128 = 0;
    let mut i: usize = start;
    proof {
        assert(d.take(0) =~= Seq::<char>::empty());
    }
    while i < n
        invariant
            start <= i <= n,
            n == cs@.len(),
            cs@ == s@,
            d == cs@.skip(start as int),
            signed == (s@.len() > 0 && (s@[0] == '-' || s@[0] == '+')),
            neg == (s@.len() > 0 && s@[0] == '-'),
            d == unsigned_part(s@),
            acc == digits_value(d.take(i - start)),
            acc <= 0x8000_0000_0000_0000u128,
            forall|k: int| 0 <= k < i - start ==> '0' <= #[trigger] d[k] <= '9',
        decreases n - i,
    {
        let c = cs[i];
        proof {
            assert(d[i - start] == c);
        }
        if !('0' <= c && c <= '9') {
            proof {
                assert(!('0' <= d[i - start] <= '9'));
                assert(!all_digits(d));
                assert(i64_text(s@) is None);
            }
            return None;
        }
        let digit: u128 = (c as u32 - '0' as u32) as u128;
        acc = acc * 10 + digit;
        proof {
            assert(d.take(i + 1 - start).drop_last() =~= d.take(i - start));
            assert(d.take(i + 1 - start).last() == c);
        }
        i = i + 1;
        if acc > 0x8000_0000_0000_0000u128 {
            proof {
                if all_digits(d) {
                    lemma_digits_grow(d, i - start, d.len() as int);
                    assert(d.take(d.len() as int) =~= d);
                    assert(digits_value(d) > 0x8000_0000_0000_0000);
                }
                assert(i64_text(s@) is None);
            }
            return None;
        }
    }
    proof {
        assert(d.take(d.len() as int) =~= d);
    }
    if neg {
        if acc == 0x8000_0000_0000_0000u128 {
            Some(i64::MIN)
        } else {
            let m: i64 = acc as i64;
            Some(-m)
        }
    } else if acc <= 0x7fff_ffff_ffff_ffffu128 {
        Some(acc as i64)
    } else {
        None
    }
}

/// Read a command-line value: a boolean, then an integer, then a float (`float_accepted`
/// tells whether the text reads as a floating-point number), else text.
pub fn parse_value(s: &str, float_accepted: bool) -> (r: ConfigValue)
    ensures
        r == (if s@ == "true"@ {
            ConfigValue::Bool(true)
        } else if s@ == "false"@ {
            ConfigValue::Bool(false)
        } else if i64_text(s@) is Some {
            ConfigValue::Integer(i64_text(s@)->0)
        } else if float_accepted {
            ConfigValue::Float(r->Float_0)
        } else {
            ConfigValue::Text(r->Text_0)
        }),
        r matches ConfigValue::Float(t) ==> t@ == s@,
        r matches ConfigValue::Text(t) ==> t@ == s@,
{
    if str_eq(s, "true") {
        return ConfigValue::Bool(true);
    }
    if str_eq(s, "false") {
        return ConfigValue::Bool(false);
    }
    if let Some(i) = parse_i64(s) {
        return ConfigValue::Integer(i);
    }
    if float_accepted {
        return ConfigValue::Float(String::from_str(s));
    }
    ConfigValue::Text(String::from_str(s))
}

} // verus!
