//! Readable-text clean-up for link understanding.

use vstd::prelude::*;
use vstd::utf8::*;
use scraper::{ElementRef, Html, Selector};

use crate::text::{char_is_whitespace, chars_of, concat, is_white_space, string_from_chars, views, join_strings, joined};

verus! {

/// Extracted page content.
#[derive(Debug, Clone)]
pub struct LinkContent {
    /// Original URL
    pub url: String,
    /// Page title
    pub title: Option<String>,
    /// Extracted readable text
    pub text: String,
    /// Content length (bytes) before truncation
    pub original_length: usize,
}

/// Whitespace collapsing, as a left-to-right scan: the output so far, whether the
/// last input was a newline run, and whether it was a run of other whitespace.
pub open spec fn collapse(s: Seq<char>) -> (Seq<char>, bool, bool)
    decreases s.len(),
{
    if s.len() == 0 {
        (Seq::empty(), false, false)
    } else {
        let (out, nl, sp) = collapse(s.drop_last());
        let ch = s.last();
        if ch == '\n' {
            (if !nl { out.push('\n') } else { out }, true, false)
        } else if is_white_space(ch) {
            (if !sp && !nl { out.push(' ') } else { out }, nl, true)
        } else {
            (out.push(ch), false, false)
        }
    }
}

/// The sequence without its trailing whitespace.
pub open spec fn trim_end(s: Seq<char>) -> Seq<char>
    decreases s.len(),
{
    if s.len() > 0 && is_white_space(s.last()) {
        trim_end(s.drop_last())
    } else {
        s
    }
}

/// The sequence without its leading whitespace.
pub open spec fn trim_start(s: Seq<char>) -> Seq<char>
    decreases s.len(),
{
    if s.len() > 0 && is_white_space(s[0]) {
        trim_start(s.drop_first())
    } else {
        s
    }
}

/// The sequence without leading and trailing whitespace (`str::trim`).
pub open spec fn trimmed(s: Seq<char>) -> Seq<char> {
    trim_start(trim_end(s))
}

/// Runs of whitespace collapsed (newline runs to one newline, other runs to one
/// space, spaces right after a newline dropped), then trimmed.
pub open spec fn normalized(s: Seq<char>) -> Seq<char> {
    trimmed(collapse(s).0)
}

/// Trim both ends of a character vector.
fn trim_chars(v: &Vec<char>) -> (r: Vec<char>)
    ensures
        r@ == trimmed(v@),
{
    let mut b: usize = v.len();
    proof {
        assert(v@.subrange(0, b as int) =~= v@);
    }
    while b > 0 && char_is_whitespace(v[b - 1])
        invariant
            b <= v@.len(),
            trim_end(v@) == trim_end(v@.subrange(0, b as int)),
        decreases b,
    {
        proof {
            assert(v@.subrange(0, b - 1) =~= v@.subrange(0, b as int).drop_last());
        }
        b = b - 1;
    }
    let ghost t = v@.subrange(0, b as int);
    proof {
        assert(trim_end(t) == t);
    }
    let mut a: usize = 0;
    proof {
        assert(t.subrange(0, b as int) =~= t);
    }
    while a < b && char_is_whitespace(v[a])
        invariant
            a <= b,
            b <= v@.len(),
            t == v@.subrange(0, b as int),
            trim_start(t) == trim_start(t.subrange(a as int, b as int)),
        decreases b - a,
    {
        proof {
            assert(t.subrange(a + 1, b as int) =~= t.subrange(a as int, b as int).drop_first());
        }
        a = a + 1;
    }
    let mut out: Vec<char> = Vec::new();
    let mut i: usize = a;
    while i < b
        invariant
            a <= i <= b,
            b <= v@.len(),
            out@ == v@.subrange(a as int, i as int),
        decreases b - i,
    {
        out.push(v[i]);
        proof {
            assert(out@ =~= v@.subrange(a as int, i + 1));
        }
        i = i + 1;
    }
    proof {
        assert(t.subrange(a as int, b as int) =~= out@);
        assert(trim_start(out@) == out@);
    }
    out
}

/// The whitespace of a text is only single spaces and single newlines: no other
/// whitespace character, no whitespace followed by a space, no newline followed by a
/// newline.
pub open spec fn tidy_whitespace(o: Seq<char>) -> bool {
    &&& forall|i: int| 0 <= i < o.len() ==> (#[trigger] o[i] == ' ' || o[i] == '\n' || !is_white_space(o[i]))
    &&& forall|i: int, j: int|
        #![trigger o[i], o[j]]
        0 <= i && j == i + 1 && j < o.len() && is_white_space(o[i]) ==> o[j] != ' '
    &&& forall|i: int, j: int|
        #![trigger o[i], o[j]]
        0 <= i && j == i + 1 && j < o.len() && o[i] == '\n' ==> o[j] != '\n'
}

/// The scan's output is tidy, and its flags tell what it ends with.
proof fn lemma_collapse_tidy(s: Seq<char>)
    ensures
        ({
            let (o, nl, sp) = collapse(s);
            &&& tidy_whitespace(o)
            &&& nl ==> o.len() > 0 && o.last() == '\n'
            &&& (!nl && sp) ==> o.len() > 0 && o.last() == ' '
            &&& (!nl && !sp) ==> (o.len() == 0 || !is_white_space(o.last()))
        }),
    decreases s.len(),
{
    if s.len() > 0 {
        lemma_collapse_tidy(s.drop_last());
        let (o, nl, sp) = collapse(s.drop_last());
        let ch = s.last();
        assert(is_white_space(' ') && is_white_space('\n'));
        let (o2, nl2, sp2) = collapse(s);
        if o2 != o {
            assert(o2 == o.push(o2.last()));
            assert forall|i: int| 0 <= i < o2.len() implies (#[trigger] o2[i] == ' ' || o2[i] == '\n'
                || !is_white_space(o2[i])) by {
                if i < o.len() {
                    assert(o2[i] == o[i]);
                }
            }
            assert forall|i: int, j: int|
                #![trigger o2[i], o2[j]]
                0 <= i && j == i + 1 && j < o2.len() && is_white_space(o2[i]) implies o2[j] != ' ' by {
                if j < o.len() {
                    assert(o2[i] == o[i] && o2[j] == o[j]);
                } else {
                    assert(o2[i] == o.last());
                }
            }
            assert forall|i: int, j: int|
                #![trigger o2[i], o2[j]]
                0 <= i && j == i + 1 && j < o2.len() && o2[i] == '\n' implies o2[j] != '\n' by {
                if j < o.len() {
                    assert(o2[i] == o[i] && o2[j] == o[j]);
                } else {
                    assert(o2[i] == o.last());
                }
            }
        }
    }
}

/// Removing trailing whitespace keeps a prefix and leaves no whitespace at the end.
proof fn lemma_trim_end(x: Seq<char>)
    ensures
        trim_end(x).len() <= x.len(),
        trim_end(x) == x.subrange(0, trim_end(x).len() as int),
        trim_end(x).len() > 0 ==> !is_white_space(trim_end(x).last()),
        forall|i: int| trim_end(x).len() <= i < x.len() ==> is_white_space(#[trigger] x[i]),
    decreases x.len(),
{
    if x.len() > 0 && is_white_space(x.last()) {
        lemma_trim_end(x.drop_last());
        assert forall|i: int| trim_end(x).len() <= i < x.len() implies is_white_space(#[trigger] x[i]) by {
            if i < x.len() - 1 {
                assert(x[i] == x.drop_last()[i]);
            }
        }
        assert(x.drop_last().subrange(0, trim_end(x).len() as int) =~= x.subrange(0, trim_end(x).len() as int));
    } else {
        assert(x.subrange(0, x.len() as int) =~= x);
    }
}

/// Removing leading whitespace keeps a suffix and leaves no whitespace at the start.
proof fn lemma_trim_start(y: Seq<char>)
    ensures
        trim_start(y).len() <= y.len(),
        trim_start(y) == y.subrange(y.len() - trim_start(y).len(), y.len() as int),
        trim_start(y).len() > 0 ==> !is_white_space(trim_start(y)[0]),
        forall|i: int| 0 <= i < y.len() - trim_start(y).len() ==> is_white_space(#[trigger] y[i]),
    decreases y.len(),
{
    if y.len() > 0 && is_white_space(y[0]) {
        lemma_trim_start(y.drop_first());
        assert forall|i: int| 0 <= i < y.len() - trim_start(y).len() implies is_white_space(#[trigger] y[i]) by {
            if i > 0 {
                assert(y[i] == y.drop_first()[i - 1]);
            }
        }
        assert(y.drop_first().subrange(y.len() - 1 - trim_start(y).len(), y.len() - 1) =~= y.subrange(
            y.len() - trim_start(y).len(),
            y.len() as int,
        ));
    } else {
        assert(y.subrange(0, y.len() as int) =~= y);
    }
}

/// A piece of a tidy text is tidy.
proof fn lemma_tidy_subrange(o: Seq<char>, a: int, b: int)
    requires
        tidy_whitespace(o),
        0 <= a <= b <= o.len(),
    ensures
        tidy_whitespace(o.subrange(a, b)),
{
    let p = o.subrange(a, b);
    assert forall|i: int| 0 <= i < p.len() implies (#[trigger] p[i] == ' ' || p[i] == '\n' || !is_white_space(p[i])) by {
        assert(p[i] == o[a + i]);
    }
    assert forall|i: int, j: int|
        #![trigger p[i], p[j]]
        0 <= i && j == i + 1 && j < p.len() && is_white_space(p[i]) implies p[j] != ' ' by {
        assert(p[i] == o[a + i] && p[j] == o[a + j]);
    }
    assert forall|i: int, j: int|
        #![trigger p[i], p[j]]
        0 <= i && j == i + 1 && j < p.len() && p[i] == '\n' implies p[j] != '\n' by {
        assert(p[i] == o[a + i] && p[j] == o[a + j]);
    }
}

/// Normalized text holds no whitespace but single spaces and single newlines: every
/// whitespace character of it is ' ' or '\n', no whitespace character is followed by a
/// space, no newline by a newline, and it neither starts nor ends with whitespace.
pub proof fn normalized_whitespace_law(s: Seq<char>)
    ensures
        ({
            let r = normalized(s);
            &&& forall|i: int| 0 <= i < r.len() ==> (#[trigger] r[i] == ' ' || r[i] == '\n' || !is_white_space(r[i]))
            &&& forall|i: int, j: int|
                #![trigger r[i], r[j]]
                0 <= i && j == i + 1 && j < r.len() && is_white_space(r[i]) ==> r[j] != ' '
            &&& forall|i: int, j: int|
                #![trigger r[i], r[j]]
                0 <= i && j == i + 1 && j < r.len() && r[i] == '\n' ==> r[j] != '\n'
            &&& r.len() > 0 ==> !is_white_space(r[0]) && !is_white_space(r.last())
        }),
{
    lemma_collapse_tidy(s);
    let o = collapse(s).0;
    lemma_trim_end(o);
    let e = trim_end(o);
    lemma_tidy_subrange(o, 0, e.len() as int);
    lemma_trim_start(e);
    let r = trim_start(e);
    lemma_tidy_subrange(e, e.len() - r.len(), e.len() as int);
    if r.len() > 0 {
        assert(r.last() == e.last());
    }
}

/// A character that is not whitespace.
pub open spec fn non_white(c: char) -> bool {
    !is_white_space(c)
}

/// The scan keeps the other characters, in order.
proof fn lemma_collapse_keeps(s: Seq<char>)
    ensures
        collapse(s).0.filter(|c: char| non_white(c)) == s.filter(|c: char| non_white(c)),
    decreases s.len(),
{
    let pred = |c: char| non_white(c);
    if s.len() == 0 {
        assert(collapse(s).0 =~= s);
    } else {
        let d = s.drop_last();
        lemma_collapse_keeps(d);
        assert(d.push(s.last()) =~= s);
        d.lemma_filter_push(s.last(), pred);
        let o = collapse(d).0;
        let o2 = collapse(s).0;
        assert(is_white_space(' ') && is_white_space('\n'));
        if o2 != o {
            o.lemma_filter_push(o2.last(), pred);
            assert(o.push(o2.last()) =~= o2);
        }
    }
}

/// Filtering drops a sequence none of whose elements qualifies.
proof fn lemma_filter_drops_all(x: Seq<char>, pred: spec_fn(char) -> bool)
    requires
        forall|i: int| 0 <= i < x.len() ==> !pred(#[trigger] x[i]),
    ensures
        x.filter(pred) == Seq::<char>::empty(),
    decreases x.len(),
{
    if x.len() == 0 {
        assert(x =~= Seq::<char>::empty());
        Seq::<char>::empty().lemma_filter_len(pred);
    } else {
        let d = x.drop_last();
        assert forall|i: int| 0 <= i < d.len() implies !pred(#[trigger] d[i]) by {
            assert(d[i] == x[i]);
        }
        lemma_filter_drops_all(d, pred);
        d.lemma_filter_push(x.last(), pred);
        assert(d.push(x.last()) =~= x);
    }
}

/// Trimming keeps the other characters, in order.
proof fn lemma_trimmed_keeps(x: Seq<char>)
    ensures
        trimmed(x).filter(|c: char| non_white(c)) == x.filter(|c: char| non_white(c)),
{
    let pred = |c: char| non_white(c);
    lemma_trim_end(x);
    let e = trim_end(x);
    let tail = x.subrange(e.len() as int, x.len() as int);
    assert(x =~= e + tail);
    assert forall|i: int| 0 <= i < tail.len() implies !pred(#[trigger] tail[i]) by {
        assert(tail[i] == x[e.len() + i]);
    }
    lemma_filter_drops_all(tail, pred);
    Seq::filter_distributes_over_add(e, tail, pred);
    assert(e + Seq::<char>::empty() =~= e);
    lemma_trim_start(e);
    let r = trim_start(e);
    let head = e.subrange(0, e.len() - r.len());
    assert(e =~= head + r);
    assert forall|i: int| 0 <= i < head.len() implies !pred(#[trigger] head[i]) by {
        assert(head[i] == e[i]);
    }
    lemma_filter_drops_all(head, pred);
    Seq::filter_distributes_over_add(head, r, pred);
    assert(Seq::<char>::empty() + r.filter(pred) =~= r.filter(pred));
}

/// Normalizing keeps every character that is not whitespace, in order.
pub proof fn normalized_keeps_text_law(s: Seq<char>)
    ensures
        normalized(s).filter(|c: char| non_white(c)) == s.filter(|c: char| non_white(c)),
{
    lemma_collapse_keeps(s);
    lemma_trimmed_keeps(collapse(s).0);
}

/// Scanning text without whitespace appends it and ends outside any run.
proof fn lemma_collapse_word(x: Seq<char>, y: Seq<char>)
    requires
        forall|i: int| 0 <= i < y.len() ==> !is_white_space(#[trigger] y[i]),
    ensures
        collapse(x + y).0 == collapse(x).0 + y,
        y.len() > 0 ==> !collapse(x + y).1 && !collapse(x + y).2,
        y.len() == 0 ==> collapse(x + y) == collapse(x),
    decreases y.len(),
{
    if y.len() == 0 {
        assert(x + y =~= x);
        assert(collapse(x).0 + y =~= collapse(x).0);
    } else {
        let d = y.drop_last();
        assert forall|i: int| 0 <= i < d.len() implies !is_white_space(#[trigger] d[i]) by {
            assert(d[i] == y[i]);
        }
        lemma_collapse_word(x, d);
        assert((x + y).drop_last() =~= x + d);
        assert((x + y).last() == y.last());
        assert(!is_white_space(y.last()));
        assert(is_white_space('\n'));
        assert(collapse(x).0 + d.push(y.last()) =~= (collapse(x).0 + d).push(y.last()));
        assert(d.push(y.last()) =~= y);
    }
}

/// Scanning a run of whitespace without newlines, after a non-whitespace character,
/// appends one space.
proof fn lemma_collapse_run(x: Seq<char>, w: Seq<char>)
    requires
        !collapse(x).1,
        !collapse(x).2,
        w.len() > 0,
        forall|i: int| 0 <= i < w.len() ==> is_white_space(#[trigger] w[i]) && w[i] != '\n',
    ensures
        collapse(x + w) == (collapse(x).0.push(' '), false, true),
    decreases w.len(),
{
    let d = w.drop_last();
    assert((x + w).drop_last() =~= x + d);
    assert((x + w).last() == w.last());
    if d.len() == 0 {
        assert(x + d =~= x);
    } else {
        assert forall|i: int| 0 <= i < d.len() implies is_white_space(#[trigger] d[i]) && d[i] != '\n' by {
            assert(d[i] == w[i]);
        }
        lemma_collapse_run(x, d);
    }
}

/// After a newline, scanning whitespace changes nothing and stays inside the
/// newline run.
proof fn lemma_collapse_after_newline(x: Seq<char>, w: Seq<char>)
    requires
        collapse(x).1,
        forall|i: int| 0 <= i < w.len() ==> is_white_space(#[trigger] w[i]),
    ensures
        collapse(x + w).0 == collapse(x).0,
        collapse(x + w).1,
    decreases w.len(),
{
    if w.len() == 0 {
        assert(x + w =~= x);
    } else {
        let d = w.drop_last();
        assert forall|i: int| 0 <= i < d.len() implies is_white_space(#[trigger] d[i]) by {
            assert(d[i] == w[i]);
        }
        lemma_collapse_after_newline(x, d);
        assert((x + w).drop_last() =~= x + d);
        assert((x + w).last() == w.last());
    }
}

/// A whitespace run that starts with a newline, between two words, becomes one
/// newline: for non-empty `a` and `b` without whitespace and a run `w` of whitespace
/// whose first character is '\n', the text `a + w + b` normalizes to `a + "\n" + b`.
pub proof fn normalized_newline_run_law(a: Seq<char>, w: Seq<char>, b: Seq<char>)
    requires
        a.len() > 0,
        b.len() > 0,
        forall|i: int| 0 <= i < a.len() ==> !is_white_space(#[trigger] a[i]),
        forall|i: int| 0 <= i < b.len() ==> !is_white_space(#[trigger] b[i]),
        w.len() > 0,
        w[0] == '\n',
        forall|i: int| 0 <= i < w.len() ==> is_white_space(#[trigger] w[i]),
    ensures
        normalized(a + w + b) == a + seq!['\n'] + b,
{
    let e = Seq::<char>::empty();
    lemma_collapse_word(e, a);
    assert(e + a =~= a);
    assert(collapse(e).0 + a =~= a);
    let first = seq!['\n'];
    assert((a + first).drop_last() =~= a);
    assert((a + first).last() == '\n');
    assert(collapse(a + first) == (a.push('\n'), true, false));
    let rest = w.drop_first();
    assert forall|i: int| 0 <= i < rest.len() implies is_white_space(#[trigger] rest[i]) by {
        assert(rest[i] == w[i + 1]);
    }
    lemma_collapse_after_newline(a + first, rest);
    assert(a + first + rest =~= a + w);
    lemma_collapse_word(a + w, b);
    let o = a.push('\n') + b;
    assert(collapse(a + w + b).0 == o);
    assert(o =~= a + seq!['\n'] + b);
    assert(o.last() == b.last());
    assert(o[0] == a[0]);
    lemma_trim_end(o);
    assert(trim_end(o) == o);
    lemma_trim_start(o);
    assert(trim_start(o) == o);
}

/// A run of whitespace without newlines between two words becomes one space: for
/// non-empty `a` and `b` without whitespace and a non-empty run `w` of whitespace other
/// than newlines, the text `a + w + b` normalizes to `a + " " + b`.
pub proof fn normalized_run_law(a: Seq<char>, w: Seq<char>, b: Seq<char>)
    requires
        a.len() > 0,
        b.len() > 0,
        forall|i: int| 0 <= i < a.len() ==> !is_white_space(#[trigger] a[i]),
        forall|i: int| 0 <= i < b.len() ==> !is_white_space(#[trigger] b[i]),
        w.len() > 0,
        forall|i: int| 0 <= i < w.len() ==> is_white_space(#[trigger] w[i]) && w[i] != '\n',
    ensures
        normalized(a + w + b) == a + seq![' '] + b,
{
    let e = Seq::<char>::empty();
    lemma_collapse_word(e, a);
    assert(e + a =~= a);
    assert(collapse(e).0 + a =~= a);
    lemma_collapse_run(a, w);
    let o1 = a.push(' ');
    lemma_collapse_word(a + w, b);
    let o = o1 + b;
    assert(collapse(a + w + b).0 == o);
    assert(o =~= a + seq![' '] + b);
    assert(o.last() == b.last());
    assert(o[0] == a[0]);
    lemma_trim_end(o);
    assert(trim_end(o) == o);
    lemma_trim_start(o);
    assert(trim_start(o) == o);
}

/// Collapse multiple whitespace/newlines into single spaces/newlines, then trim.
pub fn normalize_whitespace(text: &str) -> (r: String)
    ensures
        r@ == normalized(text@),
{
    let cs = chars_of(text);
    let mut result: Vec<char> = Vec::new();
    let mut prev_newline = false;
    let mut prev_space = false;
    let mut i: usize = 0;
    while i < cs.len()
        invariant
            cs@ == text@,
            i <= cs@.len(),
            (result@, prev_newline, prev_space) == collapse(cs@.subrange(0, i as int)),
        decreases cs@.len() - i,
    {
        let ch = cs[i];
        proof {
            assert(cs@.subrange(0, i as int) =~= cs@.subrange(0, i + 1).drop_last());
        }
        if ch == '\n' {
            if !prev_newline {
                result.push('\n');
            }
            prev_newline = true;
            prev_space = false;
        } else if char_is_whitespace(ch) {
            if !prev_space && !prev_newline {
                result.push(' ');
            }
            prev_space = true;
        } else {
            result.push(ch);
            prev_newline = false;
            prev_space = false;
        }
        i = i + 1;
    }
    proof {
        assert(cs@.subrange(0, cs@.len() as int) =~= cs@);
    }
    let t = trim_chars(&result);
    string_from_chars(t.as_slice())
}

/// Index of the last space in `t`, or -1.
pub open spec fn last_space(t: Seq<char>) -> int
    decreases t.len(),
{
    if t.len() == 0 {
        -1
    } else if t.last() == ' ' {
        t.len() - 1
    } else {
        last_space(t.drop_last())
    }
}

/// Word-boundary truncation to `max_len` characters: unchanged when it fits;
/// otherwise cut to its first `max_len` characters, then back to the last space in
/// that prefix if there is one, and "..." appended.
pub open spec fn truncated(text: Seq<char>, max_len: int) -> Seq<char> {
    if text.len() <= max_len {
        text
    } else {
        let prefix = text.take(max_len);
        let cut = if last_space(prefix) >= 0 { last_space(prefix) } else { max_len };
        text.take(cut) + "..."@
    }
}

/// Truncate text at the nearest word boundary before `max_len` characters.
pub fn truncate_at_word_boundary(text: &str, max_len: usize) -> (r: String)
    ensures
        r@ == truncated(text@, max_len as int),
{
    let cs = chars_of(text);
    if cs.len() <= max_len {
        return String::from_str(text);
    }
    let ghost prefix = cs@.take(max_len as int);
    let mut j: usize = max_len;
    proof {
        assert(prefix.take(j as int) =~= prefix);
    }
    while j > 0 && cs[j - 1] != ' '
        invariant
            j <= max_len,
            max_len < cs@.len(),
            prefix == cs@.take(max_len as int),
            last_space(prefix) == last_space(prefix.take(j as int)),
        decreases j,
    {
        proof {
            assert(prefix.take(j - 1) =~= prefix.take(j as int).drop_last());
        }
        j = j - 1;
    }
    let cut: usize;
    if j > 0 {
        cut = j - 1;
        proof {
            assert(prefix.take(j as int).last() == ' ');
        }
    } else {
        cut = max_len;
        proof {
            assert(prefix.take(0) =~= Seq::<char>::empty());
        }
    }
    let mut out: Vec<char> = Vec::new();
    let mut k: usize = 0;
    while k < cut
        invariant
            k <= cut <= max_len < cs@.len(),
            out@ == cs@.take(k as int),
        decreases cut - k,
    {
        out.push(cs[k]);
        proof {
            assert(cs@.take(k + 1) =~= cs@.take(k as int).push(cs@[k as int]));
        }
        k = k + 1;
    }
    let head = string_from_chars(out.as_slice());
    concat(head.as_str(), "...")
}

/// Trim a string at both ends (`str::trim`).
pub fn trim_str(s: &str) -> (r: String)
    ensures
        r@ == trimmed(s@),
{
    let cs = chars_of(s);
    let t = trim_chars(&cs);
    string_from_chars(t.as_slice())
}

/// The text blocks of a page, each trimmed, the empty ones dropped.
pub open spec fn kept_blocks(blocks: Seq<Seq<char>>) -> Seq<Seq<char>>
    decreases blocks.len(),
{
    if blocks.len() == 0 {
        Seq::empty()
    } else {
        let rest = kept_blocks(blocks.drop_last());
        let t = trimmed(blocks.last());
        if t.len() == 0 {
            rest
        } else {
            rest.push(t)
        }
    }
}

/// The readable text of a page from the text of its content blocks, in document order:
/// each trimmed, empty ones dropped, joined by newlines.
pub fn page_text(blocks: &Vec<String>) -> (r: String)
    ensures
        r@ == joined(kept_blocks(views(blocks@)), "\n"@),
{
    let mut kept: Vec<String> = Vec::new();
    let mut i: usize = 0;
    while i < blocks.len()
        invariant
            i <= blocks@.len(),
            views(kept@) == kept_blocks(views(blocks@).take(i as int)),
        decreases blocks@.len() - i,
    {
        proof {
            assert(views(blocks@).take(i + 1).drop_last() =~= views(blocks@).take(i as int));
            assert(views(blocks@).take(i + 1).last() == blocks@[i as int]@);
        }
        let t = trim_str(blocks[i].as_str());
        if !t.as_str().is_empty() {
            kept.push(t);
            proof {
                assert(views(kept@) =~= kept_blocks(views(blocks@).take(i as int)).push(trimmed(blocks@[i as int]@)));
            }
        }
        i = i + 1;
    }
    proof {
        assert(views(blocks@).take(blocks@.len() as int) =~= views(blocks@));
    }
    join_strings(&kept, "\n")
}

/// The content of a page: its title trimmed, its text normalized and, when longer than
/// `max_length` characters, cut at a word boundary; the length is the byte length of the
/// normalized text.
pub fn content_from_page(url: &str, title: Option<String>, blocks: &Vec<String>, max_length: usize) -> (r:
    LinkContent)
    ensures
        ({
            let text = normalized(joined(kept_blocks(views(blocks@)), "\n"@));
            &&& r.url@ == url@
            &&& match title {
                Some(t) => r.title is Some && (r.title->0)@ == trimmed(t@),
                None => r.title is None,
            }
            &&& r.original_length == encode_utf8(text).len()
            &&& r.text@ == truncated(text, max_length as int)
        }),
{
    let title = match title {
        Some(t) => Some(trim_str(t.as_str())),
        None => None,
    };
    let raw = page_text(blocks);
    let cleaned = normalize_whitespace(raw.as_str());
    let original_length = cleaned.as_str().as_bytes().len();
    let text = truncate_at_word_boundary(cleaned.as_str(), max_length);
    LinkContent { url: String::from_str(url), title, text, original_length }
}

/// What a child node of an HTML element is, as plain values: whether it is an element,
/// for an element whether each probe selector matches it (`None` for a selector that
/// does not parse), and its text (for an element all the text inside it; `None` for a
/// node that is neither an element nor text, such as a comment).
pub type ChildInfo = (bool, Seq<Option<bool>>, Option<Seq<char>>);

/// What an HTML document holds under the first element that a CSS selector matches:
/// its child nodes in document order, each with the matches of the `probes` selectors.
/// `None` when the selector does not parse or matches no element.
pub uninterp spec fn html_children_under(html: Seq<char>, selector: Seq<char>, probes: Seq<Seq<char>>) -> Option<
    Seq<ChildInfo>,
>;

/// The text of the first element of an HTML document that a CSS selector matches;
/// `None` when the selector does not parse or matches nothing.
pub uninterp spec fn html_first_text(html: Seq<char>, selector: Seq<char>) -> Option<Seq<char>>;

/// A child node of an HTML element.
#[derive(Debug, Clone)]
pub enum HtmlChild {
    /// An element: whether each probe selector matches it (`None` when the selector
    /// does not parse), and all the text inside it
    Element(Vec<Option<bool>>, String),
    /// A text node
    Text(String),
    /// Any other node (a comment, a processing instruction)
    Other,
}

/// A child node as plain values.
pub open spec fn child_info(c: HtmlChild) -> ChildInfo {
    match c {
        HtmlChild::Element(m, t) => (true, m@, Some(t@)),
        HtmlChild::Text(t) => (false, Seq::empty(), Some(t@)),
        HtmlChild::Other => (false, Seq::empty(), None),
    }
}

/// A list of child nodes as plain values.
pub open spec fn children_info(v: Seq<HtmlChild>) -> Seq<ChildInfo> {
    v.map_values(|c: HtmlChild| child_info(c))
}

/// The child nodes, one for one, of the first element matching `selector` in the
/// document parsed by `scraper::Html::parse_document`: `ElementRef::wrap` and
/// `Node::as_text` tell the kinds apart, `Selector::matches` gives each probe's match
/// and `ElementRef::text` an element's text.
#[verifier::external_body]
fn html_first_children(html: &str, selector: &str, probes: &Vec<String>) -> (r: Option<Vec<HtmlChild>>)
    ensures
        match r {
            Some(v) => html_children_under(html@, selector@, views(probes@)) == Some(children_info(v@)),
            None => html_children_under(html@, selector@, views(probes@)) is None,
        },
{
    let doc = Html::parse_document(html);
    let sel = Selector::parse(selector).ok()?;
    let ps: Vec<_> = probes.iter().map(|s| Selector::parse(s).ok()).collect();
    Some(doc.select(&sel).next()?.children().map(|n| match (ElementRef::wrap(n), n.value().as_text()) {
        (Some(el), _) => HtmlChild::Element(ps.iter().map(|p| p.as_ref().map(|p| p.matches(&el))).collect(), el.text().collect()),
        (None, Some(t)) => HtmlChild::Text(t.to_string()),
        _ => HtmlChild::Other,
    }).collect())
}

/// The text (`ElementRef::text`, concatenated) of the first element matching `selector`
/// in the document parsed by `scraper::Html::parse_document`.
#[verifier::external_body]
fn html_first_element_text(html: &str, selector: &str) -> (r: Option<String>)
    ensures
        match r {
            Some(s) => html_first_text(html@, selector@) == Some(s@),
            None => html_first_text(html@, selector@) is None,
        },
{
    let doc = Html::parse_document(html);
    let sel = Selector::parse(selector).ok()?;
    match doc.select(&sel).next() {
        Some(el) => Some(el.text().collect()),
        None => None,
    }
}

/// Where the main content of a page is looked for, in order.
pub open spec fn content_selectors() -> Seq<Seq<char>> {
    seq!["article"@, "main"@, "[role=main]"@, ".content"@, ".post"@, "#content"@]
}

/// Elements whose text is not part of the readable content.
pub open spec fn skip_selectors() -> Seq<Seq<char>> {
    seq![
        "script"@,
        "style"@,
        "noscript"@,
        "nav"@,
        "header"@,
        "footer"@,
        "aside"@,
        "iframe"@,
        "svg"@,
        "form"@,
        "[role=navigation]"@,
        "[role=banner]"@,
        "[role=contentinfo]"@,
        ".nav"@,
        ".menu"@,
        ".sidebar"@,
        ".footer"@,
        ".header"@,
        ".cookie-banner"@,
        ".advertisement"@,
    ]
}

/// The children under the first of `sels` that matches an element of the document.
pub open spec fn first_content(html: Seq<char>, sels: Seq<Seq<char>>) -> Option<Seq<ChildInfo>>
    decreases sels.len(),
{
    if sels.len() == 0 {
        None
    } else {
        match html_children_under(html, sels[0], skip_selectors()) {
            Some(c) => Some(c),
            None => first_content(html, sels.drop_first()),
        }
    }
}

/// Some probe selector matches.
pub open spec fn matched_any(m: Seq<Option<bool>>) -> bool {
    exists|i: int| 0 <= i < m.len() && m[i] == Some(true)
}

/// The text a child contributes: an element that a skip selector matches, and a node
/// that is neither an element nor text, contribute nothing.
pub open spec fn child_block(c: ChildInfo) -> Option<Seq<char>> {
    if c.0 && matched_any(c.1) {
        None
    } else {
        c.2
    }
}

/// The texts the children contribute, in order.
pub open spec fn unskipped(v: Seq<ChildInfo>) -> Seq<Seq<char>>
    decreases v.len(),
{
    if v.len() == 0 {
        Seq::empty()
    } else {
        match child_block(v.last()) {
            Some(t) => unskipped(v.drop_last()).push(t),
            None => unskipped(v.drop_last()),
        }
    }
}

/// The content blocks of a page: the children of the first content element found,
/// otherwise of `body`, otherwise none; skipped elements left out.
pub open spec fn page_blocks(html: Seq<char>) -> Seq<Seq<char>> {
    match first_content(html, content_selectors()) {
        Some(c) => unskipped(c),
        None => match html_children_under(html, "body"@, skip_selectors()) {
            Some(c) => unskipped(c),
            None => Seq::empty(),
        },
    }
}

/// A list of strings built from literals.
fn strings_of(v: &Vec<&str>) -> (r: Vec<String>)
    ensures
        views(r@) == v@.map_values(|s: &str| s@),
{
    let mut out: Vec<String> = Vec::new();
    let mut i: usize = 0;
    while i < v.len()
        invariant
            i <= v@.len(),
            out@.len() == i,
            views(out@) == v@.map_values(|s: &str| s@).take(i as int),
        decreases v@.len() - i,
    {
        let ghost before = out@;
        out.push(String::from_str(v[i]));
        proof {
            assert(out@ == before.push(out@[i as int]));
            assert(out@[i as int]@ == v@[i as int]@);
            assert(views(out@) =~= views(before).push(v@[i as int]@));
            assert(views(out@) =~= v@.map_values(|s: &str| s@).take(i + 1));
        }
        i = i + 1;
    }
    proof {
        assert(v@.map_values(|s: &str| s@).take(v@.len() as int) =~= v@.map_values(|s: &str| s@));
    }
    out
}

/// Whether some probe selector matched.
fn any_match(m: &Vec<Option<bool>>) -> (b: bool)
    ensures
        b == matched_any(m@),
{
    let mut i: usize = 0;
    while i < m.len()
        invariant
            i <= m@.len(),
            forall|k: int| 0 <= k < i ==> m@[k] != Some(true),
        decreases m@.len() - i,
    {
        if let Some(true) = m[i] {
            return true;
        }
        i = i + 1;
    }
    false
}

/// The texts the children contribute.
fn unskipped_texts(v: &Vec<HtmlChild>) -> (r: Vec<String>)
    ensures
        views(r@) == unskipped(children_info(v@)),
{
    let mut out: Vec<String> = Vec::new();
    let mut i: usize = 0;
    while i < v.len()
        invariant
            i <= v@.len(),
            views(out@) == unskipped(children_info(v@).take(i as int)),
        decreases v@.len() - i,
    {
        proof {
            assert(children_info(v@).take(i + 1).drop_last() =~= children_info(v@).take(i as int));
            assert(children_info(v@).take(i + 1).last() == child_info(v@[i as int]));
        }
        let block: Option<String> = match &v[i] {
            HtmlChild::Element(m, t) => if any_match(m) {
                None
            } else {
                Some(t.clone())
            },
            HtmlChild::Text(t) => Some(t.clone()),
            HtmlChild::Other => None,
        };
        match block {
            Some(b) => {
                out.push(b);
                proof {
                    assert(views(out@) =~= unskipped(children_info(v@).take(i as int)).push(
                        child_block(child_info(v@[i as int]))->0,
                    ));
                }
            },
            None => {},
        }
        i = i + 1;
    }
    proof {
        assert(children_info(v@).take(v@.len() as int) =~= children_info(v@));
    }
    out
}

/// Extract readable text content from HTML: the title, and the text of the main
/// content (the first element matching one of the content selectors, else `body`)
/// with navigation, scripts, styles and other non-content children left out,
/// normalized and truncated to `max_length` characters at a word boundary.
pub fn extract_content(url: &str, html: &str, max_length: usize) -> (r: LinkContent)
    ensures
        ({
            let text = normalized(joined(kept_blocks(page_blocks(html@)), "\n"@));
            &&& r.url@ == url@
            &&& match html_first_text(html@, "title"@) {
                Some(t) => r.title is Some && (r.title->0)@ == trimmed(t),
                None => r.title is None,
            }
            &&& r.original_length == encode_utf8(text).len()
            &&& r.text@ == truncated(text, max_length as int)
        }),
{
    let title = html_first_element_text(html, "title");
    let skip = strings_of(
        &vec![
            "script",
            "style",
            "noscript",
            "nav",
            "header",
            "footer",
            "aside",
            "iframe",
            "svg",
            "form",
            "[role=navigation]",
            "[role=banner]",
            "[role=contentinfo]",
            ".nav",
            ".menu",
            ".sidebar",
            ".footer",
            ".header",
            ".cookie-banner",
            ".advertisement",
        ],
    );
    let sels = strings_of(&vec!["article", "main", "[role=main]", ".content", ".post", "#content"]);
    proof {
        assert(views(skip@) =~= skip_selectors());
        assert(views(sels@) =~= content_selectors());
    }
    let ghost cs = content_selectors();
    let mut found: Option<Vec<HtmlChild>> = None;
    let mut i: usize = 0;
    proof {
        assert(cs.skip(0) =~= cs);
    }
    while i < sels.len() && found.is_none()
        invariant
            i <= sels@.len(),
            views(sels@) == cs,
            views(skip@) == skip_selectors(),
            cs == content_selectors(),
            match found {
                Some(v) => first_content(html@, cs) == Some(children_info(v@)),
                None => first_content(html@, cs) == first_content(html@, cs.skip(i as int)),
            },
        decreases sels@.len() - i,
    {
        let r = html_first_children(html, sels[i].as_str(), &skip);
        proof {
            assert(cs.skip(i as int)[0] == sels@[i as int]@);
            assert(cs.skip(i as int).drop_first() =~= cs.skip(i + 1));
        }
        found = r;
        i = i + 1;
    }
    proof {
        if found is None {
            assert(cs.skip(sels@.len() as int) =~= Seq::<Seq<char>>::empty());
        }
    }
    let blocks = match found {
        Some(v) => unskipped_texts(&v),
        None => match html_first_children(html, "body", &skip) {
            Some(v) => unskipped_texts(&v),
            None => Vec::new(),
        },
    };
    proof {
        assert(views(blocks@) =~= page_blocks(html@));
    }
    content_from_page(url, title, &blocks, max_length)
}

} // verus!
