//! Message routing and gating.
//!
//! Rules are evaluated in priority order (lower number first, ties in configured
//! order); the first enabled rule whose condition matches decides whether a message is
//! allowed, denied, redirected or rate-limited.

pub mod rules;

pub use rules::{
    default_enabled, default_priority, list_contains, list_has, MatchCondition, RoutingAction,
    RoutingRule,
};

use vstd::prelude::*;

use crate::text::str_eq;

verus! {

/// Result of evaluating routing rules against a message.
#[derive(Debug)]
pub enum RoutingDecision {
    /// Allow the message through
    Allow,
    /// Silently deny the message
    Deny,
    /// Deny and reply with the given message
    DenyWithReply(String),
    /// Redirect message to a specific agent
    RedirectToAgent(String),
    /// Message was rate-limited
    RateLimited,
}

/// Length of the rate-limit window, in nanoseconds (one minute).
pub const RATE_WINDOW_NANOS: u128 = 60_000_000_000;

/// Timestamps (nanoseconds on the engine's clock) of a sender's recent messages.
pub struct SenderWindow {
    pub sender: String,
    pub stamps: Vec<u128>,
}

/// std's monotonic clock reading, carried opaquely.
#[verifier::external_type_specification]
#[verifier::external_body]
pub struct ExInstant(std::time::Instant);

/// Wraps `Instant::now`. Nothing is stated of the reading.
#[verifier::external_body]
fn instant_now() -> std::time::Instant {
    std::time::Instant::now()
}

/// Wraps `Instant::elapsed`. Nothing is stated of the elapsed time.
#[verifier::external_body]
fn instant_elapsed(origin: &std::time::Instant) -> std::time::Duration {
    origin.elapsed()
}

/// Wraps `Duration::as_nanos`. The duration is opaque, so nothing is stated.
#[verifier::external_body]
fn duration_as_nanos(d: &std::time::Duration) -> u128 {
    d.as_nanos()
}

/// A timestamp is still inside the window ending at `now` (elapsed time saturates at
/// zero, as `Instant::duration_since` does).
pub open spec fn within_window(now: u128, t: u128) -> bool {
    (if now >= t { now - t } else { 0 }) < RATE_WINDOW_NANOS
}

/// The timestamps that remain inside the window ending at `now`, in order.
pub open spec fn pruned(stamps: Seq<u128>, now: u128) -> Seq<u128> {
    stamps.filter(|t: u128| within_window(now, t))
}

/// The recorded timestamps of `sender` (the last window kept for it).
pub open spec fn stamps_for(v: Seq<SenderWindow>, sender: Seq<char>) -> Seq<u128>
    decreases v.len(),
{
    if v.len() == 0 {
        Seq::empty()
    } else if v.last().sender@ == sender {
        v.last().stamps@
    } else {
        stamps_for(v.drop_last(), sender)
    }
}

/// Whether a rate-limited message is allowed, given the sender's prior timestamps:
/// fewer than `max` of them are still inside the window.
pub open spec fn rate_allows(prev: Seq<u128>, now: u128, max: u32) -> bool {
    pruned(prev, now).len() < max
}

/// The sender's timestamps after a rate-limit check at `now`: stale ones are dropped,
/// and `now` is recorded when the message is allowed.
pub open spec fn rate_after(prev: Seq<u128>, now: u128, max: u32) -> Seq<u128> {
    if rate_allows(prev, now, max) {
        pruned(prev, now).push(now)
    } else {
        pruned(prev, now)
    }
}

/// The rate limit is kept: when at most `max` of a sender's recorded messages are inside
/// the window, at most `max` are recorded after the next check, whether it is allowed
/// or not; and with a limit of zero nothing is allowed.
pub proof fn rate_window_bounded(prev: Seq<u128>, now: u128, max: u32)
    requires
        pruned(prev, now).len() <= max,
    ensures
        rate_after(prev, now, max).len() <= max,
        max == 0 ==> !rate_allows(prev, now, max),
{
}

/// A sender's recorded timestamps after rate-limit checks at each of `times`, in turn,
/// starting from none.
pub open spec fn rate_history(times: Seq<u128>, max: u32) -> Seq<u128>
    decreases times.len(),
{
    if times.len() == 0 {
        Seq::empty()
    } else {
        rate_after(rate_history(times.drop_last(), max), times.last(), max)
    }
}

/// The check at `times[k]` allows the message.
pub open spec fn allowed_at(times: Seq<u128>, max: u32, k: int) -> bool {
    rate_allows(rate_history(times.take(k), max), times[k], max)
}

/// The times of the allowed checks among those at indices `a` up to (not including) `b`.
pub open spec fn allowed_between(times: Seq<u128>, max: u32, a: int, b: int) -> Seq<u128>
    decreases b - a,
{
    if b <= a {
        Seq::empty()
    } else if allowed_at(times, max, b - 1) {
        allowed_between(times, max, a, b - 1).push(times[b - 1])
    } else {
        allowed_between(times, max, a, b - 1)
    }
}

/// Filtering keeps a sequence whose elements all qualify.
proof fn lemma_filter_keeps_all(s: Seq<u128>, pred: spec_fn(u128) -> bool)
    requires
        forall|i: int| 0 <= i < s.len() ==> pred(#[trigger] s[i]),
    ensures
        s.filter(pred) == s,
    decreases s.len(),
{
    if s.len() == 0 {
        reveal(Seq::filter);
    } else {
        let d = s.drop_last();
        assert forall|i: int| 0 <= i < d.len() implies pred(#[trigger] d[i]) by {
            assert(d[i] == s[i]);
        }
        lemma_filter_keeps_all(d, pred);
        d.lemma_filter_push(s.last(), pred);
        assert(d.push(s.last()) =~= s);
    }
}

/// Between `a` and `k`, with all those checks inside one window: the allowed times are
/// the latest of the recorded timestamps, they lie between `times[a]` and `times[k-1]`,
/// and there are at most `max` of them.
proof fn lemma_window_history(times: Seq<u128>, max: u32, a: int, k: int)
    requires
        0 <= a <= k <= times.len(),
        forall|i: int, j: int| 0 <= i <= j < times.len() ==> times[i] <= times[j],
        k > a ==> times[k - 1] - times[a] < RATE_WINDOW_NANOS,
    ensures
        exists|p: Seq<u128>| rate_history(times.take(k), max) == #[trigger] p.add(allowed_between(times, max, a, k)),
        allowed_between(times, max, a, k).len() <= max,
        forall|i: int|
            0 <= i < allowed_between(times, max, a, k).len() ==> times[a] <= #[trigger] allowed_between(
                times,
                max,
                a,
                k,
            )[i] && (k > a ==> allowed_between(times, max, a, k)[i] <= times[k - 1]),
    decreases k - a,
{
    let ab = allowed_between(times, max, a, k);
    if k == a {
        let p = rate_history(times.take(k), max);
        assert(p.add(ab) =~= p);
    } else {
        if k - 1 > a {
            assert(times[k - 2] <= times[k - 1]);
        }
        lemma_window_history(times, max, a, k - 1);
        let s = allowed_between(times, max, a, k - 1);
        let h = rate_history(times.take(k - 1), max);
        let p = choose|p: Seq<u128>| h == #[trigger] p.add(allowed_between(times, max, a, k - 1));
        let now = times[k - 1];
        assert(times.take(k).drop_last() =~= times.take(k - 1));
        assert(times.take(k).last() == now);
        assert(rate_history(times.take(k), max) == rate_after(h, now, max));
        let pred = |t: u128| within_window(now, t);
        Seq::filter_distributes_over_add(p, s, pred);
        assert forall|i: int| 0 <= i < s.len() implies pred(#[trigger] s[i]) by {
            assert(times[a] <= s[i]);
            if k - 1 > a {
                assert(s[i] <= times[k - 2]);
                assert(times[k - 2] <= now);
            }
        }
        lemma_filter_keeps_all(s, pred);
        assert(pruned(h, now) == p.filter(pred) + s);
        assert(times[a] <= now);
        if allowed_at(times, max, k - 1) {
            assert(ab == s.push(now));
            assert(rate_history(times.take(k), max) =~= p.filter(pred).add(ab));
            assert forall|i: int| 0 <= i < ab.len() implies times[a] <= #[trigger] ab[i] && ab[i] <= times[k - 1] by {
                if i < s.len() {
                    assert(ab[i] == s[i]);
                    if k - 1 > a {
                        assert(times[k - 2] <= now);
                    }
                }
            }
        } else {
            assert(ab == s);
            assert(rate_history(times.take(k), max) == p.filter(pred).add(ab));
            assert forall|i: int| 0 <= i < ab.len() implies times[a] <= #[trigger] ab[i] && ab[i] <= times[k - 1] by {
                if k - 1 > a {
                    assert(times[k - 2] <= now);
                }
            }
        }
    }
}

/// The rate limit holds over every window: for a sender whose checks come at the
/// non-decreasing `times`, at most `max` of the checks that fall within one window
/// (the first and last of them less than the window length apart) are allowed.
pub proof fn rate_limit_holds_over_window(times: Seq<u128>, max: u32, a: int, b: int)
    requires
        0 <= a <= b <= times.len(),
        forall|i: int, j: int| 0 <= i <= j < times.len() ==> times[i] <= times[j],
        b > a ==> times[b - 1] - times[a] < RATE_WINDOW_NANOS,
    ensures
        allowed_between(times, max, a, b).len() <= max,
{
    lemma_window_history(times, max, a, b);
}

/// Rule `r` fires for the message: it is enabled and its condition accepts the message.
pub open spec fn fires(
    r: RoutingRule,
    channel: Seq<char>,
    sender_id: Seq<char>,
    content: Seq<char>,
    is_dm: bool,
) -> bool {
    r.enabled && r.match_on.accepts(channel, sender_id, content, is_dm)
}

/// The decision a firing rule's action yields; for a rate limit, given the sender's
/// prior timestamps and the time of evaluation.
pub open spec fn decision_of(action: RoutingAction, prev: Seq<u128>, now: u128) -> RoutingDecision {
    match action {
        RoutingAction::Allow => RoutingDecision::Allow,
        RoutingAction::Deny => RoutingDecision::Deny,
        RoutingAction::DenyWithReply { message } => RoutingDecision::DenyWithReply(message),
        RoutingAction::RedirectToAgent { agent_id } => RoutingDecision::RedirectToAgent(agent_id),
        RoutingAction::RateLimit { max_per_minute } => if rate_allows(prev, now, max_per_minute) {
            RoutingDecision::Allow
        } else {
            RoutingDecision::RateLimited
        },
    }
}

/// Rules are ordered by non-decreasing priority.
pub open spec fn sorted_by_priority(s: Seq<RoutingRule>) -> bool {
    forall|i: int, j: int| 0 <= i <= j < s.len() ==> (#[trigger] s[i]).priority <= (#[trigger] s[j]).priority
}

/// The rules of one priority, in the order they appear.
pub open spec fn with_priority(s: Seq<RoutingRule>, p: u32) -> Seq<RoutingRule> {
    s.filter(|r: RoutingRule| r.priority == p)
}

/// `out` is `input` stably sorted by priority: ordered by priority, and for every
/// priority the rules of that priority appear in their original order.
pub open spec fn stable_priority_sort(input: Seq<RoutingRule>, out: Seq<RoutingRule>) -> bool {
    &&& sorted_by_priority(out)
    &&& forall|p: u32| #[trigger] with_priority(out, p) == with_priority(input, p)
}

/// A sequence none of whose elements satisfies the predicate filters to nothing.
proof fn lemma_filter_none<A>(s: Seq<A>, pred: spec_fn(A) -> bool)
    requires
        forall|i: int| 0 <= i < s.len() ==> !pred(#[trigger] s[i]),
    ensures
        s.filter(pred) == Seq::<A>::empty(),
{
    broadcast use vstd::seq_lib::group_filter_ensures;

    if s.filter(pred).len() > 0 {
        let x = s.filter(pred)[0];
        assert(pred(x));
        s.lemma_filter_contains_rev(pred, x);
        assert(s.contains(x));
    }
    assert(s.filter(pred) =~= Seq::<A>::empty());
}

/// Filtering a one-element sequence keeps the element exactly when it qualifies.
proof fn lemma_filter_single<A>(x: A, pred: spec_fn(A) -> bool)
    ensures
        seq![x].filter(pred) == (if pred(x) { seq![x] } else { Seq::<A>::empty() }),
{
    Seq::<A>::empty().lemma_filter_push(x, pred);
    lemma_filter_none(Seq::<A>::empty(), pred);
    assert(Seq::<A>::empty().push(x) =~= seq![x]);
    assert(Seq::<A>::empty().push(x) =~= seq![x]);
}

/// Inserting `x` in front of the first rule of priority at least its own keeps the
/// order stable: the per-priority subsequences gain `x` at their front.
proof fn lemma_insert_keeps_stable(out: Seq<RoutingRule>, k: int, x: RoutingRule, p: u32)
    requires
        0 <= k <= out.len(),
        forall|i: int| 0 <= i < k ==> (#[trigger] out[i]).priority < x.priority,
        forall|i: int| k <= i < out.len() ==> (#[trigger] out[i]).priority >= x.priority,
        sorted_by_priority(out),
    ensures
        with_priority(out.insert(k, x), p) == with_priority(seq![x], p) + with_priority(out, p),
{
    let pred = |r: RoutingRule| r.priority == p;
    let a = out.subrange(0, k);
    let b = out.subrange(k, out.len() as int);
    assert(out =~= a + b);
    assert(out.insert(k, x) =~= a + seq![x] + b);
    Seq::filter_distributes_over_add(a, b, pred);
    Seq::filter_distributes_over_add(a + seq![x], b, pred);
    Seq::filter_distributes_over_add(a, seq![x], pred);
    lemma_filter_single(x, pred);
    if p == x.priority {
        assert forall|i: int| 0 <= i < a.len() implies !pred(#[trigger] a[i]) by {
            assert(a[i] == out[i]);
        }
        lemma_filter_none(a, pred);
        assert(a.filter(pred) + seq![x] + b.filter(pred) =~= seq![x] + (a.filter(pred) + b.filter(pred)));
    } else {
        assert(a.filter(pred) + Seq::<RoutingRule>::empty() =~= a.filter(pred));
        assert(Seq::<RoutingRule>::empty() + (a.filter(pred) + b.filter(pred)) =~= a.filter(pred) + b.filter(pred));
    }
}

/// The timestamps kept for a sender are those of the last window with that sender.
proof fn lemma_stamps_for_last(v: Seq<SenderWindow>, k: Seq<char>, idx: int)
    requires
        0 <= idx < v.len(),
        v[idx].sender@ == k,
        forall|m: int| idx < m < v.len() ==> (#[trigger] v[m]).sender@ != k,
    ensures
        stamps_for(v, k) == v[idx].stamps@,
    decreases v.len(),
{
    if idx < v.len() - 1 {
        assert(v.last().sender@ != k);
        lemma_stamps_for_last(v.drop_last(), k, idx);
    }
}

/// A sender with no window has no timestamps.
proof fn lemma_stamps_for_none(v: Seq<SenderWindow>, k: Seq<char>)
    requires
        forall|m: int| 0 <= m < v.len() ==> (#[trigger] v[m]).sender@ != k,
    ensures
        stamps_for(v, k) == Seq::<u128>::empty(),
    decreases v.len(),
{
    if v.len() > 0 {
        assert(v.last().sender@ != k);
        lemma_stamps_for_none(v.drop_last(), k);
    }
}

/// Replacing a sender's window leaves every other sender's timestamps alone.
proof fn lemma_stamps_for_update(v: Seq<SenderWindow>, idx: int, w: SenderWindow)
    requires
        0 <= idx < v.len(),
        v[idx].sender@ == w.sender@,
    ensures
        forall|k: Seq<char>| k != w.sender@ ==> #[trigger] stamps_for(v.update(idx, w), k) == stamps_for(v, k),
    decreases v.len(),
{
    assert forall|k: Seq<char>| k != w.sender@ implies #[trigger] stamps_for(v.update(idx, w), k) == stamps_for(v, k) by {
        lemma_stamps_for_update_one(v, idx, w, k);
    }
}

proof fn lemma_stamps_for_update_one(v: Seq<SenderWindow>, idx: int, w: SenderWindow, k: Seq<char>)
    requires
        0 <= idx < v.len(),
        v[idx].sender@ == w.sender@,
        k != w.sender@,
    ensures
        stamps_for(v.update(idx, w), k) == stamps_for(v, k),
    decreases v.len(),
{
    let u = v.update(idx, w);
    if idx == v.len() - 1 {
        assert(u.drop_last() =~= v.drop_last());
    } else {
        assert(u.drop_last() =~= v.drop_last().update(idx, w));
        lemma_stamps_for_update_one(v.drop_last(), idx, w, k);
    }
}

/// Stable sort of rules by priority (insertion from the back).
fn sort_by_priority(rules: Vec<RoutingRule>) -> (out: Vec<RoutingRule>)
    ensures
        stable_priority_sort(rules@, out@),
{
    let ghost orig = rules@;
    let mut rest = rules;
    let mut out: Vec<RoutingRule> = Vec::new();
    proof {
        assert(orig.subrange(orig.len() as int, orig.len() as int) =~= Seq::<RoutingRule>::empty());
        assert forall|p: u32| #[trigger] with_priority(out@, p) == with_priority(orig.subrange(orig.len() as int, orig.len() as int), p) by {
            assert(out@ =~= Seq::<RoutingRule>::empty());
        }
    }
    while rest.len() > 0
        invariant
            rest@ == orig.subrange(0, rest@.len() as int),
            rest@.len() <= orig.len(),
            sorted_by_priority(out@),
            forall|p: u32| #[trigger] with_priority(out@, p) == with_priority(orig.subrange(rest@.len() as int, orig.len() as int), p),
        decreases rest@.len(),
    {
        let ghost old_out = out@;
        let ghost n = rest@.len();
        let x = rest.pop().unwrap();
        proof {
            assert(x == orig[n - 1]);
        }
        let mut k: usize = 0;
        while k < out.len() && out[k].priority < x.priority
            invariant
                k <= out@.len(),
                out@ == old_out,
                forall|i: int| 0 <= i < k ==> (#[trigger] out@[i]).priority < x.priority,
            decreases out@.len() - k,
        {
            k = k + 1;
        }
        proof {
            assert forall|i: int| k <= i < old_out.len() implies (#[trigger] old_out[i]).priority >= x.priority by {
                assert(old_out[k as int].priority >= x.priority);
                assert(old_out[k as int].priority <= old_out[i].priority);
            }
        }
        out.insert(k, x);
        proof {
            assert forall|p: u32| #[trigger] with_priority(out@, p) == with_priority(orig.subrange(rest@.len() as int, orig.len() as int), p) by {
                lemma_insert_keeps_stable(old_out, k as int, x, p);
                let tail = orig.subrange(n as int, orig.len() as int);
                assert(orig.subrange(n - 1, orig.len() as int) =~= seq![x] + tail);
                Seq::filter_distributes_over_add(seq![x], tail, |r: RoutingRule| r.priority == p);
            }
            assert forall|i: int, j: int| 0 <= i <= j < out@.len() implies (#[trigger] out@[i]).priority <= (#[trigger] out@[j]).priority by {
                if i < k && j > k {
                    assert(out@[i] == old_out[i]);
                    assert(out@[j] == old_out[j - 1]);
                } else if i < k && j == k {
                    assert(out@[i] == old_out[i]);
                } else if i < k {
                    assert(out@[i] == old_out[i]);
                    assert(out@[j] == old_out[j]);
                } else if i == k && j > k {
                    assert(out@[j] == old_out[j - 1]);
                } else if i > k {
                    assert(out@[i] == old_out[i - 1]);
                    assert(out@[j] == old_out[j - 1]);
                }
            }
        }
    }
    proof {
        assert(orig.subrange(0, orig.len() as int) =~= orig);
    }
    out
}

/// The rules of priority `p` after one more rule.
proof fn lemma_with_priority_push(s: Seq<RoutingRule>, x: RoutingRule, p: u32)
    ensures
        with_priority(s.push(x), p) == if x.priority == p {
            with_priority(s, p).push(x)
        } else {
            with_priority(s, p)
        },
{
    s.lemma_filter_push(x, |r: RoutingRule| r.priority == p);
}

/// Every rule of a sequence is among the rules of its priority.
proof fn lemma_priority_present(s: Seq<RoutingRule>, i: int)
    requires
        0 <= i < s.len(),
    ensures
        with_priority(s, s[i].priority).len() > 0,
{
    s.lemma_filter_contains(|r: RoutingRule| r.priority == s[i].priority, i);
}

/// A rule of priority `p` occurs in any sequence whose rules of priority `p` are not none.
proof fn lemma_priority_witness(s: Seq<RoutingRule>, p: u32) -> (k: int)
    requires
        with_priority(s, p).len() > 0,
    ensures
        0 <= k < s.len(),
        s[k].priority == p,
{
    let pred = |r: RoutingRule| r.priority == p;
    let e = s.filter(pred)[0];
    s.lemma_filter_pred(pred, 0);
    assert(s.filter(pred).contains(e));
    s.lemma_filter_contains_rev(pred, e);
    choose|k: int| 0 <= k < s.len() && s[k] == e
}

/// Two sequences ordered by priority that hold the same rules of each priority, in
/// the same order, are the same sequence.
proof fn lemma_sorted_determined(o1: Seq<RoutingRule>, o2: Seq<RoutingRule>)
    requires
        sorted_by_priority(o1),
        sorted_by_priority(o2),
        forall|p: u32| #[trigger] with_priority(o1, p) == with_priority(o2, p),
    ensures
        o1 == o2,
    decreases o1.len(),
{
    if o1.len() == 0 || o2.len() == 0 {
        if o1.len() > 0 {
            lemma_priority_present(o1, 0);
            o2.lemma_filter_len(|r: RoutingRule| r.priority == o1[0].priority);
            assert(with_priority(o1, o1[0].priority) == with_priority(o2, o1[0].priority));
        }
        if o2.len() > 0 {
            lemma_priority_present(o2, 0);
            o1.lemma_filter_len(|r: RoutingRule| r.priority == o2[0].priority);
            assert(with_priority(o1, o2[0].priority) == with_priority(o2, o2[0].priority));
        }
        assert(o1 =~= o2);
    } else {
        let x = o1.last();
        let y = o2.last();
        lemma_priority_present(o1, o1.len() - 1);
        assert(with_priority(o1, x.priority) == with_priority(o2, x.priority));
        let k2 = lemma_priority_witness(o2, x.priority);
        assert(o2[k2].priority <= o2[o2.len() - 1].priority);
        lemma_priority_present(o2, o2.len() - 1);
        assert(with_priority(o1, y.priority) == with_priority(o2, y.priority));
        let k1 = lemma_priority_witness(o1, y.priority);
        assert(o1[k1].priority <= o1[o1.len() - 1].priority);
        let pr = x.priority;
        assert(pr == y.priority);
        let a = o1.drop_last();
        let b = o2.drop_last();
        assert(o1 =~= a.push(x));
        assert(o2 =~= b.push(y));
        lemma_with_priority_push(a, x, pr);
        lemma_with_priority_push(b, y, pr);
        assert(with_priority(o1, pr) == with_priority(o2, pr));
        assert(with_priority(a, pr).push(x).last() == x);
        assert(x == y);
        assert(with_priority(a, pr) =~= with_priority(o1, pr).drop_last());
        assert(with_priority(b, pr) =~= with_priority(o2, pr).drop_last());
        assert forall|p: u32| #[trigger] with_priority(a, p) == with_priority(b, p) by {
            lemma_with_priority_push(a, x, p);
            lemma_with_priority_push(b, y, p);
            assert(with_priority(o1, p) == with_priority(o2, p));
        }
        assert forall|i: int, j: int| 0 <= i <= j < a.len() implies (#[trigger] a[i]).priority <= (#[trigger] a[j]).priority by {
            assert(a[i] == o1[i] && a[j] == o1[j]);
        }
        assert forall|i: int, j: int| 0 <= i <= j < b.len() implies (#[trigger] b[i]).priority <= (#[trigger] b[j]).priority by {
            assert(b[i] == o2[i] && b[j] == o2[j]);
        }
        lemma_sorted_determined(a, b);
    }
}

/// Only the order among rules of equal priority matters: two rule lists that hold the
/// same rules of each priority, in the same order, give engines with the same rules
/// (and both start with no recorded timestamps).
pub proof fn priority_order_decides(a: Seq<RoutingRule>, b: Seq<RoutingRule>, e1: RoutingEngine, e2: RoutingEngine)
    requires
        forall|p: u32| #[trigger] with_priority(a, p) == with_priority(b, p),
        stable_priority_sort(a, e1.rules()),
        stable_priority_sort(b, e2.rules()),
    ensures
        e1.rules() == e2.rules(),
{
    assert forall|p: u32| #[trigger] with_priority(e1.rules(), p) == with_priority(e2.rules(), p) by {
        assert(with_priority(e1.rules(), p) == with_priority(a, p));
        assert(with_priority(e2.rules(), p) == with_priority(b, p));
    }
    lemma_sorted_determined(e1.rules(), e2.rules());
}


/// Engine that evaluates routing rules against incoming messages.
pub struct RoutingEngine {
    rules: Vec<RoutingRule>,
    rate_counters: Vec<SenderWindow>,
    clock: std::time::Instant,
}

impl RoutingEngine {
    /// The rules in evaluation order.
    pub closed spec fn rules(&self) -> Seq<RoutingRule> {
        self.rules@
    }

    /// The recorded timestamps of a sender.
    pub closed spec fn stamps(&self, sender: Seq<char>) -> Seq<u128> {
        stamps_for(self.rate_counters@, sender)
    }

    /// Create a new routing engine with the given rules, sorted by priority
    /// (lower = higher priority, ties in the order given).
    pub fn new(rules: Vec<RoutingRule>) -> (e: Self)
        ensures
            stable_priority_sort(rules@, e.rules()),
            forall|s: Seq<char>| #[trigger] e.stamps(s) == Seq::<u128>::empty(),
    {
        let sorted = sort_by_priority(rules);
        RoutingEngine { rules: sorted, rate_counters: Vec::new(), clock: instant_now() }
    }

    /// Evaluate all rules against the given message, at the current time of the
    /// engine's clock.
    pub fn evaluate(&mut self, channel: &str, sender_id: &str, content: &str, is_dm: bool) -> (d:
        RoutingDecision)
        ensures
            final(self).rules() == old(self).rules(),
            exists|now: u128| #[trigger]
                Self::evaluated(*old(self), *final(self), channel@, sender_id@, content@, is_dm, now, d),
    {
        let elapsed = instant_elapsed(&self.clock);
        let now = duration_as_nanos(&elapsed);
        self.evaluate_at(channel, sender_id, content, is_dm, now)
    }

    /// One evaluation at time `now`: the first rule (in evaluation order) that fires
    /// decides; with none, the message is allowed. Only a firing rate-limit rule
    /// touches the sender's timestamps; no other sender's change.
    pub open spec fn evaluated(
        pre: Self,
        post: Self,
        channel: Seq<char>,
        sender_id: Seq<char>,
        content: Seq<char>,
        is_dm: bool,
        now: u128,
        d: RoutingDecision,
    ) -> bool {
        let rs = pre.rules();
        &&& post.rules() == rs
        &&& forall|s: Seq<char>| s != sender_id ==> #[trigger] post.stamps(s) == pre.stamps(s)
        &&& if forall|i: int| 0 <= i < rs.len() ==> !fires(#[trigger] rs[i], channel, sender_id, content, is_dm) {
            &&& d == RoutingDecision::Allow
            &&& post.stamps(sender_id) == pre.stamps(sender_id)
        } else {
            exists|i: int| {
                &&& 0 <= i < rs.len()
                &&& fires(#[trigger] rs[i], channel, sender_id, content, is_dm)
                &&& forall|j: int| 0 <= j < i ==> !fires(#[trigger] rs[j], channel, sender_id, content, is_dm)
                &&& d == decision_of(rs[i].action, pre.stamps(sender_id), now)
                &&& post.stamps(sender_id) == match rs[i].action {
                    RoutingAction::RateLimit { max_per_minute } => rate_after(
                        pre.stamps(sender_id),
                        now,
                        max_per_minute,
                    ),
                    _ => pre.stamps(sender_id),
                }
            }
        }
    }

    /// Evaluate all rules against the given message at time `now` (nanoseconds on the
    /// engine's clock).
    pub fn evaluate_at(
        &mut self,
        channel: &str,
        sender_id: &str,
        content: &str,
        is_dm: bool,
        now: u128,
    ) -> (d: RoutingDecision)
        ensures
            Self::evaluated(*old(self), *final(self), channel@, sender_id@, content@, is_dm, now, d),
    {
        let ghost rs = self.rules@;
        let mut i: usize = 0;
        while i < self.rules.len()
            invariant
                self.rules@ == rs,
                *self == *old(self),
                i <= rs.len(),
                forall|j: int| 0 <= j < i ==> !fires(#[trigger] rs[j], channel@, sender_id@, content@, is_dm),
            decreases rs.len() - i,
        {
            let rule = &self.rules[i];
            if rule.enabled && rule.match_on.matches(channel, sender_id, content, is_dm) {
                let d = match &rule.action {
                    RoutingAction::Allow => RoutingDecision::Allow,
                    RoutingAction::Deny => RoutingDecision::Deny,
                    RoutingAction::DenyWithReply { message } => RoutingDecision::DenyWithReply(
                        message.clone(),
                    ),
                    RoutingAction::RedirectToAgent { agent_id } => RoutingDecision::RedirectToAgent(
                        agent_id.clone(),
                    ),
                    RoutingAction::RateLimit { max_per_minute } => {
                        let max = *max_per_minute;
                        self.check_rate_limit(sender_id, max, now)
                    },
                };
                proof {
                    let ii = i as int;
                    assert(fires(rs[ii], channel@, sender_id@, content@, is_dm));
                    assert(!(forall|j: int| 0 <= j < rs.len() ==> !fires(#[trigger] rs[j], channel@, sender_id@, content@, is_dm)));
                    assert(forall|j: int| 0 <= j < ii ==> !fires(#[trigger] rs[j], channel@, sender_id@, content@, is_dm));
                    assert(0 <= ii < rs.len());
                }
                return d;
            }
            i = i + 1;
        }
        assert(forall|j: int| 0 <= j < rs.len() ==> !fires(#[trigger] rs[j], channel@, sender_id@, content@, is_dm));
        RoutingDecision::Allow
    }

    /// Check the rate limit for a sender at time `now`, pruning stale entries.
    fn check_rate_limit(&mut self, sender_id: &str, max_per_minute: u32, now: u128) -> (d:
        RoutingDecision)
        ensures
            final(self).rules() == old(self).rules(),
            forall|s: Seq<char>| s != sender_id@ ==> #[trigger] final(self).stamps(s) == old(self).stamps(s),
            final(self).stamps(sender_id@) == rate_after(old(self).stamps(sender_id@), now, max_per_minute),
            d == (if rate_allows(old(self).stamps(sender_id@), now, max_per_minute) {
                RoutingDecision::Allow
            } else {
                RoutingDecision::RateLimited
            }),
    {
        let ghost old_v = self.rate_counters@;
        let ghost prev_stamps = stamps_for(old_v, sender_id@);
        let n = self.rate_counters.len();
        let mut found = false;
        let mut idx: usize = 0;
        let mut j: usize = n;
        while j > 0
            invariant_except_break
                !found,
                forall|m: int| j <= m < n ==> (#[trigger] old_v[m]).sender@ != sender_id@,
            invariant
                self.rate_counters@ == old_v,
                n == old_v.len(),
                j <= n,
            ensures
                found ==> idx < n && old_v[idx as int].sender@ == sender_id@ && forall|m: int|
                    idx < m < n ==> (#[trigger] old_v[m]).sender@ != sender_id@,
                !found ==> forall|m: int| 0 <= m < n ==> (#[trigger] old_v[m]).sender@ != sender_id@,
            decreases j,
        {
            j = j - 1;
            if str_eq(self.rate_counters[j].sender.as_str(), sender_id) {
                found = true;
                idx = j;
                break;
            }
        }
        proof {
            if found {
                lemma_stamps_for_last(old_v, sender_id@, idx as int);
            } else {
                lemma_stamps_for_none(old_v, sender_id@);
            }
        }
        let mut kept: Vec<u128> = Vec::new();
        if found {
            let prev = &self.rate_counters[idx].stamps;
            let mut i: usize = 0;
            while i < prev.len()
                invariant
                    i <= prev@.len(),
                    prev@ == prev_stamps,
                    kept@ == pruned(prev@.subrange(0, i as int), now),
                decreases prev@.len() - i,
            {
                let t = prev[i];
                proof {
                    assert(prev@.subrange(0, i + 1) =~= prev@.subrange(0, i as int).push(t));
                    prev@.subrange(0, i as int).lemma_filter_push(t, |t: u128| within_window(now, t));
                }
                let elapsed: u128 = if now >= t { now - t } else { 0 };
                if elapsed < RATE_WINDOW_NANOS {
                    kept.push(t);
                }
                i = i + 1;
            }
            proof {
                assert(prev@.subrange(0, prev@.len() as int) =~= prev@);
            }
        } else {
            proof {
                lemma_filter_none(prev_stamps, |t: u128| within_window(now, t));
            }
        }
        let allowed = kept.len() < max_per_minute as usize;
        if allowed {
            kept.push(now);
        }
        if found {
            let sender = self.rate_counters[idx].sender.clone();
            let w = SenderWindow { sender, stamps: kept };
            proof {
                lemma_stamps_for_update(old_v, idx as int, w);
                lemma_stamps_for_last(old_v.update(idx as int, w), sender_id@, idx as int);
            }
            self.rate_counters.set(idx, w);
        } else {
            let w = SenderWindow { sender: String::from_str(sender_id), stamps: kept };
            proof {
                assert(old_v.push(w).drop_last() =~= old_v);
            }
            self.rate_counters.push(w);
        }
        if allowed {
            RoutingDecision::Allow
        } else {
            RoutingDecision::RateLimited
        }
    }
}

/// Evaluation is determined by the rules, the recorded timestamps and the time: two
/// engines with the same rules and timestamps, evaluating the same message at the same
/// time, give the same decision and are left with the same rules and timestamps. So
/// engines built from rule lists that `priority_order_decides` equates answer every
/// sequence of messages alike.
pub proof fn evaluation_determined(
    pre1: RoutingEngine,
    post1: RoutingEngine,
    pre2: RoutingEngine,
    post2: RoutingEngine,
    channel: Seq<char>,
    sender_id: Seq<char>,
    content: Seq<char>,
    is_dm: bool,
    now: u128,
    d1: RoutingDecision,
    d2: RoutingDecision,
)
    requires
        pre1.rules() == pre2.rules(),
        forall|s: Seq<char>| #[trigger] pre1.stamps(s) == pre2.stamps(s),
        RoutingEngine::evaluated(pre1, post1, channel, sender_id, content, is_dm, now, d1),
        RoutingEngine::evaluated(pre2, post2, channel, sender_id, content, is_dm, now, d2),
    ensures
        d1 == d2,
        post1.rules() == post2.rules(),
        forall|s: Seq<char>| #[trigger] post1.stamps(s) == post2.stamps(s),
{
    let rs = pre1.rules();
    let prev = pre1.stamps(sender_id);
    assert(pre2.stamps(sender_id) == prev);
    if !(forall|i: int| 0 <= i < rs.len() ==> !fires(#[trigger] rs[i], channel, sender_id, content, is_dm)) {
        let i1 = choose|i: int| {
            &&& 0 <= i < rs.len()
            &&& fires(#[trigger] rs[i], channel, sender_id, content, is_dm)
            &&& forall|j: int| 0 <= j < i ==> !fires(#[trigger] rs[j], channel, sender_id, content, is_dm)
            &&& d1 == decision_of(rs[i].action, prev, now)
            &&& post1.stamps(sender_id) == match rs[i].action {
                RoutingAction::RateLimit { max_per_minute } => rate_after(prev, now, max_per_minute),
                _ => prev,
            }
        };
        let i2 = choose|i: int| {
            &&& 0 <= i < rs.len()
            &&& fires(#[trigger] rs[i], channel, sender_id, content, is_dm)
            &&& forall|j: int| 0 <= j < i ==> !fires(#[trigger] rs[j], channel, sender_id, content, is_dm)
            &&& d2 == decision_of(rs[i].action, prev, now)
            &&& post2.stamps(sender_id) == match rs[i].action {
                RoutingAction::RateLimit { max_per_minute } => rate_after(prev, now, max_per_minute),
                _ => prev,
            }
        };
        if i1 < i2 {
            assert(!fires(rs[i1], channel, sender_id, content, is_dm));
        }
        if i2 < i1 {
            assert(!fires(rs[i2], channel, sender_id, content, is_dm));
        }
        assert(i1 == i2);
    }
    assert forall|s: Seq<char>| #[trigger] post1.stamps(s) == post2.stamps(s) by {
        if s != sender_id {
            assert(post1.stamps(s) == pre1.stamps(s));
            assert(post2.stamps(s) == pre2.stamps(s));
        }
    }
}

} // verus!
