//! Health diagnostics: check results and their report.

pub mod checks;

use vstd::prelude::*;

use crate::text::{concat, concat3, u64_to_string, decimal};

verus! {

/// Status of a diagnostic check.
#[derive(Debug, Clone, Copy, PartialEq, Eq, Structural)]
pub enum CheckStatus {
    /// Check passed
    Pass,
    /// Non-critical issue
    Warning,
    /// Critical issue
    Error,
}

/// How a status is written.
pub open spec fn status_text(s: CheckStatus) -> Seq<char> {
    match s {
        CheckStatus::Pass => "ok"@,
        CheckStatus::Warning => "warning"@,
        CheckStatus::Error => "error"@,
    }
}

impl CheckStatus {
    /// The status as text: `ok`, `warning` or `error`.
    pub fn as_str(&self) -> (r: &'static str)
        ensures
            r@ == status_text(*self),
    {
        match self {
            CheckStatus::Pass => "ok",
            CheckStatus::Warning => "warning",
            CheckStatus::Error => "error",
        }
    }
}

/// Result of a single diagnostic check.
#[derive(Debug, Clone)]
pub struct CheckResult {
    /// Check name
    pub name: String,
    /// Pass/warn/fail status
    pub status: CheckStatus,
    /// Human-readable message
    pub message: String,
    /// Suggested fix (for warnings and errors)
    pub suggestion: Option<String>,
}

/// A check result as plain values: name, status, message and suggestion.
pub open spec fn check_view(r: CheckResult) -> (Seq<char>, CheckStatus, Seq<char>, Option<Seq<char>>) {
    (
        r.name@,
        r.status,
        r.message@,
        match r.suggestion {
            Some(s) => Some(s@),
            None => None,
        },
    )
}

/// How many results have the given status.
pub open spec fn count_status(results: Seq<CheckResult>, s: CheckStatus) -> nat
    decreases results.len(),
{
    if results.len() == 0 {
        0
    } else {
        count_status(results.drop_last(), s) + (if results.last().status == s {
            1nat
        } else {
            0nat
        })
    }
}

proof fn lemma_count_le(results: Seq<CheckResult>, s: CheckStatus)
    ensures
        count_status(results, s) <= results.len(),
    decreases results.len(),
{
    if results.len() > 0 {
        lemma_count_le(results.drop_last(), s);
    }
}

/// Count the results that passed, warned and failed.
pub fn summary_counts(results: &Vec<CheckResult>) -> (r: (usize, usize, usize))
    ensures
        r.0 == count_status(results@, CheckStatus::Pass),
        r.1 == count_status(results@, CheckStatus::Warning),
        r.2 == count_status(results@, CheckStatus::Error),
{
    let mut ok: usize = 0;
    let mut warn: usize = 0;
    let mut err: usize = 0;
    let mut i: usize = 0;
    while i < results.len()
        invariant
            i <= results@.len(),
            ok == count_status(results@.take(i as int), CheckStatus::Pass),
            warn == count_status(results@.take(i as int), CheckStatus::Warning),
            err == count_status(results@.take(i as int), CheckStatus::Error),
        decreases results@.len() - i,
    {
        proof {
            let t = results@.take(i + 1);
            assert(t.drop_last() =~= results@.take(i as int));
            lemma_count_le(results@.take(i as int), CheckStatus::Pass);
            lemma_count_le(results@.take(i as int), CheckStatus::Warning);
            lemma_count_le(results@.take(i as int), CheckStatus::Error);
        }
        match results[i].status {
            CheckStatus::Pass => ok = ok + 1,
            CheckStatus::Warning => warn = warn + 1,
            CheckStatus::Error => err = err + 1,
        }
        i = i + 1;
    }
    proof {
        assert(results@.take(results@.len() as int) =~= results@);
    }
    (ok, warn, err)
}

/// The marker printed before a result of the given status.
pub open spec fn status_icon(s: CheckStatus) -> Seq<char> {
    match s {
        CheckStatus::Pass => "[pass]"@,
        CheckStatus::Warning => "[warn]"@,
        CheckStatus::Error => "[FAIL]"@,
    }
}

/// The report line of one result: `{icon} {name}: {message}`.
pub fn result_line(r: &CheckResult) -> (s: String)
    ensures
        s@ == status_icon(r.status) + " "@ + r.name@ + ": "@ + r.message@,
{
    let icon = match r.status {
        CheckStatus::Pass => "[pass]",
        CheckStatus::Warning => "[warn]",
        CheckStatus::Error => "[FAIL]",
    };
    let head = concat3(icon, " ", r.name.as_str());
    concat3(head.as_str(), ": ", r.message.as_str())
}

/// The report line of a suggestion, indented under its result.
pub fn suggestion_line(suggestion: &str) -> (s: String)
    ensures
        s@ == "       -> "@ + suggestion@,
{
    concat("       -> ", suggestion)
}

/// The closing line of the report: `{total} checks: {ok} passed, {warn} warnings, {err} errors`.
pub fn summary_line(results: &Vec<CheckResult>) -> (s: String)
    ensures
        s@ == decimal(results@.len()) + " checks: "@ + decimal(count_status(results@, CheckStatus::Pass))
            + " passed, "@ + decimal(count_status(results@, CheckStatus::Warning)) + " warnings, "@
            + decimal(count_status(results@, CheckStatus::Error)) + " errors"@,
{
    let (ok, warn, err) = summary_counts(results);
    let total = u64_to_string(results.len() as u64);
    let ok_s = u64_to_string(ok as u64);
    let warn_s = u64_to_string(warn as u64);
    let err_s = u64_to_string(err as u64);
    let a = concat3(total.as_str(), " checks: ", ok_s.as_str());
    let b = concat3(a.as_str(), " passed, ", warn_s.as_str());
    let c = concat3(b.as_str(), " warnings, ", err_s.as_str());
    concat(c.as_str(), " errors")
}

} // verus!
