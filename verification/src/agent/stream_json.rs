//! The command line and the output of a harness CLI that reports in newline-delimited
//! JSON (`--output-format stream-json`): the final event of type "result" carries the
//! response, the session id and the usage.

use vstd::prelude::*;

use crate::agent::harness::HarnessConfig;
use crate::agent::turn::{HarnessRun, RunUsage};
use crate::error::BeaconError;
use crate::text::{concat, str_eq, views};

verus! {

/// Usage fields of a result event (each absent unless an unsigned integer).
#[derive(Debug, Clone)]
pub struct EventUsage {
    /// `input_tokens`
    pub input_tokens: Option<u64>,
    /// `cache_read_input_tokens`
    pub cache_read_input_tokens: Option<u64>,
    /// `output_tokens`
    pub output_tokens: Option<u64>,
}

/// The fields of one output line that matter, as read from its JSON object.
#[derive(Debug, Clone)]
pub struct StreamEvent {
    /// `type`, when it is a string
    pub event_type: Option<String>,
    /// `result`, when it is a string
    pub result: Option<String>,
    /// `session_id`, when it is a string
    pub session_id: Option<String>,
    /// Whether `total_cost_usd` is a number
    pub has_cost: bool,
    /// `usage`, when present
    pub usage: Option<EventUsage>,
    /// `model`, when it is a string
    pub model: Option<String>,
}

/// A line is a result event.
pub open spec fn is_result(e: Option<StreamEvent>) -> bool {
    e matches Some(ev) && ev.event_type matches Some(t) && t@ == "result"@
}

/// Index of the last result event among the lines (lines that are not JSON objects are
/// `None`), or -1.
pub open spec fn last_result(lines: Seq<Option<StreamEvent>>) -> int
    decreases lines.len(),
{
    if lines.len() == 0 {
        -1
    } else if is_result(lines.last()) {
        lines.len() - 1
    } else {
        last_result(lines.drop_last())
    }
}

/// A count, zero when absent.
pub open spec fn or_zero(n: Option<u64>) -> u64 {
    match n {
        Some(v) => v,
        None => 0,
    }
}

/// The run a result event reports: its result text (empty when absent), its session
/// id, and its usage when it has both a cost and a usage object.
pub open spec fn reported_run(e: StreamEvent, r: HarnessRun) -> bool {
    &&& r.response@ == (match e.result {
        Some(s) => s@,
        None => Seq::empty(),
    })
    &&& r.session_id == e.session_id
    &&& match (e.has_cost, e.usage) {
        (true, Some(u)) => r.usage matches Some(ru) && ru.input_tokens == or_zero(u.input_tokens)
            && ru.cached_input_tokens == or_zero(u.cache_read_input_tokens) && ru.output_tokens
            == or_zero(u.output_tokens) && ru.model == e.model,
        _ => r.usage is None,
    }
}

fn count_or_zero(n: Option<u64>) -> (r: u64)
    ensures
        r == or_zero(n),
{
    match n {
        Some(v) => v,
        None => 0,
    }
}

/// The run reported by a result event.
fn run_of(e: &StreamEvent) -> (r: HarnessRun)
    ensures
        reported_run(*e, r),
{
    let response = match &e.result {
        Some(s) => s.clone(),
        None => String::new(),
    };
    let usage = if e.has_cost {
        match &e.usage {
            Some(u) => Some(
                RunUsage {
                    input_tokens: count_or_zero(u.input_tokens),
                    cached_input_tokens: count_or_zero(u.cache_read_input_tokens),
                    output_tokens: count_or_zero(u.output_tokens),
                    model: e.model.clone(),
                },
            ),
            None => None,
        }
    } else {
        None
    };
    HarnessRun { response, session_id: e.session_id.clone(), usage }
}

/// The run reported by the last result event of the output, if there is one.
pub fn parse_result_event(lines: &Vec<Option<StreamEvent>>) -> (r: Option<HarnessRun>)
    ensures
        last_result(lines@) < 0 ==> r is None,
        last_result(lines@) >= 0 ==> (r matches Some(run) && reported_run(lines@[last_result(lines@)]->0, run)),
{
    let mut i: usize = lines.len();
    proof {
        assert(lines@.take(i as int) =~= lines@);
    }
    while i > 0
        invariant
            i <= lines@.len(),
            last_result(lines@) == last_result(lines@.take(i as int)),
        decreases i,
    {
        let t = i - 1;
        proof {
            assert(lines@.take(i as int).drop_last() =~= lines@.take(t as int));
            assert(lines@.take(i as int).last() == lines@[t as int]);
        }
        match &lines[t] {
            Some(e) => {
                let hit = match &e.event_type {
                    Some(ty) => str_eq(ty.as_str(), "result"),
                    None => false,
                };
                if hit {
                    return Some(run_of(e));
                }
            },
            None => {},
        }
        i = t;
    }
    None
}

/// What a run produced: the reported run, or the whole output as the response.
pub fn run_from_output(stdout: String, lines: &Vec<Option<StreamEvent>>) -> (r: HarnessRun)
    ensures
        last_result(lines@) < 0 ==> r.response@ == stdout@ && r.session_id is None && r.usage is None,
        last_result(lines@) >= 0 ==> reported_run(lines@[last_result(lines@)]->0, r),
{
    match parse_result_event(lines) {
        Some(run) => run,
        None => HarnessRun { response: stdout, session_id: None, usage: None },
    }
}

/// The outcome of a harness CLI run, given how the process ended: an exit that is not
/// a success is an agent error naming the exit status and carrying the error output;
/// otherwise the run that the output reports, or the whole output as the response.
pub fn run_outcome(
    exit_success: bool,
    status_text: &str,
    stderr: &str,
    stdout: String,
    lines: &Vec<Option<StreamEvent>>,
) -> (r: Result<HarnessRun, BeaconError>)
    ensures
        !exit_success ==> (r matches Err(e) && e is Agent && e.spec_message() == "harness CLI exited with "@
            + status_text@ + ": "@ + stderr@),
        exit_success ==> (r matches Ok(run) && (last_result(lines@) < 0 ==> run.response@ == stdout@
            && run.session_id is None && run.usage is None) && (last_result(lines@) >= 0 ==> reported_run(
            lines@[last_result(lines@)]->0,
            run,
        ))),
{
    if !exit_success {
        let head = concat("harness CLI exited with ", status_text);
        let head = concat(head.as_str(), ": ");
        return Err(BeaconError::Agent(concat(head.as_str(), stderr)));
    }
    Ok(run_from_output(stdout, lines))
}

/// The arguments of a harness CLI run: print mode with stream-json output, resuming a
/// session when given, skipping permission prompts when configured, one `--mcp-config`
/// per MCP server, then the prompt.
pub open spec fn harness_args(prompt: Seq<char>, config: HarnessConfig, session_id: Option<Seq<char>>) -> Seq<
    Seq<char>,
> {
    seq!["--print"@, "--output-format"@, "stream-json"@, "--verbose"@] + (match session_id {
        Some(sid) => seq!["--resume"@, sid],
        None => Seq::empty(),
    }) + (if config.skip_permissions {
        seq!["--dangerously-skip-permissions"@]
    } else {
        Seq::empty()
    }) + mcp_args(views(config.mcp_servers@)) + seq![prompt]
}

/// `--mcp-config` before each server.
pub open spec fn mcp_args(servers: Seq<Seq<char>>) -> Seq<Seq<char>>
    decreases servers.len(),
{
    if servers.len() == 0 {
        Seq::empty()
    } else {
        mcp_args(servers.drop_last()) + seq!["--mcp-config"@, servers.last()]
    }
}

/// Build the arguments of a harness CLI run.
pub fn build_harness_args(prompt: &str, config: &HarnessConfig, session_id: Option<&str>) -> (r: Vec<String>)
    ensures
        views(r@) == harness_args(
            prompt@,
            *config,
            match session_id {
                Some(s) => Some(s@),
                None => None,
            },
        ),
{
    let mut v: Vec<String> = Vec::new();
    v.push(String::from_str("--print"));
    v.push(String::from_str("--output-format"));
    v.push(String::from_str("stream-json"));
    v.push(String::from_str("--verbose"));
    let ghost sid = match session_id {
        Some(s) => Some(s@),
        None => None::<Seq<char>>,
    };
    if let Some(s) = session_id {
        v.push(String::from_str("--resume"));
        v.push(String::from_str(s));
    }
    if config.skip_permissions {
        v.push(String::from_str("--dangerously-skip-permissions"));
    }
    let ghost head = views(v@);
    proof {
        assert(head =~= seq!["--print"@, "--output-format"@, "stream-json"@, "--verbose"@] + (match sid {
            Some(x) => seq!["--resume"@, x],
            None => Seq::empty(),
        }) + (if config.skip_permissions {
            seq!["--dangerously-skip-permissions"@]
        } else {
            Seq::empty()
        }));
        assert(views(config.mcp_servers@).take(0) =~= Seq::<Seq<char>>::empty());
    }
    let mut i: usize = 0;
    while i < config.mcp_servers.len()
        invariant
            i <= config.mcp_servers@.len(),
            views(v@) == head + mcp_args(views(config.mcp_servers@).take(i as int)),
        decreases config.mcp_servers@.len() - i,
    {
        let ghost before = views(v@);
        v.push(String::from_str("--mcp-config"));
        v.push(config.mcp_servers[i].clone());
        proof {
            let t = views(config.mcp_servers@).take(i + 1);
            assert(t.drop_last() =~= views(config.mcp_servers@).take(i as int));
            assert(t.last() == config.mcp_servers@[i as int]@);
            assert(views(v@) =~= before + seq!["--mcp-config"@, config.mcp_servers@[i as int]@]);
            assert(views(v@) =~= head + mcp_args(t));
        }
        i = i + 1;
    }
    let ghost before = views(v@);
    v.push(String::from_str(prompt));
    proof {
        assert(views(config.mcp_servers@).take(config.mcp_servers@.len() as int) =~= views(config.mcp_servers@));
        assert(views(v@) =~= before.push(prompt@));
    }
    v
}

} // verus!
