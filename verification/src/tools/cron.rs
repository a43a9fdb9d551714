//! The cron tool set offered to the agent, on the local scheduler.

use vstd::prelude::*;

use crate::cron::{
    action_target, job_lookup, next_run_text, now_millis, schedule_info_at, CronAction, CronJob,
    LocalScheduler, ScheduleInfo, cron_parse_failure,
};
use crate::error::BeaconError;
use crate::text::{concat, str_eq};

verus! {

/// Whether a tool only reads state or changes it.
#[derive(Debug, Clone, Copy, PartialEq, Eq, Structural)]
pub enum ToolKind {
    /// Reads state only
    Read,
    /// Changes state
    Mutate,
}

/// Kind of a cron tool: listing and inspecting read, everything else mutates.
pub fn cron_tool_kind(name: &str) -> (k: ToolKind)
    ensures
        k == (if name@ == "cron_list"@ || name@ == "cron_get"@ {
            ToolKind::Read
        } else {
            ToolKind::Mutate
        }),
{
    if str_eq(name, "cron_list") || str_eq(name, "cron_get") {
        ToolKind::Read
    } else {
        ToolKind::Mutate
    }
}

/// The cron tools.
#[derive(Debug, Clone, Copy, PartialEq, Eq, Structural)]
pub enum CronTool {
    /// `cron_schedule`
    Schedule,
    /// `cron_list`
    List,
    /// `cron_cancel`
    Cancel,
    /// `cron_get`
    Get,
}

/// The tool a name calls, if it names one.
pub open spec fn cron_tool_named(name: Seq<char>) -> Option<CronTool> {
    if name == "cron_schedule"@ {
        Some(CronTool::Schedule)
    } else if name == "cron_list"@ {
        Some(CronTool::List)
    } else if name == "cron_cancel"@ {
        Some(CronTool::Cancel)
    } else if name == "cron_get"@ {
        Some(CronTool::Get)
    } else {
        None
    }
}

/// Select the cron tool by name; any other name is an unknown tool.
pub fn select_cron_tool(name: &str) -> (r: Result<CronTool, BeaconError>)
    ensures
        match r {
            Ok(t) => cron_tool_named(name@) == Some(t),
            Err(e) => cron_tool_named(name@) is None && e is Tool && e.spec_message()
                == "unknown cron tool: "@ + name@,
        },
{
    if str_eq(name, "cron_schedule") {
        Ok(CronTool::Schedule)
    } else if str_eq(name, "cron_list") {
        Ok(CronTool::List)
    } else if str_eq(name, "cron_cancel") {
        Ok(CronTool::Cancel)
    } else if str_eq(name, "cron_get") {
        Ok(CronTool::Get)
    } else {
        proof {
            reveal_strlit("unknown cron tool: ");
        }
        Err(BeaconError::Tool(concat("unknown cron tool: ", name)))
    }
}

/// One parameter of a tool: its name, JSON type and description.
#[derive(Debug, Clone)]
pub struct ToolParam {
    /// Parameter name
    pub name: String,
    /// JSON type of the parameter
    pub kind: String,
    /// What the parameter means
    pub description: String,
}

/// The definition of a tool offered to the model.
#[derive(Debug, Clone)]
pub struct ToolSpec {
    /// Tool name
    pub name: String,
    /// What the tool does
    pub description: String,
    /// Its parameters, in order
    pub params: Vec<ToolParam>,
    /// Names of the parameters that must be given
    pub required: Vec<String>,
}

/// A parameter as plain text: name, type, description.
pub open spec fn param_view(p: ToolParam) -> (Seq<char>, Seq<char>, Seq<char>) {
    (p.name@, p.kind@, p.description@)
}

/// A tool definition as plain text.
pub open spec fn tool_view(t: ToolSpec) -> (Seq<char>, Seq<char>, Seq<(Seq<char>, Seq<char>, Seq<char>)>, Seq<
    Seq<char>,
>) {
    (t.name@, t.description@, t.params@.map_values(|p: ToolParam| param_view(p)), t.required@.map_values(
        |s: String| s@,
    ))
}

/// The cron tool definitions.
pub open spec fn cron_tool_table() -> Seq<
    (Seq<char>, Seq<char>, Seq<(Seq<char>, Seq<char>, Seq<char>)>, Seq<Seq<char>>),
> {
    seq![
        (
            "cron_schedule"@,
            "Schedule a recurring task. Provide a cron expression, action type, and payload."@,
            seq![
                ("cron"@, "string"@, "Cron expression (e.g., '0 9 * * MON' for 9 AM every Monday)"@),
                ("action"@, "string"@, "Action type to trigger (e.g., 'remind', 'check_in')"@),
                ("payload"@, "object"@, "Arbitrary data to include in the callback"@),
                ("description"@, "string"@, "Human-readable description of the schedule"@),
                ("timezone"@, "string"@, "IANA timezone (e.g., 'America/New_York'). Defaults to UTC"@),
            ],
            seq!["cron"@, "action"@, "payload"@],
        ),
        (
            "cron_list"@,
            "List all scheduled tasks with their cron expressions and next run times."@,
            Seq::empty(),
            Seq::empty(),
        ),
        (
            "cron_cancel"@,
            "Cancel a scheduled task by its ID."@,
            seq![("schedule_id"@, "string"@, "ID of the schedule to cancel"@)],
            seq!["schedule_id"@],
        ),
        (
            "cron_get"@,
            "Get details of a specific scheduled task by its ID."@,
            seq![("schedule_id"@, "string"@, "ID of the schedule to retrieve"@)],
            seq!["schedule_id"@],
        ),
    ]
}

fn param(name: &str, kind: &str, description: &str) -> (p: ToolParam)
    ensures
        param_view(p) == (name@, kind@, description@),
{
    ToolParam {
        name: String::from_str(name),
        kind: String::from_str(kind),
        description: String::from_str(description),
    }
}

fn name_list1(a: &str) -> (v: Vec<String>)
    ensures
        v@.map_values(|s: String| s@) == seq![a@],
{
    let mut v: Vec<String> = Vec::new();
    v.push(String::from_str(a));
    proof {
        assert(v@.map_values(|s: String| s@) =~= seq![a@]);
    }
    v
}

/// Definitions of the four cron tools.
pub fn cron_tool_specs() -> (r: Vec<ToolSpec>)
    ensures
        r@.map_values(|t: ToolSpec| tool_view(t)) == cron_tool_table(),
{
    let mut sched_params: Vec<ToolParam> = Vec::new();
    sched_params.push(
        param("cron", "string", "Cron expression (e.g., '0 9 * * MON' for 9 AM every Monday)"),
    );
    sched_params.push(
        param("action", "string", "Action type to trigger (e.g., 'remind', 'check_in')"),
    );
    sched_params.push(param("payload", "object", "Arbitrary data to include in the callback"));
    sched_params.push(
        param("description", "string", "Human-readable description of the schedule"),
    );
    sched_params.push(
        param("timezone", "string", "IANA timezone (e.g., 'America/New_York'). Defaults to UTC"),
    );
    let mut sched_required: Vec<String> = Vec::new();
    sched_required.push(String::from_str("cron"));
    sched_required.push(String::from_str("action"));
    sched_required.push(String::from_str("payload"));
    let schedule = ToolSpec {
        name: String::from_str("cron_schedule"),
        description: String::from_str(
            "Schedule a recurring task. Provide a cron expression, action type, and payload.",
        ),
        params: sched_params,
        required: sched_required,
    };
    let list = ToolSpec {
        name: String::from_str("cron_list"),
        description: String::from_str(
            "List all scheduled tasks with their cron expressions and next run times.",
        ),
        params: Vec::new(),
        required: Vec::new(),
    };
    let mut cancel_params: Vec<ToolParam> = Vec::new();
    cancel_params.push(param("schedule_id", "string", "ID of the schedule to cancel"));
    let cancel = ToolSpec {
        name: String::from_str("cron_cancel"),
        description: String::from_str("Cancel a scheduled task by its ID."),
        params: cancel_params,
        required: name_list1("schedule_id"),
    };
    let mut get_params: Vec<ToolParam> = Vec::new();
    get_params.push(param("schedule_id", "string", "ID of the schedule to retrieve"));
    let get = ToolSpec {
        name: String::from_str("cron_get"),
        description: String::from_str("Get details of a specific scheduled task by its ID."),
        params: get_params,
        required: name_list1("schedule_id"),
    };
    proof {
        assert(schedule.params@.map_values(|p: ToolParam| param_view(p)) =~= cron_tool_table()[0].2);
        assert(schedule.required@.map_values(|s: String| s@) =~= cron_tool_table()[0].3);
        assert(list.params@.map_values(|p: ToolParam| param_view(p)) =~= cron_tool_table()[1].2);
        assert(list.required@.map_values(|s: String| s@) =~= cron_tool_table()[1].3);
        assert(cancel.params@.map_values(|p: ToolParam| param_view(p)) =~= cron_tool_table()[2].2);
        assert(get.params@.map_values(|p: ToolParam| param_view(p)) =~= cron_tool_table()[3].2);
    }
    let mut r: Vec<ToolSpec> = Vec::new();
    r.push(schedule);
    r.push(list);
    r.push(cancel);
    r.push(get);
    proof {
        assert(r@.map_values(|t: ToolSpec| tool_view(t)) =~= cron_tool_table());
    }
    r
}

/// Parameters for scheduling a task with full options.
#[derive(Debug, Clone)]
pub struct ScheduleParams {
    /// Cron expression (e.g., "0 9 * * MON")
    pub cron: String,
    /// Action type (e.g., `remind`, `check_in`)
    pub action: String,
    /// Arbitrary payload data
    pub payload: serde_json::Value,
    /// Optional human-readable description
    pub description: Option<String>,
    /// Optional timezone (defaults to UTC)
    pub timezone: Option<String>,
}

/// Schedule a recurring webhook on the local scheduler; returns the new job's id.
pub fn schedule_local(
    scheduler: &mut LocalScheduler,
    cron: &str,
    action: &str,
    payload: serde_json::Value,
) -> (r: Result<String, BeaconError>)
    requires
        old(scheduler).wf(),
    ensures
        final(scheduler).wf(),
        r is Ok <==> cron_parse_failure(cron@) is None,
        match r {
            Ok(id) => match final(scheduler).job(id@) {
                Some(job) => {
                    &&& job.schedule@ == cron@
                    &&& job.action == CronAction::Webhook { url: job.action->url, payload: Some(payload) }
                    &&& (job.action->url)@ == action@
                    &&& job.description is None
                    &&& job.timezone is None
                    &&& forall|k: Seq<char>| k != id@ ==> #[trigger] final(scheduler).job(k) == old(scheduler).job(k)
                },
                None => false,
            },
            Err(e) => e is Tool && *final(scheduler) == *old(scheduler),
        },
{
    let cron_action = CronAction::Webhook { url: String::from_str(action), payload: Some(payload) };
    match scheduler.schedule(cron, cron_action, None, None) {
        Ok(job) => Ok(job.id),
        Err(e) => Err(e),
    }
}

/// Schedule a task with full options on the local scheduler; returns the new job's id.
pub fn schedule_local_with_options(scheduler: &mut LocalScheduler, params: ScheduleParams) -> (r:
    Result<String, BeaconError>)
    requires
        old(scheduler).wf(),
    ensures
        final(scheduler).wf(),
        r is Ok <==> cron_parse_failure(params.cron@) is None,
        match r {
            Ok(id) => match final(scheduler).job(id@) {
                Some(job) => {
                    &&& job.schedule@ == params.cron@
                    &&& job.action == CronAction::Webhook {
                        url: job.action->url,
                        payload: Some(params.payload),
                    }
                    &&& (job.action->url)@ == params.action@
                    &&& job.description == params.description
                    &&& job.timezone == params.timezone
                    &&& forall|k: Seq<char>| k != id@ ==> #[trigger] final(scheduler).job(k) == old(scheduler).job(k)
                },
                None => false,
            },
            Err(e) => e is Tool && *final(scheduler) == *old(scheduler),
        },
{
    let cron_action = CronAction::Webhook { url: params.action, payload: Some(params.payload) };
    match scheduler.schedule(params.cron.as_str(), cron_action, params.description, params.timezone) {
        Ok(job) => Ok(job.id),
        Err(e) => Err(e),
    }
}

/// Summaries of all local jobs at time `now_ms`.
pub fn list_local_at(scheduler: &LocalScheduler, now_ms: i64) -> (r: Vec<ScheduleInfo>)
    ensures
        r@.len() == scheduler.entries().len(),
        forall|i: int|
            0 <= i < r@.len() ==> {
                let job = #[trigger] scheduler.entries()[i];
                let info = r@[i];
                &&& info.id == job.id
                &&& info.cron == job.schedule
                &&& info.action@ == action_target(job.action)
                &&& info.description == job.description
                &&& info.active
                &&& match info.next_run {
                    Some(s) => next_run_text(job.schedule@, now_ms) == Some(s@),
                    None => next_run_text(job.schedule@, now_ms) is None,
                }
            },
{
    let jobs = scheduler.list();
    let mut out: Vec<ScheduleInfo> = Vec::new();
    let mut i: usize = 0;
    while i < jobs.len()
        invariant
            i <= jobs@.len(),
            jobs@ == scheduler.entries(),
            out@.len() == i,
            forall|m: int|
                0 <= m < i ==> {
                    let job = #[trigger] jobs@[m];
                    let info = out@[m];
                    &&& info.id == job.id
                    &&& info.cron == job.schedule
                    &&& info.action@ == action_target(job.action)
                    &&& info.description == job.description
                    &&& info.active
                    &&& match info.next_run {
                        Some(s) => next_run_text(job.schedule@, now_ms) == Some(s@),
                        None => next_run_text(job.schedule@, now_ms) is None,
                    }
                },
        decreases jobs@.len() - i,
    {
        let job = crate::cron::copy_job(&jobs[i]);
        out.push(schedule_info_at(job, now_ms));
        i = i + 1;
    }
    out
}

/// Summaries of all local jobs now.
pub fn list_local(scheduler: &LocalScheduler) -> (r: Vec<ScheduleInfo>)
    ensures
        r@.len() == scheduler.entries().len(),
        forall|i: int|
            0 <= i < r@.len() ==> (#[trigger] r@[i]).id == scheduler.entries()[i].id && r@[i].cron
                == scheduler.entries()[i].schedule,
{
    list_local_at(scheduler, now_millis())
}

/// The summary of the local job with the given id at time `now_ms`.
pub fn get_local_at(scheduler: &LocalScheduler, schedule_id: &str, now_ms: i64) -> (r: Result<
    ScheduleInfo,
    BeaconError,
>)
    requires
        scheduler.wf(),
    ensures
        match scheduler.job(schedule_id@) {
            None => r is Err && r->Err_0 is NotFound && r->Err_0.spec_message() == "cron job not found: "@
                + schedule_id@,
            Some(job) => match r {
                Ok(info) => {
                    &&& info.id == job.id
                    &&& info.cron == job.schedule
                    &&& info.action@ == action_target(job.action)
                    &&& info.description == job.description
                    &&& info.active
                    &&& match info.next_run {
                        Some(s) => next_run_text(job.schedule@, now_ms) == Some(s@),
                        None => next_run_text(job.schedule@, now_ms) is None,
                    }
                },
                Err(_) => false,
            },
        },
{
    match scheduler.get(schedule_id) {
        Some(job) => Ok(schedule_info_at(job, now_ms)),
        None => {
            proof {
                reveal_strlit("cron job not found: ");
            }
            Err(BeaconError::NotFound(concat("cron job not found: ", schedule_id)))
        },
    }
}

/// The summary of the local job with the given id now.
pub fn get_local(scheduler: &LocalScheduler, schedule_id: &str) -> (r: Result<ScheduleInfo, BeaconError>)
    requires
        scheduler.wf(),
    ensures
        r is Ok <==> scheduler.job(schedule_id@) is Some,
        match r {
            Ok(info) => info.id == scheduler.job(schedule_id@)->0.id && info.cron == scheduler.job(
                schedule_id@,
            )->0.schedule,
            Err(e) => e is NotFound && e.spec_message() == "cron job not found: "@ + schedule_id@,
        },
{
    get_local_at(scheduler, schedule_id, now_millis())
}

} // verus!
