//! In-process cron scheduling: jobs held by id, cron expressions checked by croner.

use vstd::prelude::*;

use crate::error::BeaconError;
use crate::text::{concat, str_eq};

verus! {

#[verifier::external_type_specification]
#[verifier::external_body]
pub struct ExJsonValue(serde_json::Value);

/// `Clone::clone` on `serde_json::Value` (derived): the copy equals the original.
pub assume_specification[ <serde_json::Value as Clone>::clone ](v: &serde_json::Value) -> (r: serde_json::Value)
    ensures
        r == *v,
;

/// What croner reports for a cron expression: `None` when `Cron::new(expr).parse()`
/// accepts it, otherwise the text of the `CronError` it returns.
pub uninterp spec fn cron_parse_failure(expr: Seq<char>) -> Option<Seq<char>>;

/// `croner::Cron::new(expr).parse()`, with the error turned into its `Display` text.
#[verifier::external_body]
fn cron_parse_error(expr: &str) -> (r: Option<String>)
    ensures
        match r {
            Some(m) => cron_parse_failure(expr@) == Some(m@),
            None => cron_parse_failure(expr@) is None,
        },
{
    match croner::Cron::new(expr).parse() {
        Ok(_) => None,
        Err(e) => Some(e.to_string()),
    }
}

/// The first time strictly after `after_ms` (milliseconds since the Unix epoch, UTC) at
/// which croner says the expression fires, in the same unit; `None` when croner rejects
/// the expression or finds no such time.
pub uninterp spec fn cron_next_occurrence(expr: Seq<char>, after_ms: i64) -> Option<i64>;

/// `croner::Cron::find_next_occurrence(&t, false)` on the parsed expression, where `t` is the
/// UTC instant `after_ms` built by `chrono::DateTime::from_timestamp_millis`.
#[verifier::external_body]
fn next_occurrence_ms(expr: &str, after_ms: i64) -> (r: Option<i64>)
    ensures
        r == cron_next_occurrence(expr@, after_ms),
{
    let cron = croner::Cron::new(expr).parse().ok()?;
    let start = chrono::DateTime::from_timestamp_millis(after_ms)?;
    cron.find_next_occurrence(&start, false).ok().map(|t| t.timestamp_millis())
}

/// The RFC 3339 text chrono gives for the UTC instant `ms` milliseconds after the Unix
/// epoch; `None` when chrono cannot represent that instant.
pub uninterp spec fn rfc3339_of_millis(ms: i64) -> Option<Seq<char>>;

/// `chrono::DateTime::from_timestamp_millis(ms)` rendered with `to_rfc3339`.
#[verifier::external_body]
fn format_rfc3339(ms: i64) -> (r: Option<String>)
    ensures
        match r {
            Some(s) => rfc3339_of_millis(ms) == Some(s@),
            None => rfc3339_of_millis(ms) is None,
        },
{
    chrono::DateTime::from_timestamp_millis(ms).map(|t| t.to_rfc3339())
}

/// A fresh random job id: `uuid::Uuid::new_v4().to_string()`.
#[verifier::external_body]
fn new_job_id() -> (r: String) {
    uuid::Uuid::new_v4().to_string()
}

/// The current time in milliseconds since the Unix epoch: `chrono::Utc::now().timestamp_millis()`.
#[verifier::external_body]
pub(crate) fn now_millis() -> (r: i64) {
    chrono::Utc::now().timestamp_millis()
}

/// Action to perform when a cron job fires.
#[derive(Debug, Clone)]
pub enum CronAction {
    /// Send a prompt to an agent on a channel
    AgentPrompt {
        /// Prompt text
        prompt: String,
        /// Target channel
        channel: String,
    },
    /// Send an HTTP webhook
    Webhook {
        /// Target URL
        url: String,
        /// Optional JSON payload
        payload: Option<serde_json::Value>,
    },
}

/// A scheduled cron job.
#[derive(Debug, Clone)]
pub struct CronJob {
    /// Unique identifier
    pub id: String,
    /// Cron expression (e.g., "0 9 * * MON")
    pub schedule: String,
    /// Human-readable description
    pub description: Option<String>,
    /// Action to perform when the job fires
    pub action: CronAction,
    /// IANA timezone (defaults to UTC)
    pub timezone: Option<String>,
    /// Creation time, in milliseconds since the Unix epoch (UTC)
    pub created_at: i64,
}

fn copy_opt_string(s: &Option<String>) -> (r: Option<String>)
    ensures
        r == *s,
{
    match s {
        Some(x) => Some(x.clone()),
        None => None,
    }
}

fn copy_action(a: &CronAction) -> (r: CronAction)
    ensures
        r == *a,
{
    match a {
        CronAction::AgentPrompt { prompt, channel } => CronAction::AgentPrompt {
            prompt: prompt.clone(),
            channel: channel.clone(),
        },
        CronAction::Webhook { url, payload } => {
            let p = match payload {
                Some(v) => Some(v.clone()),
                None => None,
            };
            CronAction::Webhook { url: url.clone(), payload: p }
        },
    }
}

/// An exact copy of a job.
pub fn copy_job(j: &CronJob) -> (r: CronJob)
    ensures
        r == *j,
{
    CronJob {
        id: j.id.clone(),
        schedule: j.schedule.clone(),
        description: copy_opt_string(&j.description),
        action: copy_action(&j.action),
        timezone: copy_opt_string(&j.timezone),
        created_at: j.created_at,
    }
}

/// The job stored under `id`: the last one in `jobs` with that id.
pub open spec fn job_lookup(jobs: Seq<CronJob>, id: Seq<char>) -> Option<CronJob>
    decreases jobs.len(),
{
    if jobs.len() == 0 {
        None
    } else if jobs.last().id@ == id {
        Some(jobs.last())
    } else {
        job_lookup(jobs.drop_last(), id)
    }
}

/// No two jobs share an id.
pub open spec fn job_ids_unique(jobs: Seq<CronJob>) -> bool {
    forall|i: int, j: int|
        0 <= i < j < jobs.len() ==> (#[trigger] jobs[i]).id@ != (#[trigger] jobs[j]).id@
}

/// A job is due when croner's next firing after the last check is no later than now.
pub open spec fn job_due(job: CronJob, last_check_ms: i64, now_ms: i64) -> bool {
    match cron_next_occurrence(job.schedule@, last_check_ms) {
        Some(next) => next <= now_ms,
        None => false,
    }
}

proof fn lemma_job_lookup_at(v: Seq<CronJob>, k: Seq<char>, idx: int)
    requires
        0 <= idx < v.len(),
        v[idx].id@ == k,
        forall|m: int| idx < m < v.len() ==> (#[trigger] v[m]).id@ != k,
    ensures
        job_lookup(v, k) == Some(v[idx]),
    decreases v.len(),
{
    if idx < v.len() - 1 {
        assert(v.last().id@ != k);
        lemma_job_lookup_at(v.drop_last(), k, idx);
    }
}

proof fn lemma_job_lookup_absent(v: Seq<CronJob>, k: Seq<char>)
    requires
        forall|m: int| 0 <= m < v.len() ==> (#[trigger] v[m]).id@ != k,
    ensures
        job_lookup(v, k) is None,
    decreases v.len(),
{
    if v.len() > 0 {
        assert(v.last().id@ != k);
        lemma_job_lookup_absent(v.drop_last(), k);
    }
}

proof fn lemma_job_lookup_update(v: Seq<CronJob>, idx: int, a: CronJob, k: Seq<char>)
    requires
        0 <= idx < v.len(),
        v[idx].id@ == a.id@,
        k != a.id@,
    ensures
        job_lookup(v.update(idx, a), k) == job_lookup(v, k),
    decreases v.len(),
{
    let u = v.update(idx, a);
    if idx == v.len() - 1 {
        assert(u.drop_last() =~= v.drop_last());
    } else {
        assert(u.drop_last() =~= v.drop_last().update(idx, a));
        lemma_job_lookup_update(v.drop_last(), idx, a, k);
    }
}

proof fn lemma_job_lookup_remove(v: Seq<CronJob>, idx: int, k: Seq<char>)
    requires
        0 <= idx < v.len(),
        v[idx].id@ != k,
    ensures
        job_lookup(v.remove(idx), k) == job_lookup(v, k),
    decreases v.len(),
{
    let u = v.remove(idx);
    if idx == v.len() - 1 {
        assert(u =~= v.drop_last());
    } else {
        assert(u.last() == v.last());
        assert(u.drop_last() =~= v.drop_last().remove(idx));
        lemma_job_lookup_remove(v.drop_last(), idx, k);
    }
}

/// In-process cron scheduler: the jobs it holds, at most one per id.
#[derive(Debug)]
pub struct LocalScheduler {
    jobs: Vec<CronJob>,
}

impl LocalScheduler {
    /// The jobs held, in the order they were first scheduled.
    pub closed spec fn entries(&self) -> Seq<CronJob> {
        self.jobs@
    }

    /// Every id is held at most once.
    pub open spec fn wf(&self) -> bool {
        job_ids_unique(self.entries())
    }

    /// The job held under `id`, if any.
    pub open spec fn job(&self, id: Seq<char>) -> Option<CronJob> {
        job_lookup(self.entries(), id)
    }

    /// Create a new empty scheduler.
    pub fn new() -> (s: Self)
        ensures
            s.wf(),
            s.entries() == Seq::<CronJob>::empty(),
    {
        LocalScheduler { jobs: Vec::new() }
    }

    /// Position of the job with the given id, if any.
    fn position(&self, id: &str) -> (r: Option<usize>)
        requires
            self.wf(),
        ensures
            match r {
                Some(i) => i < self.entries().len() && self.entries()[i as int].id@ == id@,
                None => forall|m: int|
                    0 <= m < self.entries().len() ==> (#[trigger] self.entries()[m]).id@ != id@,
            },
    {
        let mut i: usize = 0;
        while i < self.jobs.len()
            invariant
                i <= self.jobs@.len(),
                forall|m: int| 0 <= m < i ==> (#[trigger] self.jobs@[m]).id@ != id@,
            decreases self.jobs@.len() - i,
        {
            if str_eq(self.jobs[i].id.as_str(), id) {
                return Some(i);
            }
            i = i + 1;
        }
        None
    }

    /// Store a job under its id, replacing any job already held under that id.
    pub fn insert_job(&mut self, job: CronJob)
        requires
            old(self).wf(),
        ensures
            final(self).wf(),
            final(self).job(job.id@) == Some(job),
            forall|k: Seq<char>| k != job.id@ ==> #[trigger] final(self).job(k) == old(self).job(k),
    {
        let ghost old_jobs = self.jobs@;
        let ghost jid = job.id@;
        match self.position(job.id.as_str()) {
            Some(i) => {
                self.jobs.set(i, job);
                proof {
                    let v = self.jobs@;
                    assert(v =~= old_jobs.update(i as int, job));
                    assert forall|m: int| i < m < v.len() implies (#[trigger] v[m]).id@ != jid by {
                        assert(old_jobs[i as int].id@ != old_jobs[m].id@);
                    }
                    lemma_job_lookup_at(v, jid, i as int);
                    assert forall|a: int, b: int| 0 <= a < b < v.len() implies (#[trigger] v[a]).id@
                        != (#[trigger] v[b]).id@ by {
                        assert(old_jobs[a].id@ != old_jobs[b].id@);
                    }
                    assert forall|k: Seq<char>| k != jid implies #[trigger] job_lookup(v, k)
                        == job_lookup(old_jobs, k) by {
                        lemma_job_lookup_update(old_jobs, i as int, job, k);
                    }
                }
            },
            None => {
                self.jobs.push(job);
                proof {
                    let v = self.jobs@;
                    assert(v.drop_last() =~= old_jobs);
                    assert forall|a: int, b: int| 0 <= a < b < v.len() implies (#[trigger] v[a]).id@
                        != (#[trigger] v[b]).id@ by {
                        if b < v.len() - 1 {
                            assert(old_jobs[a].id@ != old_jobs[b].id@);
                        }
                    }
                }
            },
        }
    }

    /// Schedule a new cron job.
    ///
    /// Validates the cron expression, creates a job with a fresh id and the current
    /// time, and stores it.
    pub fn schedule(
        &mut self,
        schedule_expr: &str,
        action: CronAction,
        description: Option<String>,
        timezone: Option<String>,
    ) -> (r: Result<CronJob, BeaconError>)
        requires
            old(self).wf(),
        ensures
            final(self).wf(),
            r is Ok <==> cron_parse_failure(schedule_expr@) is None,
            match r {
                Ok(job) => {
                    &&& job.schedule@ == schedule_expr@
                    &&& job.action == action
                    &&& job.description == description
                    &&& job.timezone == timezone
                    &&& final(self).job(job.id@) == Some(job)
                    &&& forall|k: Seq<char>| k != job.id@ ==> #[trigger] final(self).job(k) == old(self).job(k)
                },
                Err(e) => {
                    &&& e is Tool
                    &&& e.spec_message() == "invalid cron expression: "@ + cron_parse_failure(
                        schedule_expr@,
                    ).unwrap()
                    &&& *final(self) == *old(self)
                },
            },
    {
        match cron_parse_error(schedule_expr) {
            Some(msg) => {
                let text = concat("invalid cron expression: ", msg.as_str());
                proof {
                    reveal_strlit("invalid cron expression: ");
                }
                return Err(BeaconError::Tool(text));
            },
            None => {},
        }
        let job = CronJob {
            id: new_job_id(),
            schedule: String::from_str(schedule_expr),
            description,
            action,
            timezone,
            created_at: now_millis(),
        };
        let stored = copy_job(&job);
        self.insert_job(stored);
        Ok(job)
    }

    /// Cancel a scheduled job by id.
    pub fn cancel(&mut self, job_id: &str) -> (r: Result<(), BeaconError>)
        requires
            old(self).wf(),
        ensures
            final(self).wf(),
            r is Ok <==> old(self).job(job_id@) is Some,
            final(self).job(job_id@) is None,
            forall|k: Seq<char>| k != job_id@ ==> #[trigger] final(self).job(k) == old(self).job(k),
            match r {
                Ok(_) => true,
                Err(e) => e is NotFound && e.spec_message() == "cron job not found: "@ + job_id@,
            },
    {
        let ghost old_jobs = self.jobs@;
        match self.position(job_id) {
            Some(i) => {
                let _removed = self.jobs.remove(i);
                proof {
                    let v = self.jobs@;
                    assert(v =~= old_jobs.remove(i as int));
                    assert forall|m: int| i < m < old_jobs.len() implies (#[trigger] old_jobs[m]).id@
                        != job_id@ by {
                        assert(old_jobs[i as int].id@ != old_jobs[m].id@);
                    }
                    lemma_job_lookup_at(old_jobs, job_id@, i as int);
                    assert forall|m: int| 0 <= m < v.len() implies (#[trigger] v[m]).id@ != job_id@ by {
                        if m < i {
                            assert(old_jobs[m].id@ != old_jobs[i as int].id@);
                        } else {
                            assert(v[m] == old_jobs[m + 1]);
                            assert(old_jobs[i as int].id@ != old_jobs[m + 1].id@);
                        }
                    }
                    lemma_job_lookup_absent(v, job_id@);
                    assert forall|a: int, b: int| 0 <= a < b < v.len() implies (#[trigger] v[a]).id@
                        != (#[trigger] v[b]).id@ by {
                        let a2 = if a < i { a } else { a + 1 };
                        let b2 = if b < i { b } else { b + 1 };
                        assert(v[a] == old_jobs[a2]);
                        assert(v[b] == old_jobs[b2]);
                        assert(old_jobs[a2].id@ != old_jobs[b2].id@);
                    }
                    assert forall|k: Seq<char>| k != job_id@ implies #[trigger] job_lookup(v, k)
                        == job_lookup(old_jobs, k) by {
                        lemma_job_lookup_remove(old_jobs, i as int, k);
                    }
                }
                Ok(())
            },
            None => {
                proof {
                    lemma_job_lookup_absent(old_jobs, job_id@);
                    reveal_strlit("cron job not found: ");
                }
                Err(BeaconError::NotFound(concat("cron job not found: ", job_id)))
            },
        }
    }

    /// All scheduled jobs.
    pub fn list(&self) -> (r: Vec<CronJob>)
        ensures
            r@ == self.entries(),
    {
        let mut out: Vec<CronJob> = Vec::new();
        let mut i: usize = 0;
        while i < self.jobs.len()
            invariant
                i <= self.jobs@.len(),
                out@ == self.jobs@.subrange(0, i as int),
            decreases self.jobs@.len() - i,
        {
            out.push(copy_job(&self.jobs[i]));
            proof {
                assert(out@ =~= self.jobs@.subrange(0, i + 1));
            }
            i = i + 1;
        }
        proof {
            assert(self.jobs@.subrange(0, self.jobs@.len() as int) =~= self.jobs@);
        }
        out
    }

    /// The job with the given id, if any.
    pub fn get(&self, job_id: &str) -> (r: Option<CronJob>)
        requires
            self.wf(),
        ensures
            r == self.job(job_id@),
    {
        match self.position(job_id) {
            Some(i) => {
                proof {
                    let v = self.jobs@;
                    assert forall|m: int| i < m < v.len() implies (#[trigger] v[m]).id@ != job_id@ by {
                        assert(v[i as int].id@ != v[m].id@);
                    }
                    lemma_job_lookup_at(v, job_id@, i as int);
                }
                Some(copy_job(&self.jobs[i]))
            },
            None => {
                proof {
                    lemma_job_lookup_absent(self.jobs@, job_id@);
                }
                None
            },
        }
    }

    /// The jobs that should have fired between the last check and now, in order.
    pub fn due_jobs(&self, last_check_ms: i64, now_ms: i64) -> (r: Vec<CronJob>)
        ensures
            r@ == self.entries().filter(|j: CronJob| job_due(j, last_check_ms, now_ms)),
    {
        let ghost pred = |j: CronJob| job_due(j, last_check_ms, now_ms);
        let mut out: Vec<CronJob> = Vec::new();
        let mut i: usize = 0;
        while i < self.jobs.len()
            invariant
                i <= self.jobs@.len(),
                out@ == self.jobs@.subrange(0, i as int).filter(pred),
                pred == (|j: CronJob| job_due(j, last_check_ms, now_ms)),
            decreases self.jobs@.len() - i,
        {
            let next = next_occurrence_ms(self.jobs[i].schedule.as_str(), last_check_ms);
            let due = match next {
                Some(n) => n <= now_ms,
                None => false,
            };
            proof {
                let s = self.jobs@.subrange(0, i + 1);
                assert(s.drop_last() =~= self.jobs@.subrange(0, i as int));
                assert(s.last() == self.jobs@[i as int]);
                reveal(Seq::filter);
                assert(due == pred(s.last()));
            }
            if due {
                out.push(copy_job(&self.jobs[i]));
            }
            i = i + 1;
        }
        proof {
            assert(self.jobs@.subrange(0, self.jobs@.len() as int) =~= self.jobs@);
        }
        out
    }
}

/// Summary information about a scheduled task.
#[derive(Debug, Clone)]
pub struct ScheduleInfo {
    /// Unique identifier
    pub id: String,
    /// Cron expression
    pub cron: String,
    /// Action type
    pub action: String,
    /// Next scheduled run time (RFC 3339 string)
    pub next_run: Option<String>,
    /// Description
    pub description: Option<String>,
    /// Whether the schedule is active
    pub active: bool,
}

/// What a job's action is reported as: the channel of a prompt, the URL of a webhook.
pub open spec fn action_target(a: CronAction) -> Seq<char> {
    match a {
        CronAction::AgentPrompt { channel, .. } => channel@,
        CronAction::Webhook { url, .. } => url@,
    }
}

/// The RFC 3339 text of croner's next firing of `expr` after `now_ms`, when both exist.
pub open spec fn next_run_text(expr: Seq<char>, now_ms: i64) -> Option<Seq<char>> {
    match cron_next_occurrence(expr, now_ms) {
        Some(t) => rfc3339_of_millis(t),
        None => None,
    }
}

/// The summary of a local job at time `now_ms`.
pub fn schedule_info_at(job: CronJob, now_ms: i64) -> (r: ScheduleInfo)
    ensures
        r.id == job.id,
        r.cron == job.schedule,
        r.action@ == action_target(job.action),
        r.description == job.description,
        r.active,
        match r.next_run {
            Some(s) => next_run_text(job.schedule@, now_ms) == Some(s@),
            None => next_run_text(job.schedule@, now_ms) is None,
        },
{
    let next_run = match next_occurrence_ms(job.schedule.as_str(), now_ms) {
        Some(t) => format_rfc3339(t),
        None => None,
    };
    let action = match &job.action {
        CronAction::AgentPrompt { channel, .. } => channel.clone(),
        CronAction::Webhook { url, .. } => url.clone(),
    };
    ScheduleInfo {
        id: job.id,
        cron: job.schedule,
        action,
        next_run,
        description: job.description,
        active: true,
    }
}

} // verus!
