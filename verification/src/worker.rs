//! Background-worker decisions: what a job's outcome does to it, which
//! task a job payload names, the default schedule, and how a conversion
//! job's payload is read.
//!
//! Claiming jobs, running handlers and writing job records are done by the
//! caller.

use vstd::prelude::*;
use crate::text::{concat2, concat3, str_eq};

verus! {

/// Why a job failed.
#[derive(Debug)]
pub enum JobExecutionError {
    /// The job cannot succeed; do not retry it.
    Permanent(String),
    /// The job may succeed when retried.
    Transient(String),
    /// An application error, by its message.
    Internal(String),
}

/// The message of a job execution error.
pub open spec fn job_error_message(e: JobExecutionError) -> Seq<char> {
    match e {
        JobExecutionError::Permanent(m) => "Permanent job failure: "@ + m@,
        JobExecutionError::Transient(m) => "Transient job failure: "@ + m@,
        JobExecutionError::Internal(m) => "Internal error: "@ + m@,
    }
}

impl JobExecutionError {
    /// The error's message.
    pub fn message(&self) -> (r: String)
        ensures
            r@ == job_error_message(*self),
    {
        match self {
            JobExecutionError::Permanent(m) => concat2("Permanent job failure: ", m.as_str()),
            JobExecutionError::Transient(m) => concat2("Transient job failure: ", m.as_str()),
            JobExecutionError::Internal(m) => concat2("Internal error: ", m.as_str()),
        }
    }
}

/// What to do with a job once its handler has returned.
#[derive(Debug)]
pub enum JobAction {
    /// Mark it completed.
    Complete,
    /// Put it back in its queue for another attempt.
    Retry,
    /// Mark it failed with this message.
    Fail(String),
}

/// Whether a job that just made attempt number `attempts + 1` has attempts left.
pub open spec fn has_attempts_left(attempts: Option<i32>, max_attempts: Option<i32>) -> bool {
    let done: int = match attempts { Some(a) => a as int, None => 0 };
    let max: int = match max_attempts { Some(m) => m as int, None => 0 };
    done + 1 < max
}

/// The action for a job's outcome: success completes it; a transient
/// failure is retried while attempts are left and fails it otherwise; a
/// permanent or internal failure fails it. A failure is recorded with its
/// own message, with no prefix.
pub fn job_action(attempts: Option<i32>, max_attempts: Option<i32>, outcome: Result<(), JobExecutionError>) -> (r: JobAction)
    requires
        match attempts { Some(a) => a < i32::MAX, None => true },
    ensures
        match outcome {
            Ok(()) => r is Complete,
            Err(JobExecutionError::Transient(m)) => if has_attempts_left(attempts, max_attempts) {
                r is Retry
            } else {
                r matches JobAction::Fail(f) && f@ == m@
            },
            Err(JobExecutionError::Permanent(m)) => r matches JobAction::Fail(f) && f@ == m@,
            Err(JobExecutionError::Internal(m)) => r matches JobAction::Fail(f) && f@ == m@,
        },
{
    match outcome {
        Ok(()) => JobAction::Complete,
        Err(JobExecutionError::Transient(m)) => {
            let done: i32 = match attempts {
                Some(a) => a,
                None => 0,
            };
            let max: i32 = match max_attempts {
                Some(m) => m,
                None => 0,
            };
            if done + 1 < max {
                JobAction::Retry
            } else {
                JobAction::Fail(m)
            }
        },
        Err(JobExecutionError::Permanent(m)) => JobAction::Fail(m),
        Err(JobExecutionError::Internal(m)) => JobAction::Fail(m),
    }
}

/// The queues a worker polls by default, in polling order.
pub open spec fn default_queue_names() -> Seq<Seq<char>> {
    seq!["critical"@, "conversion"@, "default"@, "maintenance"@]
}

/// The queues a worker polls by default, in polling order.
pub fn default_queues() -> (r: Vec<String>)
    ensures
        r.deep_view() == default_queue_names(),
{
    let mut r: Vec<String> = Vec::new();
    r.push(crate::mapping::owned("critical"));
    r.push(crate::mapping::owned("conversion"));
    r.push(crate::mapping::owned("default"));
    r.push(crate::mapping::owned("maintenance"));
    assert(r.deep_view() =~= default_queue_names());
    r
}

/// Queue statistics.
#[derive(Debug)]
pub struct QueueStats {
    /// Number of pending jobs.
    pub pending: i64,
    /// Number of running jobs.
    pub running: i64,
    /// Number of failed jobs.
    pub failed: i64,
    /// Current worker identifier.
    pub worker_id: String,
}

/// Priority of a job.
#[derive(Debug, Clone, Copy, PartialEq, Eq, Structural)]
pub enum JobPriority {
    Low,
    Normal,
    High,
}

/// A periodic task: when it runs and the job it enqueues.
#[derive(Debug)]
pub struct ScheduledTask {
    /// Cron expression with seconds.
    pub cron: &'static str,
    /// Job type to enqueue.
    pub job_type: &'static str,
    /// Queue to enqueue into.
    pub queue: &'static str,
    /// Priority of the job.
    pub priority: JobPriority,
    /// The `task` field of the job's payload.
    pub task: &'static str,
    /// Maximum attempts of the job.
    pub max_attempts: i32,
}

/// One row of the default schedule, as plain values.
pub open spec fn schedule_row(t: ScheduledTask) -> (Seq<char>, Seq<char>, Seq<char>, JobPriority, Seq<char>, i32) {
    (t.cron@, t.job_type@, t.queue@, t.priority, t.task@, t.max_attempts)
}

/// The default schedule, in registration order.
pub open spec fn default_schedule_rows() -> Seq<(Seq<char>, Seq<char>, Seq<char>, JobPriority, Seq<char>, i32)> {
    seq![
        ("0 */15 * * * *"@, "session_cleanup"@, "maintenance"@, JobPriority::Normal, "session_cleanup"@, 1i32),
        ("0 0 * * * *"@, "chunk_cleanup"@, "maintenance"@, JobPriority::Low, "chunk_cleanup"@, 1i32),
        ("0 0 3 * * *"@, "temp_cleanup"@, "maintenance"@, JobPriority::Low, "temp_cleanup"@, 1i32),
        ("0 0 4 * * 0"@, "version_cleanup"@, "maintenance"@, JobPriority::Low, "version_cleanup"@, 1i32),
        ("0 0 8 * * 1"@, "weekly_report"@, "default"@, JobPriority::Normal, "weekly_report"@, 3i32),
        ("*/15 * * * * *"@, "pool_sync"@, "critical"@, JobPriority::High, "pool_sync"@, 1i32),
        ("0 * * * * *"@, "presence_reconciliation"@, "maintenance"@, JobPriority::Normal, "presence_reconciliation"@, 1i32),
        ("0 0 2 * * *"@, "notification_cleanup"@, "maintenance"@, JobPriority::Low, "notification_cleanup"@, 1i32),
        ("0 */5 * * * *"@, "idle_session_check"@, "default"@, JobPriority::Normal, "idle_session_check"@, 1i32),
    ]
}

fn task(cron: &'static str, job_type: &'static str, queue: &'static str, priority: JobPriority, max_attempts: i32) -> (r: ScheduledTask)
    ensures
        schedule_row(r) == (cron@, job_type@, queue@, priority, job_type@, max_attempts),
{
    ScheduledTask { cron, job_type, queue, priority, task: job_type, max_attempts }
}

/// The periodic tasks a worker registers, in registration order.
pub fn default_schedule() -> (r: Vec<ScheduledTask>)
    ensures
        r@.map_values(|t: ScheduledTask| schedule_row(t)) == default_schedule_rows(),
{
    let mut r: Vec<ScheduledTask> = Vec::new();
    r.push(task("0 */15 * * * *", "session_cleanup", "maintenance", JobPriority::Normal, 1));
    r.push(task("0 0 * * * *", "chunk_cleanup", "maintenance", JobPriority::Low, 1));
    r.push(task("0 0 3 * * *", "temp_cleanup", "maintenance", JobPriority::Low, 1));
    r.push(task("0 0 4 * * 0", "version_cleanup", "maintenance", JobPriority::Low, 1));
    r.push(task("0 0 8 * * 1", "weekly_report", "default", JobPriority::Normal, 3));
    r.push(task("*/15 * * * * *", "pool_sync", "critical", JobPriority::High, 1));
    r.push(task("0 * * * * *", "presence_reconciliation", "maintenance", JobPriority::Normal, 1));
    r.push(task("0 0 2 * * *", "notification_cleanup", "maintenance", JobPriority::Low, 1));
    r.push(task("0 */5 * * * *", "idle_session_check", "default", JobPriority::Normal, 1));
    assert(r@.map_values(|t: ScheduledTask| schedule_row(t)) =~= default_schedule_rows());
    r
}

/// The task a payload names, or the family's default when it names none.
pub open spec fn named_task(task: Option<&str>, default_task: Seq<char>) -> Seq<char> {
    match task {
        Some(t) => t@,
        None => default_task,
    }
}

/// Message for a task a handler family does not know.
pub open spec fn unknown_task_message(family: Seq<char>, task: Seq<char>) -> Seq<char> {
    "Unknown "@ + family + " task: '"@ + task + "'"@
}

/// Which of a handler family's tasks a payload asks for: the position of
/// the named task (or the default) among `known`, else a permanent error.
pub fn resolve_task(task: Option<&str>, default_task: &str, known: &Vec<&str>, family: &str) -> (r: Result<usize, JobExecutionError>)
    ensures
        match r {
            Ok(i) => i < known@.len() && known@[i as int]@ == named_task(task, default_task@)
                && forall|j: int| 0 <= j < i ==> known@[j]@ != named_task(task, default_task@),
            Err(e) => (e matches JobExecutionError::Permanent(m)
                && m@ == unknown_task_message(family@, named_task(task, default_task@)))
                && forall|j: int| 0 <= j < known@.len() ==> known@[j]@ != named_task(task, default_task@),
        },
{
    let name: &str = match task {
        Some(t) => t,
        None => default_task,
    };
    let mut i: usize = 0;
    while i < known.len()
        invariant
            i <= known@.len(),
            name@ == named_task(task, default_task@),
            forall|j: int| 0 <= j < i ==> known@[j]@ != name@,
        decreases known@.len() - i,
    {
        if str_eq(known[i], name) {
            return Ok(i);
        }
        i = i + 1;
    }
    proof {
        reveal_strlit("Unknown ");
        reveal_strlit(" task: '");
        reveal_strlit("'");
    }
    let head = concat3("Unknown ", family, " task: '");
    let msg = concat3(head.as_str(), name, "'");
    Err(JobExecutionError::Permanent(msg))
}

/// What a uuid string parses to: its 128-bit value, or the parser's message.
pub uninterp spec fn uuid_parse(s: Seq<char>) -> Result<u128, Seq<char>>;

/// Parses a UUID string.
///
/// Trusted: calls `uuid::Uuid::parse_str` and converts the result to the
/// UUID's `u128` value or the error's message; the result is a function of
/// the string alone, named `uuid_parse`. Nothing more is stated of which
/// strings parse.
#[verifier::external_body]
fn parse_uuid(s: &str) -> (r: Result<u128, String>)
    ensures
        match r {
            Ok(v) => uuid_parse(s@) == Ok::<u128, Seq<char>>(v),
            Err(m) => uuid_parse(s@) == Err::<u128, Seq<char>>(m@),
        },
{
    match uuid::Uuid::parse_str(s) {
        Ok(u) => Ok(u.as_u128()),
        Err(e) => Err(e.to_string()),
    }
}

/// The fields a conversion job reads from its payload; `None` where the
/// payload lacks the field or it is not a string (for `targets`: not a list
/// of strings).
#[derive(Debug)]
pub struct ConversionPayload {
    pub file_id: Option<String>,
    pub file_name: Option<String>,
    pub source_path: Option<String>,
    pub targets: Option<Vec<String>>,
    pub output_dir: Option<String>,
}

/// A conversion job ready for the conversion service.
#[derive(Debug)]
pub struct ConversionJob {
    /// The file's UUID.
    pub file_id: u128,
    pub file_name: String,
    pub source_path: String,
    pub targets: Vec<String>,
    pub output_dir: String,
    /// The job's own ID.
    pub job_id: String,
}

/// Where conversions write when the payload names no directory.
pub open spec fn default_conversion_dir() -> Seq<char> {
    "./data/cache/conversions"@
}

/// What reading a conversion payload gives: the job, or the permanent
/// error's message. The file ID is checked right after it is found.
pub open spec fn conversion_job_spec(p: ConversionPayload) -> Result<(u128, Seq<char>, Seq<char>, Seq<Seq<char>>, Seq<char>), Seq<char>> {
    match p.file_id {
        None => Err("Missing file_id in conversion payload"@),
        Some(id) => match uuid_parse(id@) {
            Err(e) => Err("Invalid file_id: "@ + e),
            Ok(v) => match p.file_name {
                None => Err("Missing file_name in conversion payload"@),
                Some(name) => match p.source_path {
                    None => Err("Missing source_path in conversion payload"@),
                    Some(src) => Ok((
                        v,
                        name@,
                        src@,
                        match p.targets { Some(t) => t.deep_view(), None => Seq::empty() },
                        match p.output_dir { Some(d) => d@, None => default_conversion_dir() },
                    )),
                },
            },
        },
    }
}

/// Reads a conversion job's payload; missing or malformed fields are
/// permanent failures.
pub fn parse_conversion_job(payload: ConversionPayload, job_id: String) -> (r: Result<ConversionJob, JobExecutionError>)
    ensures
        match (r, conversion_job_spec(payload)) {
            (Ok(j), Ok(s)) => (j.file_id, j.file_name@, j.source_path@, j.targets.deep_view(), j.output_dir@) == s
                && j.job_id@ == job_id@,
            (Err(e), Err(m)) => e matches JobExecutionError::Permanent(msg) && msg@ == m,
            _ => false,
        },
{
    let ghost p = payload;
    let ConversionPayload { file_id, file_name, source_path, targets, output_dir } = payload;
    proof {
        reveal_strlit("Missing file_id in conversion payload");
        reveal_strlit("Invalid file_id: ");
        reveal_strlit("Missing file_name in conversion payload");
        reveal_strlit("Missing source_path in conversion payload");
    }
    let id_text = match file_id {
        Some(s) => s,
        None => return Err(JobExecutionError::Permanent(crate::mapping::owned("Missing file_id in conversion payload"))),
    };
    let id: u128 = match parse_uuid(id_text.as_str()) {
        Ok(v) => v,
        Err(e) => return Err(JobExecutionError::Permanent(concat2("Invalid file_id: ", e.as_str()))),
    };
    let name = match file_name {
        Some(s) => s,
        None => return Err(JobExecutionError::Permanent(crate::mapping::owned("Missing file_name in conversion payload"))),
    };
    let src = match source_path {
        Some(s) => s,
        None => return Err(JobExecutionError::Permanent(crate::mapping::owned("Missing source_path in conversion payload"))),
    };
    let targets = match targets {
        Some(t) => t,
        None => Vec::new(),
    };
    assert(p.targets is None ==> targets.deep_view() =~= Seq::<Seq<char>>::empty());
    let output_dir = match output_dir {
        Some(d) => d,
        None => crate::mapping::owned("./data/cache/conversions"),
    };
    Ok(ConversionJob { file_id: id, file_name: name, source_path: src, targets, output_dir, job_id })
}

/// What a license pool task does next.
#[derive(Debug, Clone, Copy, PartialEq, Eq, Structural)]
pub enum PoolTaskStep {
    /// Run the pool operation.
    Run,
    /// Report the task as skipped: the license system is disabled.
    Skip,
}

/// A license pool task: fails permanently without a pool service, is
/// skipped when the service is disabled, and runs otherwise.
pub fn pool_task_step(has_service: bool, service_enabled: bool) -> (r: Result<PoolTaskStep, JobExecutionError>)
    ensures
        !has_service ==> (r matches Err(JobExecutionError::Permanent(m)) && m@ == "License system not enabled"@),
        has_service && !service_enabled ==> r == Ok::<PoolTaskStep, JobExecutionError>(PoolTaskStep::Skip),
        has_service && service_enabled ==> r == Ok::<PoolTaskStep, JobExecutionError>(PoolTaskStep::Run),
{
    if !has_service {
        return Err(JobExecutionError::Permanent(crate::mapping::owned("License system not enabled")));
    }
    if !service_enabled {
        Ok(PoolTaskStep::Skip)
    } else {
        Ok(PoolTaskStep::Run)
    }
}

/// The job types a worker has handlers for, each once, in registration order.
#[derive(Debug)]
pub struct HandlerRegistry {
    job_types: Vec<String>,
}

/// Message when no handler is registered for a job type.
pub open spec fn no_handler_message(job_type: Seq<char>) -> Seq<char> {
    "No handler registered for job type '"@ + job_type + "'"@
}

impl HandlerRegistry {
    /// The registered job types.
    pub closed spec fn types(&self) -> Seq<Seq<char>> {
        self.job_types.deep_view()
    }

    #[verifier::type_invariant]
    spec fn unique(&self) -> bool {
        self.job_types.deep_view().no_duplicates()
    }

    /// A registry without handlers.
    pub fn new() -> (r: Self)
        ensures
            r.types() == Seq::<Seq<char>>::empty(),
    {
        let r = HandlerRegistry { job_types: Vec::new() };
        assert(r.types() =~= Seq::<Seq<char>>::empty());
        r
    }

    /// Registers a handler's job type; a type registered again keeps its place
    /// (the new handler replaces the old one). Returns its position.
    pub fn register(&mut self, job_type: &str) -> (r: usize)
        ensures
            old(self).types().contains(job_type@) ==> final(self).types() == old(self).types(),
            !old(self).types().contains(job_type@) ==> final(self).types() == old(self).types().push(job_type@),
            r < final(self).types().len() && final(self).types()[r as int] == job_type@,
    {
        proof {
            use_type_invariant(&*self);
        }
        match crate::license_mock::position_in(&self.job_types, job_type) {
            Some(i) => i,
            None => {
                let ghost before = self.job_types.deep_view();
                let mut v: Vec<String> = Vec::new();
                std::mem::swap(&mut v, &mut self.job_types);
                let pos = v.len();
                v.push(crate::mapping::owned(job_type));
                let ghost after = v.deep_view();
                assert(after =~= before.push(job_type@));
                proof {
                    assert forall|a: int, b: int| 0 <= a < b < after.len() implies after[a] != after[b] by {
                        if b == before.len() {
                            assert(before.contains(after[a]));
                        }
                    }
                }
                self.job_types = v;
                pos
            },
        }
    }

    /// Whether a handler is registered for a job type.
    pub fn has_handler(&self, job_type: &str) -> (r: bool)
        ensures
            r == self.types().contains(job_type@),
    {
        crate::license_mock::position_in(&self.job_types, job_type).is_some()
    }

    /// The registered job types.
    pub fn registered_types(&self) -> (r: Vec<String>)
        ensures
            r.deep_view() == self.types(),
    {
        crate::mapping::copy_strings(&self.job_types)
    }

    /// The position of a job type's handler, or the permanent failure of a
    /// job nobody handles.
    pub fn lookup(&self, job_type: &str) -> (r: Result<usize, JobExecutionError>)
        ensures
            match r {
                Ok(i) => i < self.types().len() && self.types()[i as int] == job_type@,
                Err(e) => !self.types().contains(job_type@) && (e matches JobExecutionError::Permanent(m)
                    && m@ == no_handler_message(job_type@)),
            },
    {
        match crate::license_mock::position_in(&self.job_types, job_type) {
            Some(i) => Ok(i),
            None => {
                proof {
                    reveal_strlit("No handler registered for job type '");
                    reveal_strlit("'");
                }
                Err(JobExecutionError::Permanent(concat3("No handler registered for job type '", job_type, "'")))
            },
        }
    }
}

/// Age after which temporary files are removed: 24 hours, in milliseconds.
pub const TEMP_MAX_AGE_MS: i64 = 86_400_000;

/// Versions of a file kept by version cleanup.
pub const MAX_VERSIONS_PER_FILE: i64 = 10;

/// Whether something last changed at `modified_ms` is older than the cutoff
/// `max_age_ms` before `now_ms` (all in milliseconds since the epoch).
pub fn is_older_than(modified_ms: i64, now_ms: i64, max_age_ms: i64) -> (r: bool)
    requires
        i64::MIN <= now_ms - max_age_ms <= i64::MAX,
    ensures
        r == (modified_ms < now_ms - max_age_ms),
{
    modified_ms < now_ms - max_age_ms
}

/// One week in milliseconds.
pub const WEEK_MS: i64 = 604_800_000;

/// The period a weekly report covers: the week up to `now_ms`, as start
/// and end in milliseconds since the epoch.
pub fn report_period(now_ms: i64) -> (r: (i64, i64))
    requires
        now_ms >= i64::MIN + WEEK_MS,
    ensures
        r.0 == now_ms - WEEK_MS,
        r.1 == now_ms,
{
    (now_ms - WEEK_MS, now_ms)
}

} // verus!
