//! The rows that are stored: how tasks are written and read back, and what happens to
//! the worktree of a thread. The statements that move them are the program's.

use crate::application::task_runner;
use crate::domain::lifecycle;
use crate::domain::lifecycle::{Row, StoredTask};
use crate::domain::task;
use crate::domain::task::{NewScheduledTask, Schedule, ScheduledTask};
use crate::domain::worktree::{Assignment, ThreadWorktree};
use crate::text;
use crate::time;
use crate::time::{Instant, Timestamp};
use vstd::prelude::*;
use vstd::string::*;

verus! {

// ---- tasks ----

/// The row of a task, with its times as they are stored.
#[derive(Debug)]
pub struct RawTask {
    pub id: i64,
    pub status: String,
    pub schedule_kind: String,
    pub run_at: Option<String>,
    pub cron_expr: Option<String>,
    pub timezone: Option<String>,
    pub next_run_at: String,
    pub running_started_at: Option<String>,
    pub last_run_at: Option<String>,
    pub last_error: Option<String>,
    pub attempts: i64,
    pub payload_json: String,
    pub prompt_preview: String,
    pub channel_id: Option<String>,
    pub thread_id: Option<String>,
}

/// A stored time that may be absent.
pub open spec fn maybe_instant(s: Option<String>) -> Result<Option<Instant>, Seq<char>> {
    match s {
        None => Ok(None),
        Some(t) => match time::stored_instant(t@) {
            Ok(at) => Ok(Some(at)),
            Err(e) => Err(e),
        },
    }
}

/// When a run started, as far as it can be read: a task does not depend on it.
pub open spec fn started_instant(s: Option<String>) -> Option<Instant> {
    match maybe_instant(s) {
        Ok(at) => at,
        Err(_) => None,
    }
}

/// The row with its times.
pub open spec fn row_at(
    raw: RawTask,
    run_at: Option<Instant>,
    next: Instant,
    last_run: Option<Instant>,
    started: Option<Instant>,
) -> Row {
    Row {
        id: raw.id as int,
        status: raw.status@,
        schedule: Schedule {
            kind: raw.schedule_kind@,
            run_at,
            cron: text::opt_view(raw.cron_expr),
            timezone: text::opt_view(raw.timezone),
            next,
        },
        last_run,
        last_error: text::opt_view(raw.last_error),
        attempts: raw.attempts as int,
        payload: raw.payload_json@,
        preview: raw.prompt_preview@,
        channel: text::opt_view(raw.channel_id),
        thread: text::opt_view(raw.thread_id),
        started,
    }
}

/// The task that a row holds, or the first of its times that cannot be read. A start
/// that cannot be read is none.
pub open spec fn row_of(raw: RawTask) -> Result<Row, Seq<char>> {
    match maybe_instant(raw.run_at) {
        Err(e) => Err(e),
        Ok(run_at) => match time::stored_instant(raw.next_run_at@) {
            Err(e) => Err(e),
            Ok(next) => match maybe_instant(raw.last_run_at) {
                Err(e) => Err(e),
                Ok(last_run) => Ok(
                    row_at(raw, run_at, next, last_run, started_instant(raw.running_started_at)),
                ),
            },
        },
    }
}

fn read_maybe(s: &Option<String>) -> (r: Result<Option<Timestamp>, String>)
    ensures
        match r {
            Ok(t) => maybe_instant(*s) == Ok::<Option<Instant>, Seq<char>>(task::opt_instant(t)),
            Err(e) => maybe_instant(*s) == Err::<Option<Instant>, Seq<char>>(e@),
        },
{
    match s {
        None => Ok(None),
        Some(t) => match time::parse_stored(t.as_str()) {
            Ok(at) => Ok(Some(at)),
            Err(e) => Err(e),
        },
    }
}

/// The task that a row holds, or the first of its times that cannot be read. A start
/// that cannot be read is none.
pub fn finish_task(raw: RawTask) -> (r: Result<StoredTask, String>)
    ensures
        match r {
            Ok(t) => row_of(raw) == Ok::<Row, Seq<char>>(t@),
            Err(e) => row_of(raw) == Err::<Row, Seq<char>>(e@),
        },
{
    let run_at = match read_maybe(&raw.run_at) {
        Ok(t) => t,
        Err(e) => return Err(e),
    };
    let next_run_at = match time::parse_stored(raw.next_run_at.as_str()) {
        Ok(t) => t,
        Err(e) => return Err(e),
    };
    let last_run_at = match read_maybe(&raw.last_run_at) {
        Ok(t) => t,
        Err(e) => return Err(e),
    };
    let running_started_at = match read_maybe(&raw.running_started_at) {
        Ok(t) => t,
        Err(_) => None,
    };
    Ok(
        StoredTask {
            task: ScheduledTask {
                id: raw.id,
                status: raw.status,
                schedule_kind: raw.schedule_kind,
                run_at,
                cron_expr: raw.cron_expr,
                timezone: raw.timezone,
                next_run_at,
                last_run_at,
                last_error: raw.last_error,
                attempts: raw.attempts,
                payload_json: raw.payload_json,
                prompt_preview: raw.prompt_preview,
                channel_id: raw.channel_id,
                thread_id: raw.thread_id,
            },
            running_started_at,
        },
    )
}

pub open spec fn opt_millis(o: Option<Instant>) -> Option<Instant> {
    match o {
        Some(t) => Some(t.millis()),
        None => None,
    }
}

/// A row as it is stored: its times to the millisecond.
pub open spec fn stored(row: Row) -> Row {
    Row {
        schedule: lifecycle::stored_schedule(row.schedule),
        last_run: opt_millis(row.last_run),
        started: opt_millis(row.started),
        ..row
    }
}

pub open spec fn opt_storable(o: Option<Instant>) -> bool {
    o matches Some(t) ==> time::is_storable(t.secs, t.nanos)
}

/// Whether all times of a row are in the years 0 to 9999 and in no leap second.
pub open spec fn is_storable(row: Row) -> bool {
    &&& opt_storable(row.schedule.run_at)
    &&& time::is_storable(row.schedule.next.secs, row.schedule.next.nanos)
    &&& opt_storable(row.last_run)
    &&& opt_storable(row.started)
}

pub open spec fn written(t: Instant) -> Seq<char> {
    time::rfc3339_millis(t.secs as i64, t.nanos as u32)
}

pub open spec fn opt_written(o: Option<Instant>) -> Option<Seq<char>> {
    match o {
        Some(t) => Some(written(t)),
        None => None,
    }
}

fn write_maybe(t: &Option<Timestamp>) -> (r: Option<String>)
    ensures
        text::opt_view(r) == opt_written(task::opt_instant(*t)),
        opt_storable(task::opt_instant(*t)) ==> maybe_instant(r) == Ok::<
            Option<Instant>,
            Seq<char>,
        >(opt_millis(task::opt_instant(*t))),
{
    match t {
        None => None,
        Some(t) => Some(t.to_stored_text()),
    }
}

/// Whether `raw` is the row of a task, with its times written out.
pub open spec fn is_row_of(raw: RawTask, row: Row) -> bool {
    &&& text::opt_view(raw.run_at) == opt_written(row.schedule.run_at)
    &&& raw.next_run_at@ == written(row.schedule.next)
    &&& text::opt_view(raw.last_run_at) == opt_written(row.last_run)
    &&& text::opt_view(raw.running_started_at) == opt_written(row.started)
    &&& row_at(raw, row.schedule.run_at, row.schedule.next, row.last_run, row.started) == row
}

/// The row to store for a task. Reading it gives the task back, to the millisecond.
pub fn raw_task(t: &StoredTask) -> (r: RawTask)
    ensures
        is_row_of(r, t@),
        is_storable(t@) ==> row_of(r) == Ok::<Row, Seq<char>>(stored(t@)),
{
    RawTask {
        id: t.task.id,
        status: t.task.status.clone(),
        schedule_kind: t.task.schedule_kind.clone(),
        run_at: write_maybe(&t.task.run_at),
        cron_expr: t.task.cron_expr.clone(),
        timezone: t.task.timezone.clone(),
        next_run_at: t.task.next_run_at.to_stored_text(),
        running_started_at: write_maybe(&t.running_started_at),
        last_run_at: write_maybe(&t.task.last_run_at),
        last_error: t.task.last_error.clone(),
        attempts: t.task.attempts,
        payload_json: t.task.payload_json.clone(),
        prompt_preview: t.task.prompt_preview.clone(),
        channel_id: t.task.channel_id.clone(),
        thread_id: t.task.thread_id.clone(),
    }
}

/// The row of a new task.
pub open spec fn new_row(id: int, t: NewScheduledTask) -> Row {
    Row {
        id,
        status: "planned"@,
        schedule: Schedule {
            kind: t.schedule_kind@,
            run_at: task::opt_instant(t.run_at),
            cron: text::opt_view(t.cron_expr),
            timezone: text::opt_view(t.timezone),
            next: t.next_run_at@,
        },
        last_run: None,
        last_error: None,
        attempts: 0,
        payload: t.payload_json@,
        preview: t.prompt_preview@,
        channel: text::opt_view(t.channel_id),
        thread: text::opt_view(t.thread_id),
        started: None,
    }
}

/// A new task: planned, and never run.
pub fn create_scheduled_task(id: i64, t: &NewScheduledTask) -> (r: StoredTask)
    ensures
        r@ == new_row(id as int, *t),
        lifecycle::is_planned(r@),
        lifecycle::starts_only_runs(r@),
{
    proof {
        lifecycle::lemma_statuses();
    }
    StoredTask {
        task: ScheduledTask {
            id,
            status: "planned".to_owned(),
            schedule_kind: t.schedule_kind.clone(),
            run_at: t.run_at,
            cron_expr: t.cron_expr.clone(),
            timezone: t.timezone.clone(),
            next_run_at: t.next_run_at,
            last_run_at: None,
            last_error: None,
            attempts: 0,
            payload_json: t.payload_json.clone(),
            prompt_preview: t.prompt_preview.clone(),
            channel_id: t.channel_id.clone(),
            thread_id: t.thread_id.clone(),
        },
        running_started_at: None,
    }
}

// ---- worktrees ----

/// A worktree that is being created. It replaces whatever the thread had.
pub open spec fn pending(thread: Seq<char>, name: Seq<char>, project: Seq<char>) -> Assignment {
    Assignment { thread, name, directory: None, project, status: "pending"@, error: None }
}

/// A worktree that was created.
pub open spec fn ready(wt: Assignment, directory: Seq<char>) -> Assignment {
    Assignment { status: "ready"@, directory: Some(directory), error: None, ..wt }
}

/// A worktree that could not be created.
pub open spec fn broken(wt: Assignment, error: Seq<char>) -> Assignment {
    Assignment { status: "error"@, error: Some(error), ..wt }
}

pub fn create_pending_worktree(thread_id: &str, worktree_name: &str, project_directory: &str) -> (r:
    ThreadWorktree)
    ensures
        r@ == pending(thread_id@, worktree_name@, project_directory@),
{
    ThreadWorktree {
        thread_id: thread_id.to_owned(),
        worktree_name: worktree_name.to_owned(),
        worktree_directory: None,
        project_directory: project_directory.to_owned(),
        status: "pending".to_owned(),
        error_message: None,
    }
}

pub fn set_worktree_ready(wt: &mut ThreadWorktree, worktree_directory: &str)
    ensures
        final(wt)@ == ready(old(wt)@, worktree_directory@),
{
    wt.status = "ready".to_owned();
    wt.worktree_directory = Some(worktree_directory.to_owned());
    wt.error_message = None;
}

pub fn set_worktree_error(wt: &mut ThreadWorktree, error: &str)
    ensures
        final(wt)@ == broken(old(wt)@, error@),
{
    wt.status = "error".to_owned();
    wt.error_message = Some(error.to_owned());
}

/// A thread runs in its worktree exactly once that is ready: until then, and when it
/// could not be created, the thread has no directory at all.
pub proof fn law_only_ready_worktrees_run(
    wt: Assignment,
    directory: Seq<char>,
    error: Seq<char>,
)
    ensures
        task_runner::worktree_dir(ready(wt, directory)) == Ok::<Seq<char>, Seq<char>>(directory),
        task_runner::worktree_dir(pending(wt.thread, wt.name, wt.project)) is Err,
        task_runner::worktree_dir(broken(wt, error)) == Err::<Seq<char>, Seq<char>>(
            "worktree is in state '"@ + "error"@ + "'"@ + (": "@ + error),
        ),
{
    reveal_strlit("ready");
    reveal_strlit("pending");
    reveal_strlit("error");
    assert("ready"@[0] == 'r' && "pending"@[0] == 'p' && "error"@[0] == 'e');
}

} // verus!
