//! The life of a stored task: planned, running, and then completed, failed,
//! cancelled or planned again.

use crate::domain::task;
use crate::domain::task::{ParsedSendAt, Schedule, ScheduledTask};
use crate::text;
use crate::time;
use crate::time::{Instant, Timestamp};
use vstd::prelude::*;
use vstd::string::*;

verus! {

/// A task as it is stored, with the start of its current run.
#[derive(Debug)]
pub struct StoredTask {
    pub task: ScheduledTask,
    pub running_started_at: Option<Timestamp>,
}

/// The value of a stored task.
pub struct Row {
    pub id: int,
    pub status: Seq<char>,
    pub schedule: Schedule,
    pub last_run: Option<Instant>,
    pub last_error: Option<Seq<char>>,
    pub attempts: int,
    pub payload: Seq<char>,
    pub preview: Seq<char>,
    pub channel: Option<Seq<char>>,
    pub thread: Option<Seq<char>>,
    pub started: Option<Instant>,
}

impl View for StoredTask {
    type V = Row;

    open spec fn view(&self) -> Row {
        Row {
            id: self.task.id as int,
            status: self.task.status@,
            schedule: schedule_in(self.task),
            last_run: task::opt_instant(self.task.last_run_at),
            last_error: text::opt_view(self.task.last_error),
            attempts: self.task.attempts as int,
            payload: self.task.payload_json@,
            preview: self.task.prompt_preview@,
            channel: text::opt_view(self.task.channel_id),
            thread: text::opt_view(self.task.thread_id),
            started: task::opt_instant(self.running_started_at),
        }
    }
}

// ---- transitions ----

pub open spec fn is_planned(row: Row) -> bool {
    row.status == "planned"@
}

pub open spec fn is_running(row: Row) -> bool {
    row.status == "running"@
}

/// A claim starts a planned task.
pub open spec fn claimed(row: Row, at: Instant) -> Row {
    if is_planned(row) {
        Row { status: "running"@, started: Some(at.millis()), ..row }
    } else {
        row
    }
}

/// Whether a task has been running since `before` or longer.
pub open spec fn is_stale(row: Row, before: Instant) -> bool {
    is_running(row) && (row.started matches Some(s) && !before.millis().before(s))
}

/// A stale run is given up.
pub open spec fn recovered(row: Row, before: Instant) -> Row {
    if is_stale(row, before) {
        Row { status: "planned"@, started: None, ..row }
    } else {
        row
    }
}

/// A run ends well.
pub open spec fn completed(row: Row, at: Instant) -> Row {
    if is_running(row) {
        Row {
            status: "completed"@,
            last_run: Some(at.millis()),
            started: None,
            last_error: None,
            ..row
        }
    } else {
        row
    }
}

/// A run of a recurring task ends; an error counts as an attempt.
pub open spec fn rescheduled(
    row: Row,
    at: Instant,
    next: Instant,
    error: Option<Seq<char>>,
) -> Row {
    if is_running(row) {
        Row {
            status: "planned"@,
            schedule: Schedule { next: next.millis(), ..row.schedule },
            last_run: Some(at.millis()),
            started: None,
            last_error: error,
            attempts: row.attempts + if error is Some {
                1int
            } else {
                0int
            },
            ..row
        }
    } else {
        row
    }
}

/// A run fails for good.
pub open spec fn failed(row: Row, at: Instant, error: Seq<char>) -> Row {
    if is_running(row) {
        Row {
            status: "failed"@,
            last_run: Some(at.millis()),
            last_error: Some(error),
            started: None,
            attempts: row.attempts + 1,
            ..row
        }
    } else {
        row
    }
}

/// A planned or running task is cancelled.
pub open spec fn cancelled(row: Row) -> Row {
    if is_planned(row) || is_running(row) {
        Row { status: "cancelled"@, started: None, ..row }
    } else {
        row
    }
}

/// A schedule as it is stored.
pub open spec fn stored_schedule(s: Schedule) -> Schedule {
    Schedule {
        run_at: match s.run_at {
            Some(t) => Some(t.millis()),
            None => None,
        },
        next: s.next.millis(),
        ..s
    }
}

/// A planned task gets another payload and schedule.
pub open spec fn updated(row: Row, payload: Seq<char>, preview: Seq<char>, s: Schedule) -> Row {
    if is_planned(row) {
        Row { payload, preview, schedule: stored_schedule(s), ..row }
    } else {
        row
    }
}

/// The schedule that a task is given.
#[derive(Debug)]
pub struct ScheduleUpdate {
    pub schedule_kind: String,
    pub run_at: Option<Timestamp>,
    pub cron_expr: Option<String>,
    pub timezone: Option<String>,
    pub next_run_at: Timestamp,
}

impl View for ScheduleUpdate {
    type V = Schedule;

    open spec fn view(&self) -> Schedule {
        Schedule {
            kind: self.schedule_kind@,
            run_at: task::opt_instant(self.run_at),
            cron: text::opt_view(self.cron_expr),
            timezone: text::opt_view(self.timezone),
            next: self.next_run_at@,
        }
    }
}

/// The schedule of a task.
pub open spec fn schedule_in(t: ScheduledTask) -> Schedule {
    Schedule {
        kind: t.schedule_kind@,
        run_at: task::opt_instant(t.run_at),
        cron: text::opt_view(t.cron_expr),
        timezone: text::opt_view(t.timezone),
        next: t.next_run_at@,
    }
}

impl ScheduleUpdate {
    /// The schedule of a `--send-at` value.
    pub fn parsed(s: &ParsedSendAt) -> (r: ScheduleUpdate)
        ensures
            r@ == s@,
    {
        ScheduleUpdate {
            schedule_kind: s.schedule_kind.to_owned(),
            run_at: s.run_at,
            cron_expr: s.cron_expr.clone(),
            timezone: s.timezone.clone(),
            next_run_at: s.next_run_at,
        }
    }

    /// The schedule that a task has already.
    pub fn unchanged(t: &ScheduledTask) -> (r: ScheduleUpdate)
        ensures
            r@ == schedule_in(*t),
    {
        ScheduleUpdate {
            schedule_kind: t.schedule_kind.clone(),
            run_at: t.run_at,
            cron_expr: t.cron_expr.clone(),
            timezone: t.timezone.clone(),
            next_run_at: t.next_run_at,
        }
    }
}

impl StoredTask {
    fn has_status(&self, status: &str) -> (r: bool)
        ensures
            r == (self@.status == status@),
    {
        text::same_text(self.task.status.as_str(), status)
    }

    /// Claim a planned task for execution. Returns false when the task was already
    /// taken (or cancelled) by someone else.
    pub fn claim_task_running(&mut self, started_at: Timestamp) -> (r: bool)
        ensures
            r == is_planned(old(self)@),
            final(self)@ == claimed(old(self)@, started_at@),
    {
        if !self.has_status("planned") {
            return false;
        }
        self.task.status = "running".to_owned();
        self.running_started_at = Some(started_at.to_millis());
        true
    }

    /// Give up a run that started at `stale_before` or earlier.
    pub fn recover_stale_running(&mut self, stale_before: Timestamp) -> (r: bool)
        ensures
            r == is_stale(old(self)@, stale_before@),
            final(self)@ == recovered(old(self)@, stale_before@),
    {
        if !self.has_status("running") {
            return false;
        }
        match self.running_started_at {
            Some(s) => {
                if stale_before.to_millis().is_before(&s) {
                    return false;
                }
            },
            None => {
                return false;
            },
        }
        self.task.status = "planned".to_owned();
        self.running_started_at = None;
        true
    }

    /// Guarded on the running state so a finishing worker never overwrites a
    /// cancellation that landed mid-run.
    pub fn mark_task_completed(&mut self, completed_at: Timestamp)
        ensures
            final(self)@ == completed(old(self)@, completed_at@),
    {
        if self.has_status("running") {
            self.task.status = "completed".to_owned();
            self.task.last_run_at = Some(completed_at.to_millis());
            self.running_started_at = None;
            self.task.last_error = None;
        }
    }

    pub fn mark_task_cron_rescheduled(
        &mut self,
        completed_at: Timestamp,
        next_run_at: Timestamp,
        error: Option<String>,
    )
        requires
            old(self)@.attempts < i64::MAX,
        ensures
            final(self)@ == rescheduled(
                old(self)@,
                completed_at@,
                next_run_at@,
                text::opt_view(error),
            ),
    {
        if self.has_status("running") {
            self.task.status = "planned".to_owned();
            self.task.next_run_at = next_run_at.to_millis();
            self.task.last_run_at = Some(completed_at.to_millis());
            self.running_started_at = None;
            if error.is_some() {
                self.task.attempts = self.task.attempts + 1;
            }
            self.task.last_error = error;
        }
    }

    pub fn mark_task_failed(&mut self, failed_at: Timestamp, error: &str)
        requires
            old(self)@.attempts < i64::MAX,
        ensures
            final(self)@ == failed(old(self)@, failed_at@, error@),
    {
        if self.has_status("running") {
            self.task.status = "failed".to_owned();
            self.task.last_run_at = Some(failed_at.to_millis());
            self.task.last_error = Some(error.to_owned());
            self.running_started_at = None;
            self.task.attempts = self.task.attempts + 1;
        }
    }

    /// Returns false when the task is neither planned nor running.
    pub fn cancel_task(&mut self) -> (r: bool)
        ensures
            r == (is_planned(old(self)@) || is_running(old(self)@)),
            final(self)@ == cancelled(old(self)@),
    {
        if self.has_status("planned") || self.has_status("running") {
            self.task.status = "cancelled".to_owned();
            self.running_started_at = None;
            true
        } else {
            false
        }
    }

    /// Replace the prompt payload and schedule of a still-planned task. Returns false
    /// when the task already started or finished.
    pub fn update_task(
        &mut self,
        payload_json: &str,
        prompt_preview: &str,
        schedule: &ScheduleUpdate,
    ) -> (r: bool)
        ensures
            r == is_planned(old(self)@),
            final(self)@ == updated(
                old(self)@,
                payload_json@,
                prompt_preview@,
                schedule@,
            ),
    {
        if !self.has_status("planned") {
            return false;
        }
        self.task.payload_json = payload_json.to_owned();
        self.task.prompt_preview = prompt_preview.to_owned();
        self.task.schedule_kind = schedule.schedule_kind.clone();
        self.task.run_at = match schedule.run_at {
            Some(t) => Some(t.to_millis()),
            None => None,
        };
        self.task.cron_expr = schedule.cron_expr.clone();
        self.task.timezone = schedule.timezone.clone();
        self.task.next_run_at = schedule.next_run_at.to_millis();
        true
    }
}

/// The values of some stored tasks.
pub open spec fn rows(tasks: Seq<StoredTask>) -> Seq<Row> {
    Seq::new(tasks.len(), |i: int| tasks[i]@)
}

/// The tasks with all stale runs given up.
pub open spec fn all_recovered(tasks: Seq<Row>, before: Instant) -> Seq<Row> {
    Seq::new(tasks.len(), |i: int| recovered(tasks[i], before))
}

/// Give up all runs that started at `stale_before` or earlier. Returns the positions of
/// the tasks that are planned again, in order.
pub fn recover_stale_running_tasks(tasks: &mut Vec<StoredTask>, stale_before: Timestamp) -> (r: Vec<
    usize,
>)
    ensures
        rows(final(tasks)@) == all_recovered(rows(old(tasks)@), stale_before@),
        forall|i: int, j: int| 0 <= i < j < r@.len() ==> r@[i] < r@[j],
        forall|k: int|
            0 <= k < old(tasks)@.len() ==> (r@.contains(k as usize) <==> #[trigger] is_stale(
                rows(old(tasks)@)[k],
                stale_before@,
            )),
        forall|i: int| 0 <= i < r@.len() ==> #[trigger] r@[i] < old(tasks)@.len(),
{
    let ghost start = rows(tasks@);
    let mut found: Vec<usize> = Vec::new();
    let mut i: usize = 0;
    while i < tasks.len()
        invariant
            i <= tasks@.len(),
            tasks@.len() == start.len(),
            forall|k: int|
                0 <= k < i ==> (#[trigger] tasks@[k])@ == recovered(start[k], stale_before@),
            forall|k: int| i <= k < tasks@.len() ==> (#[trigger] tasks@[k])@ == start[k],
            forall|k: int, l: int| 0 <= k < l < found@.len() ==> found@[k] < found@[l],
            forall|k: int| 0 <= k < found@.len() ==> #[trigger] found@[k] < i,
            forall|k: int|
                0 <= k < i ==> (found@.contains(k as usize) <==> #[trigger] is_stale(
                    start[k],
                    stale_before@,
                )),
        decreases tasks@.len() - i,
    {
        let ghost before = found@;
        let task = &mut tasks[i];
        let stale = task.recover_stale_running(stale_before);
        if stale {
            found.push(i);
        }
        proof {
            assert forall|k: int| 0 <= k < i + 1 implies (found@.contains(k as usize)
                <==> #[trigger] is_stale(start[k], stale_before@)) by {
                if stale {
                    assert(found@ == before.push(i));
                    assert(found@[before.len() as int] == i);
                    if before.contains(k as usize) {
                        let n = choose|n: int| 0 <= n < before.len() && before[n] == k as usize;
                        assert(found@[n] == k as usize);
                    }
                    if found@.contains(k as usize) && k < i {
                        let n = choose|n: int| 0 <= n < found@.len() && found@[n] == k as usize;
                        assert(before[n] == k as usize);
                    }
                }
                if k == i && !stale {
                    if before.contains(i) {
                        let n = choose|n: int| 0 <= n < before.len() && before[n] == i;
                        assert(before[n] < i);
                    }
                }
            }
        }
        i = i + 1;
    }
    proof {
        assert(rows(tasks@) =~= all_recovered(start, stale_before@));
    }
    found
}

// ---- what holds of every task ----

/// Whether a task has ended for good.
pub open spec fn is_over(row: Row) -> bool {
    row.status == "completed"@ || row.status == "failed"@ || row.status == "cancelled"@
}

pub proof fn lemma_statuses()
    ensures
        "planned"@ != "running"@,
        "planned"@ != "completed"@,
        "planned"@ != "failed"@,
        "planned"@ != "cancelled"@,
        "running"@ != "completed"@,
        "running"@ != "failed"@,
        "running"@ != "cancelled"@,
{
    reveal_strlit("planned");
    reveal_strlit("running");
    reveal_strlit("completed");
    reveal_strlit("failed");
    reveal_strlit("cancelled");
    assert("planned"@[0] == 'p' && "running"@[0] == 'r' && "completed"@[0] == 'c' && "failed"@[0]
        == 'f' && "cancelled"@[0] == 'c');
}

/// Nothing changes a task that has ended: in particular, no worker that finishes
/// late overwrites a cancellation.
pub proof fn law_ended_stays_ended(
    row: Row,
    at: Instant,
    next: Instant,
    error: Option<Seq<char>>,
    text: Seq<char>,
    s: Schedule,
)
    requires
        is_over(row),
    ensures
        claimed(row, at) == row,
        recovered(row, at) == row,
        completed(row, at) == row,
        rescheduled(row, at, next, error) == row,
        failed(row, at, text) == row,
        cancelled(row) == row,
        updated(row, text, text, s) == row,
{
    lemma_statuses();
}

/// Cancelling a planned or running task ends it.
pub proof fn law_cancelled_is_over(row: Row)
    requires
        is_planned(row) || is_running(row),
    ensures
        is_over(cancelled(row)),
{
}

/// Only one claim of a planned task succeeds, and a claimed task can no longer be
/// edited.
pub proof fn law_claim_is_exclusive(row: Row, at: Instant, later: Instant, s: Schedule)
    requires
        is_planned(row),
    ensures
        is_running(claimed(row, at)),
        !is_planned(claimed(row, at)),
        claimed(claimed(row, at), later) == claimed(row, at),
        updated(claimed(row, at), row.payload, row.preview, s) == claimed(row, at),
{
    lemma_statuses();
}

/// A run starts, and while a task is not running no start is recorded.
pub open spec fn starts_only_runs(row: Row) -> bool {
    row.started is Some <==> is_running(row)
}

/// Every transition keeps the start of a run with the run.
pub proof fn law_start_goes_with_run(
    row: Row,
    at: Instant,
    next: Instant,
    error: Option<Seq<char>>,
    text: Seq<char>,
    s: Schedule,
)
    requires
        starts_only_runs(row),
    ensures
        starts_only_runs(claimed(row, at)),
        starts_only_runs(recovered(row, at)),
        starts_only_runs(completed(row, at)),
        starts_only_runs(rescheduled(row, at, next, error)),
        starts_only_runs(failed(row, at, text)),
        starts_only_runs(cancelled(row)),
        starts_only_runs(updated(row, text, text, s)),
{
    lemma_statuses();
}

/// Recovering a claimed task gives the planned task back, so that its run is
/// repeated.
pub proof fn law_recovery_undoes_claim(row: Row, at: Instant, before: Instant)
    requires
        is_planned(row),
        row.started is None,
        !before.millis().before(at.millis()),
    ensures
        recovered(claimed(row, at), before) == row,
{
    lemma_statuses();
}

// ---- selection ----

/// Whether `a` comes before `b`: by the next run, then by id.
pub open spec fn goes_first(a: Row, b: Row) -> bool {
    a.schedule.next.before(b.schedule.next) || (a.schedule.next == b.schedule.next && a.id < b.id)
}

/// Whether a task is planned and its time has come.
pub open spec fn is_due(row: Row, now: Instant) -> bool {
    is_planned(row) && !now.millis().before(row.schedule.next)
}

/// Whether a task is shown in a list: planned and running ones, or all.
pub open spec fn is_listed(row: Row, include_finished: bool) -> bool {
    include_finished || is_planned(row) || is_running(row)
}

/// Whether `order` lists positions of `rows` without repetition, in the order of
/// `goes_first`.
pub open spec fn is_ordered(rows: Seq<StoredTask>, order: Seq<usize>) -> bool {
    &&& forall|i: int| 0 <= i < order.len() ==> 0 <= #[trigger] order[i] < rows.len()
    &&& forall|i: int, j: int|
        0 <= i < j < order.len() ==> #[trigger] order[i] != #[trigger] order[j] && !goes_first(
            rows[order[j] as int]@,
            rows[order[i] as int]@,
        )
}

/// Whether `order` lists exactly the picked positions.
pub open spec fn lists_picked(order: Seq<usize>, picked: Seq<bool>) -> bool {
    &&& forall|i: int| 0 <= i < order.len() ==> picked[#[trigger] order[i] as int]
    &&& forall|k: int| 0 <= k < picked.len() && picked[k] ==> order.contains(k as usize)
}

proof fn lemma_goes_first_total(a: Row, b: Row, c: Row)
    ensures
        !(goes_first(a, b) && goes_first(b, a)),
        !goes_first(b, a) && !goes_first(c, b) ==> !goes_first(c, a),
{
    time::lemma_before_total(a.schedule.next, b.schedule.next);
    time::lemma_before_total(b.schedule.next, c.schedule.next);
    time::lemma_before_total(a.schedule.next, c.schedule.next);
}

fn task_goes_first(a: &StoredTask, b: &StoredTask) -> (r: bool)
    ensures
        r == goes_first(a@, b@),
{
    proof {
        time::lemma_before_total(a@.schedule.next, b@.schedule.next);
    }
    if a.task.next_run_at.is_before(&b.task.next_run_at) {
        return true;
    }
    if b.task.next_run_at.is_before(&a.task.next_run_at) {
        return false;
    }
    a.task.id < b.task.id
}

/// The picked positions of `tasks` in the order of `goes_first`.
fn sort_picked(tasks: &Vec<StoredTask>, picked: &Vec<bool>) -> (order: Vec<usize>)
    requires
        picked@.len() == tasks@.len(),
    ensures
        is_ordered(tasks@, order@),
        lists_picked(order@, picked@),
{
    let mut order: Vec<usize> = Vec::new();
    let mut i: usize = 0;
    while i < tasks.len()
        invariant
            i <= tasks@.len(),
            picked@.len() == tasks@.len(),
            is_ordered(tasks@, order@),
            forall|k: int|
                0 <= k < order@.len() ==> (#[trigger] order@[k]) < i && picked@[order@[k] as int],
            forall|k: int| 0 <= k < i && picked@[k] ==> order@.contains(k as usize),
        decreases tasks@.len() - i,
    {
        if picked[i] {
            let mut p: usize = order.len();
            while p > 0 && task_goes_first(&tasks[i], &tasks[order[p - 1]])
                invariant
                    p <= order@.len(),
                    i < tasks@.len(),
                    is_ordered(tasks@, order@),
                    forall|k: int|
                        p <= k < order@.len() ==> goes_first(
                            tasks@[i as int]@,
                            tasks@[#[trigger] order@[k] as int]@,
                        ),
                decreases p,
            {
                p = p - 1;
            }
            let ghost before = order@;
            proof {
                assert forall|k: int| 0 <= k < p implies !goes_first(
                    tasks@[i as int]@,
                    tasks@[#[trigger] before[k] as int]@,
                ) by {
                    if k < p - 1 {
                        lemma_goes_first_total(
                            tasks@[before[k] as int]@,
                            tasks@[before[p - 1] as int]@,
                            tasks@[i as int]@,
                        );
                    }
                }
                assert forall|k: int| p <= k < before.len() implies !goes_first(
                    tasks@[#[trigger] before[k] as int]@,
                    tasks@[i as int]@,
                ) by {
                    lemma_goes_first_total(
                        tasks@[before[k] as int]@,
                        tasks@[i as int]@,
                        tasks@[i as int]@,
                    );
                }
            }
            order.insert(p, i);
            proof {
                let after = order@;
                assert(after == before.insert(p as int, i));
                assert forall|a: int, b: int| 0 <= a < b < after.len() implies #[trigger] after[a]
                    != #[trigger] after[b] && !goes_first(
                    tasks@[after[b] as int]@,
                    tasks@[after[a] as int]@,
                ) by {
                    let x = if a < p {
                        a
                    } else {
                        a - 1
                    };
                    let y = if b < p {
                        b
                    } else {
                        b - 1
                    };
                    if a != p {
                        assert(after[a] == before[x]);
                    }
                    if b != p {
                        assert(after[b] == before[y]);
                    }
                }
                assert forall|k: int| 0 <= k < i + 1 && picked@[k] implies after.contains(
                    k as usize,
                ) by {
                    if k == i {
                        assert(after[p as int] == i);
                    } else {
                        let q = choose|q: int| 0 <= q < before.len() && before[q] == k as usize;
                        let z = if q < p {
                            q
                        } else {
                            q + 1
                        };
                        assert(after[z] == before[q]);
                    }
                }
                assert forall|k: int| 0 <= k < after.len() implies (#[trigger] after[k]) < i + 1
                    && picked@[after[k] as int] by {
                    let z = if k < p {
                        k
                    } else {
                        k - 1
                    };
                    if k != p {
                        assert(after[k] == before[z]);
                    }
                }
            }
        }
        i = i + 1;
    }
    order
}

/// The positions of the tasks that are due: the first `limit` of them, by their next
/// run and then by id.
pub fn get_due_planned_tasks(tasks: &Vec<StoredTask>, now: Timestamp, limit: usize) -> (r: Vec<
    usize,
>)
    ensures
        is_ordered(tasks@, r@),
        r@.len() <= limit,
        forall|i: int| 0 <= i < r@.len() ==> is_due(tasks@[#[trigger] r@[i] as int]@, now@),
        forall|k: int|
            0 <= k < tasks@.len() && is_due((#[trigger] tasks@[k])@, now@) && !r@.contains(
                k as usize,
            ) ==> r@.len() == limit && (forall|i: int|
                0 <= i < r@.len() ==> !goes_first(tasks@[k]@, tasks@[#[trigger] r@[i] as int]@)),
{
    let mut picked: Vec<bool> = Vec::new();
    let moment = now.to_millis();
    let mut i: usize = 0;
    while i < tasks.len()
        invariant
            i <= tasks@.len(),
            picked@.len() == i,
            moment@ == now@.millis(),
            forall|k: int|
                0 <= k < i ==> #[trigger] picked@[k] == is_due(tasks@[k]@, now@),
        decreases tasks@.len() - i,
    {
        let t = &tasks[i];
        picked.push(t.has_status("planned") && !moment.is_before(&t.task.next_run_at));
        i = i + 1;
    }
    let mut order = sort_picked(tasks, &picked);
    let ghost all = order@;
    if order.len() > limit {
        order.truncate(limit);
    }
    proof {
        let n = order@.len() as int;
        assert(order@ =~= all.take(n));
        assert forall|k: int|
            0 <= k < tasks@.len() && is_due((#[trigger] tasks@[k])@, now@) && !order@.contains(
                k as usize,
            ) implies order@.len() == limit && (forall|i: int|
            0 <= i < order@.len() ==> !goes_first(tasks@[k]@, tasks@[#[trigger] order@[i] as int]@)) by {
            assert(picked@[k]);
            let q = choose|q: int| 0 <= q < all.len() && all[q] == k as usize;
            if q < n {
                assert(order@[q] == k as usize);
            }
            assert forall|i: int| 0 <= i < order@.len() implies !goes_first(
                tasks@[k]@,
                tasks@[#[trigger] order@[i] as int]@,
            ) by {
                assert(order@[i] == all[i]);
            }
        }
        assert forall|i: int| 0 <= i < order@.len() implies is_due(
            tasks@[#[trigger] order@[i] as int]@,
            now@,
        ) by {
            assert(order@[i] == all[i]);
            assert(picked@[all[i] as int]);
        }
        assert forall|i: int, j: int| 0 <= i < j < order@.len() implies #[trigger] order@[i]
            != #[trigger] order@[j] && !goes_first(
            tasks@[order@[j] as int]@,
            tasks@[order@[i] as int]@,
        ) by {
            assert(order@[i] == all[i] && order@[j] == all[j]);
        }
        assert forall|i: int| 0 <= i < order@.len() implies 0 <= #[trigger] order@[i]
            < tasks@.len() by {
            assert(order@[i] == all[i]);
        }
    }
    order
}

/// The positions of the tasks to list, by their next run.
pub fn list_tasks(tasks: &Vec<StoredTask>, include_finished: bool) -> (r: Vec<usize>)
    ensures
        is_ordered(tasks@, r@),
        forall|i: int|
            0 <= i < r@.len() ==> is_listed(tasks@[#[trigger] r@[i] as int]@, include_finished),
        forall|k: int|
            0 <= k < tasks@.len() && is_listed((#[trigger] tasks@[k])@, include_finished)
                ==> r@.contains(k as usize),
{
    let mut picked: Vec<bool> = Vec::new();
    let mut i: usize = 0;
    while i < tasks.len()
        invariant
            i <= tasks@.len(),
            picked@.len() == i,
            forall|k: int|
                0 <= k < i ==> #[trigger] picked@[k] == is_listed(tasks@[k]@, include_finished),
        decreases tasks@.len() - i,
    {
        let t = &tasks[i];
        picked.push(include_finished || t.has_status("planned") || t.has_status("running"));
        i = i + 1;
    }
    let order = sort_picked(tasks, &picked);
    proof {
        assert forall|k: int|
            0 <= k < tasks@.len() && is_listed((#[trigger] tasks@[k])@, include_finished) implies
            order@.contains(k as usize) by {
            assert(picked@[k]);
        }
        assert forall|i: int| 0 <= i < order@.len() implies is_listed(
            tasks@[#[trigger] order@[i] as int]@,
            include_finished,
        ) by {
            assert(picked@[order@[i] as int]);
        }
    }
    order
}

} // verus!
