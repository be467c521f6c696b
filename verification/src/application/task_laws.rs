//! What holds of scheduled tasks: what a run of one asks for, that none that is due is
//! left out, and what is recorded of a run, whatever the replies are.

use crate::application::command_laws;
use crate::application::flow::{Act, Answer, Path};
use crate::application::task_runner;
use crate::connector::git_laws;
use crate::domain::lifecycle;
use crate::domain::lifecycle::Row;
use crate::domain::rendering;
use crate::domain::task;
use crate::domain::task::{Payload, Schedule, ScheduledTask};
use crate::domain::worktree::Assignment;
use crate::text;
use crate::time;
use crate::time::Instant;
use vstd::prelude::*;
use vstd::string::*;

verus! {

/// Where a run without an answer stands.
pub type Running = Path<Result<(), Seq<char>>>;

// ---- where a thread runs ----

/// A thread without a worktree runs where its parent channel is linked to: the records
/// are asked for its worktree, the platform for its parent, and the records for just
/// that channel; the directory stored there is taken as it is.
pub proof fn law_thread_runs_in_its_channel(
    thread: Seq<char>,
    parent: Seq<char>,
    directory: Seq<char>,
    log: Seq<Answer>,
    i: int,
)
    requires
        0 <= i <= log.len(),
        log.len() > i ==> log[i] == Answer::Worktree(None),
        log.len() > i + 1 ==> log[i + 1] == Answer::Maybe(Some(parent)),
        log.len() > i + 2 ==> log[i + 2] == Answer::Maybe(Some(directory)),
    ensures
        ({
            let path = task_runner::resolving(thread, log, i);
            let k = log.len() - i;
            &&& k == 0 ==> path == command_laws::Saying::Do(Act::GetWorktree { thread })
            &&& k == 1 ==> path == command_laws::Saying::Do(Act::ThreadParent { thread })
            &&& k == 2 ==> path == command_laws::Saying::Do(
                Act::GetChannelDirectory { channel: parent },
            )
            &&& k >= 3 ==> path == command_laws::Saying::Done(Ok(directory), i + 3)
        }),
{
}

/// A thread with a worktree runs in the directory of that worktree once it is ready, and
/// nowhere else: while it is built, or where it broke, the thread is refused, and the
/// channel is not even asked for.
pub proof fn law_thread_runs_in_its_worktree(
    thread: Seq<char>,
    wt: Assignment,
    log: Seq<Answer>,
    i: int,
)
    requires
        0 <= i < log.len(),
        log[i] == Answer::Worktree(Some(wt)),
    ensures
        ({
            let path = task_runner::resolving(thread, log, i);
            &&& path is Done && path->Done_1 == i + 1
            &&& path->Done_0 is Ok <==> wt.status == "ready"@ && wt.directory is Some
            &&& path->Done_0 matches Ok(dir) ==> wt.directory == Some(dir)
            &&& wt.status == "pending"@ ==> path->Done_0 == Err::<Seq<char>, Seq<char>>(
                "the worktree for this thread is still being created; try again in a moment"@,
            )
            &&& wt.status == "error"@ ==> (wt.error matches Some(e) ==> (path->Done_0 matches Err(
                told,
            ) && e.is_suffix_of(told)))
        }),
{
    reveal_strlit("ready");
    reveal_strlit("pending");
    reveal_strlit("error");
    assert("ready"@[0] == 'r' && "pending"@[0] == 'p' && "error"@[0] == 'e');
    if let Some(e) = wt.error {
        let told = "worktree is in state '"@ + wt.status + "'"@ + (": "@ + e);
        assert(told.subrange(told.len() - e.len(), told.len() as int) =~= e);
        assert(e.is_suffix_of(told));
    }
}

/// A thread whose channel is not linked, or that has no parent, runs nowhere.
pub proof fn law_unlinked_thread_does_not_run(
    thread: Seq<char>,
    parent: Seq<char>,
    log: Seq<Answer>,
    i: int,
)
    requires
        0 <= i,
        i + 1 < log.len(),
        log[i] == Answer::Worktree(None),
    ensures
        log[i + 1] == Answer::Maybe(None) ==> task_runner::resolving(thread, log, i) matches Path::Done(
            Err(_),
            _,
        ),
        log[i + 1] == Answer::Maybe(Some(parent)) && i + 2 < log.len() && log[i + 2]
            == Answer::Maybe(None) ==> task_runner::resolving(thread, log, i) matches Path::Done(
            Err(_),
            _,
        ),
{
}

// ---- what a task asks for ----

/// A task for a channel hands its prompt to the agent whole: in the thread that was made
/// for it, at once, and in the directory the channel is linked to. The starter message
/// that opens the thread is the same prompt.
pub proof fn law_channel_task_prompt_is_whole(
    channel: Seq<char>,
    prompt: Seq<char>,
    name: Option<Seq<char>>,
    user: Option<Seq<char>>,
    log: Seq<Answer>,
    i: int,
)
    requires
        0 <= i,
    ensures
        ({
            let path = task_runner::executing(
                Payload::Channel { channel, prompt, name, notify_only: false, user },
                log,
                i,
            );
            &&& path matches Path::Do(Act::Enqueue { thread, message, wait }) ==> {
                &&& log[i + 2] == Answer::Text(thread)
                &&& !wait
                &&& message.prompt == prompt
                &&& message.source is None
                &&& !message.show_marker
            }
            &&& path matches Path::Do(Act::OpenRuntime { thread, directory }) ==> {
                &&& log[i + 2] == Answer::Text(thread)
                &&& log[i] == Answer::Maybe(Some(directory))
            }
            &&& path matches Path::Do(Act::Post { channel: c, text }) ==> c == channel && text
                == prompt
        }),
{
}

/// A task for a channel goes its way step by step: the channel's project is looked up,
/// the prompt is posted there, a thread is made from that message, with the name that
/// was given or one that the prompt begins with, the user joins it where one is named,
/// and unless the task only notifies, the thread is opened in the project and the agent
/// gets the prompt. It ends well only behind the last of these.
pub proof fn law_channel_task_steps(
    channel: Seq<char>,
    prompt: Seq<char>,
    name: Option<Seq<char>>,
    notify_only: bool,
    user: Option<Seq<char>>,
    directory: Seq<char>,
    starter: Seq<char>,
    thread: Seq<char>,
    log: Seq<Answer>,
    i: int,
)
    requires
        0 <= i <= log.len(),
        log.len() > i ==> log[i] == Answer::Maybe(Some(directory)),
        log.len() > i + 1 ==> log[i + 1] == Answer::Text(starter),
        log.len() > i + 2 ==> log[i + 2] == Answer::Text(thread),
        user is None && !notify_only && log.len() > i + 3 ==> log[i + 3] is Done,
        user is Some && !notify_only && log.len() > i + 4 ==> log[i + 4] is Done,
    ensures
        ({
            let path = task_runner::executing(
                Payload::Channel { channel, prompt, name, notify_only, user },
                log,
                i,
            );
            let k = log.len() - i;
            let joined = if user is Some {
                4int
            } else {
                3int
            };
            &&& k == 0 ==> path == Running::Do(Act::GetChannelDirectory { channel })
            &&& k == 1 ==> path == Running::Do(Act::Post { channel, text: prompt })
            &&& k == 2 ==> (path matches Path::Do(Act::CreateThread { channel: c, from, name: n })
                && c == channel && from == Some(starter) && match name {
                Some(given) => n == given,
                None => n.is_prefix_of(rendering::collapsed(prompt)) && n.len() <= 100 && (n.len()
                    < 100 ==> n == rendering::collapsed(prompt)),
            })
            &&& k == 3 ==> (user matches Some(u) ==> path == Running::Do(
                Act::AddMember { thread, user: u },
            ))
            &&& notify_only && k >= joined ==> path == Running::Done(Ok(()), i + joined)
            &&& !notify_only && k == joined ==> path == Running::Do(
                Act::OpenRuntime { thread, directory },
            )
            &&& !notify_only && k == joined + 1 ==> (path matches Path::Do(
                Act::Enqueue { thread: t, message, wait },
            ) && t == thread && !wait && message.prompt == prompt && message.username
                == "lily-cli"@)
            &&& !notify_only && k >= joined + 2 ==> path == Running::Done(Ok(()), i + joined + 2)
        }),
{
}

/// A task for a thread: it is announced there with its whole prompt, the thread is
/// opened where it runs, and the agent gets the prompt behind whatever waits there.
pub proof fn law_thread_task_steps(
    thread: Seq<char>,
    prompt: Seq<char>,
    user: Option<Seq<char>>,
    directory: Seq<char>,
    log: Seq<Answer>,
    i: int,
    n: int,
)
    requires
        0 <= i <= n <= log.len(),
        task_runner::resolving(thread, log, i) == command_laws::Saying::Done(Ok(directory), n),
        log.len() > n ==> log[n] is Text,
        log.len() > n + 1 ==> log[n + 1] is Done,
    ensures
        ({
            let path = task_runner::executing(Payload::Thread { thread, prompt, user }, log, i);
            let k = log.len() - n;
            &&& k == 0 ==> path == Running::Do(
                Act::Post { channel: thread, text: "» "@ + "**lily-cli:**\n"@ + prompt },
            )
            &&& k == 1 ==> path == Running::Do(Act::OpenRuntime { thread, directory })
            &&& k == 2 ==> (path matches Path::Do(Act::Enqueue { thread: t, message, wait }) && t
                == thread && wait && message.prompt == prompt && message.username == "lily-cli"@)
            &&& k >= 3 ==> path == Running::Done(Ok(()), n + 3)
        }),
{
}

/// A task whose channel is not linked fails and posts nothing.
pub proof fn law_unlinked_task_fails(
    channel: Seq<char>,
    prompt: Seq<char>,
    name: Option<Seq<char>>,
    notify_only: bool,
    user: Option<Seq<char>>,
    log: Seq<Answer>,
    i: int,
)
    requires
        0 <= i < log.len(),
        log[i] == Answer::Maybe(None),
    ensures
        task_runner::executing(
            Payload::Channel { channel, prompt, name, notify_only, user },
            log,
            i,
        ) == Running::Done(Err("channel "@ + channel + " is not linked to a project"@), i + 1),
{
}

// ---- a look at what is due ----

/// A look first gives up the runs that started two minutes ago or earlier, then takes
/// what is due now, a batch of twenty at most, and works that off.
pub proof fn law_tick_steps(now: Instant, due: Seq<ScheduledTask>, log: Seq<Answer>)
    requires
        log.len() > 0 ==> log[0] is Count,
        log.len() > 1 ==> log[1] == Answer::Tasks(due),
    ensures
        log.len() == 0 ==> task_runner::ticking(now, log) == Running::Do(
            Act::RecoverStale { before: Instant { secs: now.secs - 120, nanos: now.nanos } },
        ),
        log.len() == 1 ==> task_runner::ticking(now, log) == Running::Do(
            Act::DueTasks { now, limit: 20 },
        ),
        log.len() > 1 ==> task_runner::ticking(now, log) == task_runner::working_off(due, log, 2),
{
}

/// What a look has done for one due task by reply `k`: it was claimed by its own number;
/// if the claim went through, its status was looked at again, and if it was still
/// running then, it was run, with success.
pub open spec fn was_worked_off(
    due: Seq<ScheduledTask>,
    t: ScheduledTask,
    log: Seq<Answer>,
    i: int,
    k: int,
) -> bool {
    let asked = |j: int| command_laws::effect_of(task_runner::working_off(due, log.take(j), i));
    &&& i <= k < log.len()
    &&& asked(k) == Some(Act::ClaimTask { id: t.id as int })
    &&& log[k] is Flag
    &&& log[k] == Answer::Flag(true) ==> {
        &&& k + 1 < log.len()
        &&& asked(k + 1) == Some(Act::TaskStatus { id: t.id as int })
        &&& log[k + 1] == Answer::Maybe(Some("running"@)) ==> {
            &&& k + 2 < log.len()
            &&& asked(k + 2) == Some(Act::RunTask { task: t })
            &&& log[k + 2] is Done
        }
    }
}

/// The first step of working off, and where the rest goes on.
proof fn lemma_first_of_due(due: Seq<ScheduledTask>, log: Seq<Answer>, i: int)
    requires
        0 <= i <= log.len(),
        due.len() > 0,
        task_runner::working_off(due, log, i) matches Path::Done(Ok(_), _),
    ensures
        was_worked_off(due, due[0], log, i, i),
        exists|n: int|
            i < n <= log.len() && #[trigger] task_runner::working_off(due.drop_first(), log, n)
                == task_runner::working_off(due, log, i) && (forall|k: int|
                n <= k <= log.len() ==> task_runner::working_off(
                    due,
                    #[trigger] log.take(k),
                    i,
                ) == task_runner::working_off(due.drop_first(), log.take(k), n)),
{
    git_laws::lemma_prefix(log, i);
    let n: int = if log[i] == Answer::Flag(false) {
        i + 1
    } else if log[i + 1] != Answer::Maybe(Some("running"@)) {
        i + 2
    } else {
        i + 3
    };
    if i + 1 <= log.len() {
        git_laws::lemma_prefix(log, i + 1);
    }
    if i + 2 <= log.len() {
        git_laws::lemma_prefix(log, i + 2);
    }
    assert(task_runner::working_off(due.drop_first(), log, n) == task_runner::working_off(
        due,
        log,
        i,
    ));
    assert forall|k: int| n <= k <= log.len() implies task_runner::working_off(
        due,
        #[trigger] log.take(k),
        i,
    ) == task_runner::working_off(due.drop_first(), log.take(k), n) by {
        git_laws::lemma_prefix(log, k);
    }
}

/// A look that ends well has left out no task that was due: each was claimed, and each
/// that it could claim and that still ran was run.
pub proof fn law_every_due_task_is_worked_off(
    due: Seq<ScheduledTask>,
    log: Seq<Answer>,
    i: int,
    j: int,
)
    requires
        0 <= i <= log.len(),
        0 <= j < due.len(),
        task_runner::working_off(due, log, i) matches Path::Done(Ok(_), _),
    ensures
        exists|k: int| #[trigger] was_worked_off(due, due[j], log, i, k),
    decreases due.len(),
{
    lemma_first_of_due(due, log, i);
    if j > 0 {
        let rest = due.drop_first();
        let n = choose|n: int|
            i < n <= log.len() && #[trigger] task_runner::working_off(rest, log, n)
                == task_runner::working_off(due, log, i) && (forall|k: int|
                n <= k <= log.len() ==> task_runner::working_off(
                    due,
                    #[trigger] log.take(k),
                    i,
                ) == task_runner::working_off(rest, log.take(k), n));
        law_every_due_task_is_worked_off(rest, log, n, j - 1);
        assert(rest[j - 1] == due[j]);
        let k = choose|k: int| #[trigger] was_worked_off(rest, rest[j - 1], log, n, k);
        assert(was_worked_off(due, due[j], log, i, k));
    }
}

// ---- what is recorded of a run ----

/// A one-time task that ran well is completed, one that failed is failed with its cause
/// and counts an attempt; either way the run and its end are recorded and nothing else
/// of the task changes.
pub proof fn law_one_time_run_is_recorded(row: Row, outcome: Result<(), Seq<char>>, now: Instant)
    requires
        row.status == "running"@,
        row.schedule.kind != "cron"@,
    ensures
        ({
            let after = task_runner::settled(
                row,
                task_runner::ending(row.schedule.kind, row.schedule.cron, outcome, now),
                now,
            );
            &&& outcome is Ok ==> after.status == "completed"@ && after.last_error is None
                && after.attempts == row.attempts
            &&& outcome matches Err(e) ==> after.status == "failed"@ && after.last_error == Some(e)
                && after.attempts == row.attempts + 1
            &&& after.last_run == Some(now.millis())
            &&& after.started is None
            &&& after.id == row.id && after.payload == row.payload && after.preview == row.preview
            &&& after.channel == row.channel && after.thread == row.thread && after.schedule
                == row.schedule
        }),
{
}

/// A recurring task is planned again, for the time its expression gives after the run,
/// and only that time of its schedule changes; a failed run leaves its cause and counts
/// an attempt. If the expression gives no time any more, the task fails.
pub proof fn law_recurring_run_is_recorded(
    row: Row,
    expr: Seq<char>,
    outcome: Result<(), Seq<char>>,
    now: Instant,
)
    requires
        row.status == "running"@,
        row.schedule.kind == "cron"@,
        row.schedule.cron == Some(expr),
    ensures
        ({
            let after = task_runner::settled(
                row,
                task_runner::ending(row.schedule.kind, row.schedule.cron, outcome, now),
                now,
            );
            &&& task::next_run(expr, now) matches Ok(next) ==> {
                &&& after.status == "planned"@
                &&& after.schedule == (Schedule { next: next.millis(), ..row.schedule })
                &&& outcome is Ok ==> after.last_error is None && after.attempts == row.attempts
                &&& outcome matches Err(e) ==> after.last_error == Some(e) && after.attempts
                    == row.attempts + 1
            }
            &&& task::next_run(expr, now) is Err ==> {
                &&& after.status == "failed"@
                &&& after.schedule == row.schedule
                &&& after.last_error is Some
                &&& outcome matches Err(e) ==> after.last_error == Some(e)
                &&& after.attempts == row.attempts + 1
            }
            &&& after.last_run == Some(now.millis())
            &&& after.started is None
            &&& after.id == row.id && after.payload == row.payload && after.preview == row.preview
            &&& after.channel == row.channel && after.thread == row.thread
        }),
{
}

/// A claim marks a planned task as running from now on and changes nothing else of it;
/// a task in any other state is not touched.
pub proof fn law_claim_marks_running(row: Row, now: Instant)
    ensures
        row.status == "planned"@ ==> lifecycle::claimed(row, now) == (Row {
            status: "running"@,
            started: Some(now.millis()),
            ..row
        }),
        row.status != "planned"@ ==> lifecycle::claimed(row, now) == row,
{
}

/// A run is given up exactly where it started at the given time or before, to the
/// millisecond; the task is then planned as it was, and every other task stays as it
/// is.
pub proof fn law_only_stale_runs_are_given_up(row: Row, before: Instant)
    ensures
        lifecycle::recovered(row, before) != row ==> row.status == "running"@ && (row.started matches Some(
            s,
        ) && (s.secs < before.secs || (s.secs == before.secs && s.nanos <= before.millis().nanos))),
        row.status == "running"@ && (row.started matches Some(s) && (s.secs < before.secs || (s.secs
            == before.secs && s.nanos <= before.millis().nanos))) ==> lifecycle::recovered(row, before)
            == (Row { status: "planned"@, started: None, ..row }),
{
}

/// A cancelled task is cancelled whether it was planned or running, keeps everything
/// else, and a task that has ended is left alone.
pub proof fn law_cancel_marks_cancelled(row: Row)
    ensures
        row.status == "planned"@ || row.status == "running"@ ==> lifecycle::cancelled(row) == (Row {
            status: "cancelled"@,
            started: None,
            ..row
        }),
        row.status != "planned"@ && row.status != "running"@ ==> lifecycle::cancelled(row) == row,
{
}

/// An edit of a planned task stores the payload, the preview and the schedule it was
/// given, to the millisecond, and keeps everything else; any other task is left alone.
pub proof fn law_update_stores_edit(
    row: Row,
    payload: Seq<char>,
    preview: Seq<char>,
    s: Schedule,
)
    ensures
        ({
            let after = lifecycle::updated(row, payload, preview, s);
            &&& row.status != "planned"@ ==> after == row
            &&& row.status == "planned"@ ==> {
                &&& after.payload == payload
                &&& after.preview == preview
                &&& after.schedule.kind == s.kind
                &&& after.schedule.cron == s.cron
                &&& after.schedule.timezone == s.timezone
                &&& after.schedule.next == s.next.millis()
                &&& after.schedule.run_at == match s.run_at {
                    Some(t) => Some(t.millis()),
                    None => None,
                }
                &&& after.id == row.id && after.status == row.status && after.last_run == row.last_run
                &&& after.last_error == row.last_error && after.attempts == row.attempts
                &&& after.channel == row.channel && after.thread == row.thread && after.started
                    == row.started
            }
        }),
{
}

/// A planned task is due from the millisecond of its next run on, and a task in another
/// state never.
pub proof fn law_due_from_its_time(row: Row, now: Instant)
    ensures
        lifecycle::is_due(row, now) <==> row.status == "planned"@ && (row.schedule.next.secs
            < now.secs || (row.schedule.next.secs == now.secs && row.schedule.next.nanos
            <= now.millis().nanos)),
{
}

// ---- what a good end means ----

/// A task for a channel only ends well where its message was posted and its thread made,
/// and unless it only notifies, where that thread was opened and the prompt handed to the
/// agent: no failure on the way passes for success.
pub proof fn law_channel_task_ends_well(
    channel: Seq<char>,
    prompt: Seq<char>,
    name: Option<Seq<char>>,
    notify_only: bool,
    user: Option<Seq<char>>,
    log: Seq<Answer>,
    i: int,
)
    requires
        0 <= i,
    ensures
        task_runner::executing(
            Payload::Channel { channel, prompt, name, notify_only, user },
            log,
            i,
        ) matches Path::Done(Ok(_), n) ==> {
            let joined = if user is Some {
                i + 4
            } else {
                i + 3
            };
            &&& n <= log.len()
            &&& log[i] matches Answer::Maybe(Some(_))
            &&& log[i + 1] is Text
            &&& log[i + 2] is Text
            &&& notify_only ==> n == joined
            &&& !notify_only ==> n == joined + 2 && log[joined] is Done
        },
{
}

/// A task for a thread only ends well where the thread runs somewhere, the task was
/// announced there, the thread was opened and the prompt handed to the agent.
pub proof fn law_thread_task_ends_well(
    thread: Seq<char>,
    prompt: Seq<char>,
    user: Option<Seq<char>>,
    log: Seq<Answer>,
    i: int,
)
    requires
        0 <= i,
    ensures
        task_runner::executing(Payload::Thread { thread, prompt, user }, log, i) matches Path::Done(
            Ok(_),
            e,
        ) ==> (task_runner::resolving(thread, log, i) matches Path::Done(Ok(_), n) && e == n + 3 && e
            <= log.len() && log[n] is Text && log[n + 1] is Done),
{
}

/// A task that fails says why: what was complained about is the end of what is recorded.
pub proof fn law_task_failure_is_told(
    channel: Seq<char>,
    prompt: Seq<char>,
    name: Option<Seq<char>>,
    notify_only: bool,
    user: Option<Seq<char>>,
    e: Seq<char>,
    log: Seq<Answer>,
    i: int,
)
    requires
        0 <= i,
        i + 1 < log.len(),
        log[i] matches Answer::Maybe(Some(_)),
        log[i + 1] == Answer::Failed(e) || (i + 2 < log.len() && log[i + 1] is Text && log[i + 2]
            == Answer::Failed(e)),
    ensures
        task_runner::executing(
            Payload::Channel { channel, prompt, name, notify_only, user },
            log,
            i,
        ) matches Path::Done(Err(told), _) && e.is_suffix_of(told),
{
    let a = "failed to post task starter message"@ + ": "@ + e;
    let b = "failed to create task thread"@ + ": "@ + e;
    assert(a.subrange(a.len() - e.len(), a.len() as int) =~= e);
    assert(b.subrange(b.len() - e.len(), b.len() as int) =~= e);
}

/// Tasks are ordered by their next run, and those of one time by their number; what is
/// listed are the planned and the running ones, and all where all are asked for.
pub proof fn law_tasks_are_ordered(a: Row, b: Row)
    ensures
        a.schedule.next.before(b.schedule.next) ==> lifecycle::goes_first(a, b)
            && !lifecycle::goes_first(b, a),
        a.schedule.next == b.schedule.next && a.id < b.id ==> lifecycle::goes_first(a, b)
            && !lifecycle::goes_first(b, a),
        lifecycle::is_listed(a, true),
        lifecycle::is_listed(a, false) <==> a.status == "planned"@ || a.status == "running"@,
{
}

} // verus!
