//! Scheduled-task runner: what happens when a task fires, and what becomes of it.

use crate::application::flow;
use crate::application::flow::{Act, Answer, Effect, Flow, Got, Heard, Path, Reply};
use crate::domain::lifecycle;
use crate::domain::lifecycle::{Row, StoredTask};
use crate::domain::rendering;
use crate::domain::session::Message;
use crate::domain::task;
use crate::domain::task::{Payload, ScheduledTask, TaskPayload};
use crate::domain::worktree::{Assignment, ThreadWorktree};
use crate::text;
use crate::time;
use crate::time::{Instant, Timestamp};
use vstd::prelude::*;
use vstd::string::*;

verus! {

/// Seconds between two looks at the stored tasks.
pub const POLL_INTERVAL: u64 = 5;

/// A run that started this many minutes ago is given up.
pub const STALE_RUNNING: u32 = 2;

/// How many due tasks are taken at once.
pub const DUE_BATCH_SIZE: usize = 20;

// ---- directories ----

pub open spec fn detail_text(error: Option<Seq<char>>) -> Seq<char> {
    match error {
        Some(e) => ": "@ + e,
        None => Seq::empty(),
    }
}

/// The directory of a thread with a worktree. It never falls back to the project:
/// running there would break the isolation the worktree exists to provide.
pub open spec fn worktree_dir(wt: Assignment) -> Result<Seq<char>, Seq<char>> {
    if wt.status == "ready"@ {
        match wt.directory {
            Some(dir) => Ok(dir),
            None => Err("worktree is marked ready but has no directory"@),
        }
    } else if wt.status == "pending"@ {
        Err("the worktree for this thread is still being created; try again in a moment"@)
    } else {
        Err("worktree is in state '"@ + wt.status + "'"@ + detail_text(wt.error))
    }
}

/// The directory of a channel that the thread's parent is.
pub open spec fn channel_dir(parent: Seq<char>, log: Seq<Answer>, i: int) -> Path<
    Result<Seq<char>, Seq<char>>,
> {
    match flow::heard_maybe(log, i) {
        Heard::Pending => Path::Do(Act::GetChannelDirectory { channel: parent }),
        Heard::Failed(e) => Path::Done(Err(e), i + 1),
        Heard::Value(None) => Path::Done(
            Err("channel "@ + parent + " is not linked to a project (use /add-project)"@),
            i + 1,
        ),
        Heard::Value(Some(dir)) => Path::Done(Ok(dir), i + 1),
    }
}

pub open spec fn parent_dir(thread: Seq<char>, log: Seq<Answer>, i: int) -> Path<
    Result<Seq<char>, Seq<char>>,
> {
    match flow::heard_maybe(log, i) {
        Heard::Pending => Path::Do(Act::ThreadParent { thread }),
        Heard::Failed(e) => Path::Done(
            Err(flow::context("failed to resolve thread parent"@, e)),
            i + 1,
        ),
        Heard::Value(None) => Path::Done(
            Err("thread "@ + thread + " has no parent channel"@),
            i + 1,
        ),
        Heard::Value(Some(parent)) => channel_dir(parent, log, i + 1),
    }
}

/// The working directory of a thread: its worktree when it has one, otherwise the
/// project directory of its channel.
pub open spec fn resolving(thread: Seq<char>, log: Seq<Answer>, i: int) -> Path<
    Result<Seq<char>, Seq<char>>,
> {
    match flow::heard_worktree(log, i) {
        Heard::Pending => Path::Do(Act::GetWorktree { thread }),
        Heard::Failed(e) => Path::Done(Err(e), i + 1),
        Heard::Value(Some(wt)) => Path::Done(worktree_dir(wt), i + 1),
        Heard::Value(None) => parent_dir(thread, log, i + 1),
    }
}

pub fn error_detail(error: &Option<String>) -> (r: String)
    ensures
        r@ == detail_text(text::opt_view(*error)),
{
    match error {
        Some(e) => ": ".to_owned().concat(e.as_str()),
        None => {
            let s = String::new();
            assert(s@ =~= Seq::<char>::empty());
            s
        },
    }
}

/// The directory of a thread with a worktree.
pub fn worktree_directory(wt: &ThreadWorktree) -> (r: Result<String, String>)
    ensures
        flow::res_text(r) == worktree_dir(wt@),
{
    let status = wt.status.as_str();
    if text::same_text(status, "ready") {
        match &wt.worktree_directory {
            Some(dir) => Ok(dir.clone()),
            None => Err("worktree is marked ready but has no directory".to_owned()),
        }
    } else if text::same_text(status, "pending") {
        Err(
            "the worktree for this thread is still being created; try again in a moment".to_owned(),
        )
    } else {
        Err(
            "worktree is in state '".to_owned().concat(status).concat("'").concat(
                error_detail(&wt.error_message).as_str(),
            ),
        )
    }
}

/// Resolve the working directory for a thread: its worktree when one is ready,
/// otherwise the parent channel's project directory.
pub fn resolve_thread_directory(thread_id: &str, log: &Vec<Reply>, from: usize) -> (r: Flow<
    Result<String, String>,
>)
    ensures
        flow::at_text(r) == resolving(thread_id@, flow::answers(log@), from as int),
        r matches Flow::Done(_, n) ==> n <= log@.len(),
{
    match flow::got_worktree(log, from) {
        Got::Pending => return Flow::Do(Effect::GetWorktree { thread: thread_id.to_owned() }),
        Got::Failed(e) => return Flow::Done(Err(e), from + 1),
        Got::Value(Some(wt)) => return Flow::Done(worktree_directory(&wt), from + 1),
        Got::Value(None) => {},
    }
    let i: usize = from + 1;
    let parent = match flow::got_maybe(log, i) {
        Got::Pending => return Flow::Do(Effect::ThreadParent { thread: thread_id.to_owned() }),
        Got::Failed(e) => return Flow::Done(
            Err(flow::with_context("failed to resolve thread parent", e.as_str())),
            i + 1,
        ),
        Got::Value(None) => return Flow::Done(
            Err("thread ".to_owned().concat(thread_id).concat(" has no parent channel")),
            i + 1,
        ),
        Got::Value(Some(parent)) => parent,
    };
    let i: usize = i + 1;
    match flow::got_maybe(log, i) {
        Got::Pending => Flow::Do(Effect::GetChannelDirectory { channel: parent }),
        Got::Failed(e) => Flow::Done(Err(e), i + 1),
        Got::Value(None) => Flow::Done(
            Err(
                "channel ".to_owned().concat(parent.as_str()).concat(
                    " is not linked to a project (use /add-project)",
                ),
            ),
            i + 1,
        ),
        Got::Value(Some(dir)) => Flow::Done(Ok(dir), i + 1),
    }
}

/// A thread with a worktree never runs anywhere else: its directory is the one of the
/// worktree, once that is ready, and nothing is asked of the channel.
pub proof fn law_worktree_isolates(thread: Seq<char>, log: Seq<Answer>, wt: Assignment)
    requires
        flow::heard_worktree(log, 0) == Heard::Value(Some(wt)),
    ensures
        resolving(thread, log, 0) matches Path::Done(r, _) && match r {
            Ok(dir) => wt.status == "ready"@ && wt.directory == Some(dir),
            Err(_) => wt.status != "ready"@ || wt.directory is None,
        },
{
}

// ---- execution ----

/// How a task announces itself in a thread.
pub open spec fn announcement(prompt: Seq<char>) -> Seq<char> {
    rendering::QUEUE_PREFIX@ + "**lily-cli:**\n"@ + prompt
}

pub open spec fn cli_message(prompt: Seq<char>) -> Message {
    flow::unsourced(prompt, "lily-cli"@)
}

/// Hands the prompt to the runtime of the thread.
pub open spec fn starting(
    thread: Seq<char>,
    directory: Seq<char>,
    prompt: Seq<char>,
    wait: bool,
    log: Seq<Answer>,
    i: int,
) -> Path<Result<(), Seq<char>>> {
    match flow::heard_done(log, i) {
        Heard::Pending => Path::Do(Act::OpenRuntime { thread, directory }),
        Heard::Failed(e) => Path::Done(Err(e), i + 1),
        Heard::Value(_) => if !flow::tried(log, i + 1) {
            Path::Do(Act::Enqueue { thread, message: cli_message(prompt), wait })
        } else {
            Path::Done(Ok(()), i + 2)
        },
    }
}

/// A task for a thread: it is announced there and waits politely for whatever is
/// running.
pub open spec fn in_thread(thread: Seq<char>, prompt: Seq<char>, log: Seq<Answer>, i: int) -> Path<
    Result<(), Seq<char>>,
> {
    match resolving(thread, log, i) {
        Path::Do(a) => Path::Do(a),
        Path::Done(Err(e), n) => Path::Done(Err(e), n),
        Path::Done(Ok(dir), n) => match flow::heard_text(log, n) {
            Heard::Pending => Path::Do(Act::Post { channel: thread, text: announcement(prompt) }),
            Heard::Failed(e) => Path::Done(Err(e), n + 1),
            Heard::Value(_) => starting(thread, dir, prompt, true, log, n + 1),
        },
    }
}

/// The end of a task for a channel, once its thread is there.
pub open spec fn in_new_thread(
    thread: Seq<char>,
    directory: Seq<char>,
    prompt: Seq<char>,
    notify_only: bool,
    log: Seq<Answer>,
    i: int,
) -> Path<Result<(), Seq<char>>> {
    if notify_only {
        Path::Done(Ok(()), i)
    } else {
        starting(thread, directory, prompt, false, log, i)
    }
}

pub open spec fn thread_name(name: Option<Seq<char>>, prompt: Seq<char>) -> Seq<char> {
    match name {
        Some(n) => n,
        None => rendering::preview(prompt, 100),
    }
}

/// A task for a channel: a starter message, a thread from it, and (unless it only
/// notifies) a session.
pub open spec fn in_channel(
    channel: Seq<char>,
    prompt: Seq<char>,
    name: Option<Seq<char>>,
    notify_only: bool,
    user: Option<Seq<char>>,
    log: Seq<Answer>,
    i: int,
) -> Path<Result<(), Seq<char>>> {
    match flow::heard_maybe(log, i) {
        Heard::Pending => Path::Do(Act::GetChannelDirectory { channel }),
        Heard::Failed(e) => Path::Done(Err(e), i + 1),
        Heard::Value(None) => Path::Done(
            Err("channel "@ + channel + " is not linked to a project"@),
            i + 1,
        ),
        Heard::Value(Some(directory)) => match flow::heard_text(log, i + 1) {
            Heard::Pending => Path::Do(Act::Post { channel, text: prompt }),
            Heard::Failed(e) => Path::Done(
                Err(flow::context("failed to post task starter message"@, e)),
                i + 2,
            ),
            Heard::Value(starter) => match flow::heard_text(log, i + 2) {
                Heard::Pending => Path::Do(
                    Act::CreateThread {
                        channel,
                        from: Some(starter),
                        name: thread_name(name, prompt),
                    },
                ),
                Heard::Failed(e) => Path::Done(
                    Err(flow::context("failed to create task thread"@, e)),
                    i + 3,
                ),
                Heard::Value(thread) => match user {
                    Some(uid) => if !flow::tried(log, i + 3) {
                        Path::Do(Act::AddMember { thread, user: uid })
                    } else {
                        in_new_thread(thread, directory, prompt, notify_only, log, i + 4)
                    },
                    None => in_new_thread(thread, directory, prompt, notify_only, log, i + 3),
                },
            },
        },
    }
}

/// What happens when a task with this payload fires.
pub open spec fn executing(payload: Payload, log: Seq<Answer>, i: int) -> Path<
    Result<(), Seq<char>>,
> {
    match payload {
        Payload::Thread { thread, prompt, user } => in_thread(thread, prompt, log, i),
        Payload::Channel { channel, prompt, name, notify_only, user } => in_channel(
            channel,
            prompt,
            name,
            notify_only,
            user,
            log,
            i,
        ),
    }
}

fn start(
    thread: &str,
    directory: String,
    prompt: &str,
    wait: bool,
    log: &Vec<Reply>,
    i: usize,
) -> (r: Flow<Result<(), String>>)
    ensures
        flow::at_unit(r) == starting(
            thread@,
            directory@,
            prompt@,
            wait,
            flow::answers(log@),
            i as int,
        ),
        r matches Flow::Done(_, n) ==> n <= log@.len(),
{
    match flow::got_done(log, i) {
        Got::Pending => return Flow::Do(
            Effect::OpenRuntime { thread: thread.to_owned(), directory },
        ),
        Got::Failed(e) => return Flow::Done(Err(e), i + 1),
        Got::Value(_) => {},
    }
    if !flow::was_tried(log, i + 1) {
        return Flow::Do(
            Effect::Enqueue {
                thread: thread.to_owned(),
                message: flow::plain_message(prompt.to_owned(), "lily-cli", None),
                wait,
            },
        );
    }
    Flow::Done(Ok(()), i + 2)
}

/// Run a task whose payload was read from its JSON form; one that cannot be read
/// fails with the reason.
pub fn execute_task(payload: &Result<TaskPayload, String>, log: &Vec<Reply>) -> (r: Flow<
    Result<(), String>,
>)
    ensures
        flow::at_unit(r) == match payload {
            Ok(p) => executing(p@, flow::answers(log@), 0),
            Err(e) => Path::Done(Err(flow::context("bad task payload json"@, e@)), 0),
        },
{
    match payload {
        Err(e) => Flow::Done(Err(flow::with_context("bad task payload json", e.as_str())), 0),
        Ok(TaskPayload::Thread { thread_id, prompt, user_id: _ }) => {
            let thread = thread_id.as_str();
            let (directory, n) = match resolve_thread_directory(thread, log, 0) {
                Flow::Do(e) => return Flow::Do(e),
                Flow::Done(Err(e), n) => return Flow::Done(Err(e), n),
                Flow::Done(Ok(dir), n) => (dir, n),
            };
            match flow::got_text(log, n) {
                Got::Pending => {
                    let text = rendering::QUEUE_PREFIX.to_owned().concat("**lily-cli:**\n").concat(
                        prompt.as_str(),
                    );
                    return Flow::Do(Effect::Post { channel: thread.to_owned(), text });
                },
                Got::Failed(e) => return Flow::Done(Err(e), n + 1),
                Got::Value(_) => {},
            }
            // A scheduled send into a live thread waits rather than interrupting
            // whatever is running.
            start(thread, directory, prompt.as_str(), true, log, n + 1)
        },
        Ok(TaskPayload::Channel { channel_id, prompt, name, notify_only, user_id }) => {
            let directory = match flow::got_maybe(log, 0) {
                Got::Pending => return Flow::Do(
                    Effect::GetChannelDirectory { channel: channel_id.clone() },
                ),
                Got::Failed(e) => return Flow::Done(Err(e), 1),
                Got::Value(None) => return Flow::Done(
                    Err(
                        "channel ".to_owned().concat(channel_id.as_str()).concat(
                            " is not linked to a project",
                        ),
                    ),
                    1,
                ),
                Got::Value(Some(dir)) => dir,
            };
            let starter = match flow::got_text(log, 1) {
                Got::Pending => return Flow::Do(
                    Effect::Post { channel: channel_id.clone(), text: prompt.clone() },
                ),
                Got::Failed(e) => return Flow::Done(
                    Err(flow::with_context("failed to post task starter message", e.as_str())),
                    2,
                ),
                Got::Value(s) => s,
            };
            let thread = match flow::got_text(log, 2) {
                Got::Pending => {
                    let title = match name {
                        Some(n) => n.clone(),
                        None => rendering::prompt_preview(prompt.as_str(), 100),
                    };
                    return Flow::Do(
                        Effect::CreateThread {
                            channel: channel_id.clone(),
                            from: Some(starter),
                            name: title,
                        },
                    );
                },
                Got::Failed(e) => return Flow::Done(
                    Err(flow::with_context("failed to create task thread", e.as_str())),
                    3,
                ),
                Got::Value(t) => t,
            };
            let mut i: usize = 3;
            if let Some(uid) = user_id {
                if !flow::was_tried(log, i) {
                    return Flow::Do(Effect::AddMember { thread, user: uid.clone() });
                }
                i = 4;
            }
            if *notify_only {
                return Flow::Done(Ok(()), i);
            }
            start(thread.as_str(), directory, prompt.as_str(), false, log, i)
        },
    }
}

// ---- outcomes ----

/// Whether a claimed task is still to be run: a cancellation that landed after the
/// claim wins.
pub open spec fn still_running(status: Option<Seq<char>>) -> bool {
    status == Some("running"@)
}

pub fn is_still_running(status: &Option<String>) -> (r: bool)
    ensures
        r == still_running(text::opt_view(*status)),
{
    match status {
        Some(s) => text::same_text(s.as_str(), "running"),
        None => false,
    }
}

/// Working through the due tasks, one after the other. A task that someone else took,
/// or that was cancelled after the claim, is passed over.
pub open spec fn working_off(due: Seq<ScheduledTask>, log: Seq<Answer>, i: int) -> Path<
    Result<(), Seq<char>>,
>
    decreases due.len(),
{
    if due.len() == 0 {
        Path::Done(Ok(()), i)
    } else {
        let id = due[0].id as int;
        match flow::heard_flag(log, i) {
            Heard::Pending => Path::Do(Act::ClaimTask { id }),
            Heard::Failed(e) => Path::Done(Err(e), i + 1),
            Heard::Value(false) => working_off(due.drop_first(), log, i + 1),
            Heard::Value(true) => match flow::heard_maybe(log, i + 1) {
                Heard::Pending => Path::Do(Act::TaskStatus { id }),
                Heard::Failed(e) => Path::Done(Err(e), i + 2),
                Heard::Value(status) => if !still_running(status) {
                    working_off(due.drop_first(), log, i + 2)
                } else {
                    match flow::heard_done(log, i + 2) {
                        Heard::Pending => Path::Do(Act::RunTask { task: due[0] }),
                        Heard::Failed(e) => Path::Done(Err(e), i + 3),
                        Heard::Value(_) => working_off(due.drop_first(), log, i + 3),
                    }
                },
            },
        }
    }
}

/// One look at the stored tasks: stale runs are given up, then what is due is run.
pub open spec fn ticking(now: Instant, log: Seq<Answer>) -> Path<Result<(), Seq<char>>> {
    match flow::heard_count(log, 0) {
        Heard::Pending => Path::Do(
            Act::RecoverStale {
                before: Instant { secs: now.secs - 60 * STALE_RUNNING, nanos: now.nanos },
            },
        ),
        Heard::Failed(e) => Path::Done(Err(e), 1),
        Heard::Value(_) => match flow::heard_tasks(log, 1) {
            Heard::Pending => Path::Do(Act::DueTasks { now, limit: DUE_BATCH_SIZE }),
            Heard::Failed(e) => Path::Done(Err(e), 2),
            Heard::Value(due) => working_off(due, log, 2),
        },
    }
}

fn work_off(due: &Vec<ScheduledTask>, log: &Vec<Reply>, from: usize) -> (r: Flow<Result<(), String>>)
    requires
        from <= log@.len(),
    ensures
        flow::at_unit(r) == working_off(due@, flow::answers(log@), from as int),
{
    let mut k: usize = 0;
    let mut i: usize = from;
    proof {
        assert(due@.skip(0) =~= due@);
    }
    while k < due.len()
        invariant
            k <= due@.len(),
            i <= log@.len(),
            working_off(due@, flow::answers(log@), from as int) == working_off(
                due@.skip(k as int),
                flow::answers(log@),
                i as int,
            ),
        decreases due@.len() - k,
    {
        let id: i64 = due[k].id;
        proof {
            assert(due@.skip(k as int).drop_first() =~= due@.skip(k + 1));
        }
        let claimed = match flow::got_flag(log, i) {
            Got::Pending => return Flow::Do(Effect::ClaimTask { id }),
            Got::Failed(e) => return Flow::Done(Err(e), i + 1),
            Got::Value(c) => c,
        };
        i = i + 1;
        if claimed {
            // Cancellation of a claimed task is cooperative: this look right before the
            // side effects lets a deletion that lands after the claim win.
            let status = match flow::got_maybe(log, i) {
                Got::Pending => return Flow::Do(Effect::TaskStatus { id }),
                Got::Failed(e) => return Flow::Done(Err(e), i + 1),
                Got::Value(s) => s,
            };
            i = i + 1;
            if is_still_running(&status) {
                match flow::got_done(log, i) {
                    Got::Pending => return Flow::Do(Effect::RunTask { task: due[k].clone() }),
                    Got::Failed(e) => return Flow::Done(Err(e), i + 1),
                    Got::Value(_) => {},
                }
                i = i + 1;
            }
        }
        k = k + 1;
    }
    Flow::Done(Ok(()), i)
}

/// One look at the stored tasks.
pub fn tick(now: Timestamp, log: &Vec<Reply>) -> (r: Flow<Result<(), String>>)
    requires
        time::FIRST_SECOND + 60 * STALE_RUNNING <= now@.secs,
    ensures
        flow::at_unit(r) == ticking(now@, flow::answers(log@)),
{
    match flow::got_count(log, 0) {
        Got::Pending => {
            let before = match now.earlier(STALE_RUNNING) {
                Some(t) => t,
                // `now` is late enough for an earlier moment to exist.
                None => now,
            };
            return Flow::Do(Effect::RecoverStale { before });
        },
        Got::Failed(e) => return Flow::Done(Err(e), 1),
        Got::Value(_) => {},
    }
    match flow::got_tasks(log, 1) {
        Got::Pending => Flow::Do(Effect::DueTasks { now, limit: DUE_BATCH_SIZE }),
        Got::Failed(e) => Flow::Done(Err(e), 2),
        Got::Value(due) => work_off(due, log, 2),
    }
}

/// A task is only run if it was due, was claimed by this look, and was still running
/// after the claim.
pub proof fn law_runs_are_claimed(due: Seq<ScheduledTask>, log: Seq<Answer>, i: int)
    ensures
        working_off(due, log, i) matches Path::Do(Act::RunTask { task }) ==> due.contains(task)
            && exists|j: int|
            i <= j && #[trigger] flow::heard_flag(log, j) == Heard::Value(true) && (
            flow::heard_maybe(log, j + 1) matches Heard::Value(s) && still_running(s)),
    decreases due.len(),
{
    if due.len() > 0 {
        assert(due.contains(due[0]));
        let rest = due.drop_first();
        law_runs_are_claimed(rest, log, i + 1);
        law_runs_are_claimed(rest, log, i + 2);
        law_runs_are_claimed(rest, log, i + 3);
        assert forall|t: ScheduledTask| rest.contains(t) implies due.contains(t) by {
            let k = choose|k: int| 0 <= k < rest.len() && rest[k] == t;
            assert(due[k + 1] == t);
        }
    }
}

/// What becomes of a task after its run.
#[derive(Debug)]
pub enum Finish {
    Complete,
    Reschedule { next: Timestamp, error: Option<String> },
    Fail { cause: String },
}

/// The value of what becomes of a task.
pub enum Ending {
    Complete,
    Reschedule(Instant, Option<Seq<char>>),
    Fail(Seq<char>),
}

impl View for Finish {
    type V = Ending;

    open spec fn view(&self) -> Ending {
        match *self {
            Finish::Complete => Ending::Complete,
            Finish::Reschedule { next, error } => Ending::Reschedule(next@, text::opt_view(error)),
            Finish::Fail { cause } => Ending::Fail(cause@),
        }
    }
}

/// A recurring task runs again whether or not it failed; one that has no next run
/// fails, with its own error if it had one. Any other task is completed or failed.
pub open spec fn ending(
    kind: Seq<char>,
    cron: Option<Seq<char>>,
    outcome: Result<(), Seq<char>>,
    now: Instant,
) -> Ending {
    if kind == "cron"@ {
        let expr = match cron {
            Some(e) => e,
            None => ""@,
        };
        match (task::next_run(expr, now), outcome) {
            (Ok(next), Ok(_)) => Ending::Reschedule(next, None),
            (Ok(next), Err(e)) => Ending::Reschedule(next, Some(e)),
            (Err(e), Ok(_)) => Ending::Fail(e.text()),
            (Err(_), Err(e)) => Ending::Fail(e),
        }
    } else {
        match outcome {
            Ok(_) => Ending::Complete,
            Err(e) => Ending::Fail(e),
        }
    }
}

/// What becomes of a task after a run that ended at `now`.
pub fn finalize_task(task: &ScheduledTask, outcome: &Result<(), String>, now: Timestamp) -> (r: Finish)
    ensures
        r@ == ending(
            task.schedule_kind@,
            text::opt_view(task.cron_expr),
            flow::res_unit(*outcome),
            now@,
        ),
        r matches Finish::Reschedule { next, error } ==> now@.before(next@),
{
    if text::same_text(task.schedule_kind.as_str(), "cron") {
        let expr = match &task.cron_expr {
            Some(e) => e.as_str(),
            None => "",
        };
        match (task::next_cron_run(expr, now), outcome) {
            (Ok(next), Ok(_)) => Finish::Reschedule { next, error: None },
            (Ok(next), Err(e)) => Finish::Reschedule { next, error: Some(e.clone()) },
            (Err(err), Ok(_)) => Finish::Fail { cause: err.message() },
            (Err(_), Err(e)) => Finish::Fail { cause: e.clone() },
        }
    } else {
        match outcome {
            Ok(_) => Finish::Complete,
            Err(e) => Finish::Fail { cause: e.clone() },
        }
    }
}

/// The stored task after its run.
pub open spec fn settled(row: Row, end: Ending, now: Instant) -> Row {
    match end {
        Ending::Complete => lifecycle::completed(row, now),
        Ending::Reschedule(next, error) => lifecycle::rescheduled(row, now, next, error),
        Ending::Fail(error) => lifecycle::failed(row, now, error),
    }
}

/// Record what became of a task.
pub fn settle(stored: &mut StoredTask, finish: Finish, now: Timestamp)
    requires
        old(stored)@.attempts < i64::MAX,
    ensures
        final(stored)@ == settled(old(stored)@, finish@, now@),
{
    match finish {
        Finish::Complete => stored.mark_task_completed(now),
        Finish::Reschedule { next, error } => stored.mark_task_cron_rescheduled(now, next, error),
        Finish::Fail { cause } => stored.mark_task_failed(now, cause.as_str()),
    }
}

/// A recurring task with a valid expression is planned again after every run, failed
/// or not, for a time after the run.
pub proof fn law_cron_runs_again(
    row: Row,
    outcome: Result<(), Seq<char>>,
    now: Instant,
    next: Instant,
)
    requires
        lifecycle::is_running(row),
        row.schedule.kind == "cron"@,
        row.schedule.cron matches Some(expr) && task::next_run(expr, now) == Ok::<
            Instant,
            task::ScheduleError,
        >(next),
    ensures
        ({
            let after = settled(
                row,
                ending(row.schedule.kind, row.schedule.cron, outcome, now),
                now,
            );
            &&& lifecycle::is_planned(after)
            &&& after.schedule.next == next.millis()
            &&& after.last_error == match outcome {
                Ok(_) => None,
                Err(e) => Some(e),
            }
        }),
{
}

/// A one-time task is over after its run.
pub proof fn law_once_runs_once(row: Row, outcome: Result<(), Seq<char>>, now: Instant)
    requires
        lifecycle::is_running(row),
        row.schedule.kind != "cron"@,
    ensures
        lifecycle::is_over(
            settled(row, ending(row.schedule.kind, row.schedule.cron, outcome, now), now),
        ),
{
}

/// A cancellation that lands during a run stays: recording the run changes nothing.
pub proof fn law_cancel_wins(row: Row, end: Ending, now: Instant)
    requires
        lifecycle::is_planned(row) || lifecycle::is_running(row),
    ensures
        settled(lifecycle::cancelled(row), end, now) == lifecycle::cancelled(row),
{
    lifecycle::law_cancelled_is_over(row);
    match end {
        Ending::Reschedule(next, error) => {
            lifecycle::law_ended_stays_ended(
                lifecycle::cancelled(row),
                now,
                next,
                error,
                Seq::empty(),
                row.schedule,
            );
        },
        Ending::Fail(error) => {
            lifecycle::law_ended_stays_ended(
                lifecycle::cancelled(row),
                now,
                now,
                None,
                error,
                row.schedule,
            );
        },
        Ending::Complete => {
            lifecycle::law_ended_stays_ended(
                lifecycle::cancelled(row),
                now,
                now,
                None,
                Seq::empty(),
                row.schedule,
            );
        },
    }
}

/// A reminder starts no session: whatever is replied, no runtime is asked for and no
/// message is handed to one.
pub proof fn law_reminder_starts_nothing(
    channel: Seq<char>,
    prompt: Seq<char>,
    name: Option<Seq<char>>,
    user: Option<Seq<char>>,
    log: Seq<Answer>,
)
    ensures
        executing(
            Payload::Channel { channel, prompt, name, notify_only: true, user },
            log,
            0,
        ) matches Path::Do(a) ==> !(a is OpenRuntime) && !(a is Enqueue),
{
}

/// A task for a thread waits for whatever runs there; it never interrupts.
pub proof fn law_thread_task_waits(
    thread: Seq<char>,
    prompt: Seq<char>,
    user: Option<Seq<char>>,
    log: Seq<Answer>,
)
    ensures
        executing(Payload::Thread { thread, prompt, user }, log, 0) matches Path::Do(
            Act::Enqueue { thread: t, message, wait },
        ) ==> wait && t == thread && message.prompt == prompt,
{
}

} // verus!
