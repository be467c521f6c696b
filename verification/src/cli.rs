//! What the command line commands decide and say.

use crate::application::commands;
use crate::application::flow;
use crate::application::flow::{Act, Answer, Effect, Flow, Got, Heard, Path, Reply};
use crate::domain::lifecycle;
use crate::domain::lifecycle::ScheduleUpdate;
use crate::domain::rendering;
use crate::domain::task;
use crate::domain::task::{
    NewScheduledTask,
    ParsedSendAt,
    Payload,
    PromptTooLong,
    Schedule,
    ScheduledTask,
    TaskPayload,
};
use crate::numbers;
use crate::text;
use crate::time;
use crate::time::{Instant, Timestamp};
use vstd::prelude::*;
use vstd::string::*;

verus! {

// ---- lily project ----

/// What is printed once a channel is linked.
pub fn linked_line(channel: &str, directory: &str) -> (r: String)
    ensures
        r@ == "Linked channel "@ + channel@ + " to "@ + directory@,
{
    "Linked channel ".to_owned().concat(channel).concat(" to ").concat(directory)
}

/// Why a path cannot be linked.
pub fn not_a_directory(path: &str) -> (r: String)
    ensures
        r@ == path@ + " is not a directory"@,
{
    path.to_owned().concat(" is not a directory")
}

/// The line of a linked project.
pub fn project_line(channel: &str, directory: &str) -> (r: String)
    ensures
        r@ == channel@ + "\t"@ + directory@,
{
    channel.to_owned().concat("\t").concat(directory)
}

// ---- lily send ----

/// The arguments of `lily send`.
#[derive(Debug)]
pub struct SendArgs {
    /// Project channel id to start a new thread in.
    pub channel: Option<String>,
    /// Existing thread id to continue.
    pub thread: Option<String>,
    pub prompt: String,
    /// UTC timestamp or cron expression; none for as soon as possible.
    pub send_at: Option<String>,
    /// Post the message without starting a session.
    pub notify_only: bool,
    /// Thread name (channel sends only).
    pub name: Option<String>,
    /// User to add to the created thread (channel sends only).
    pub user: Option<String>,
}

/// The payload of a send to a thread. There is no thread to name and no member to add,
/// so what would be ignored is refused.
pub open spec fn thread_send(a: SendArgs, thread: Seq<char>) -> Result<Payload, Seq<char>> {
    if a.notify_only {
        Err("--notify-only only applies to channel sends"@)
    } else if a.name is Some {
        Err("--name only applies to channel sends"@)
    } else if a.user is Some {
        Err("--user only applies to channel sends"@)
    } else {
        Ok(Payload::Thread { thread, prompt: a.prompt@, user: None })
    }
}

pub open spec fn channel_send(a: SendArgs, channel: Seq<char>) -> Payload {
    Payload::Channel {
        channel,
        prompt: a.prompt@,
        name: text::opt_view(a.name),
        notify_only: a.notify_only,
        user: text::opt_view(a.user),
    }
}

pub open spec fn unlinked_text(channel: Seq<char>) -> Seq<char> {
    "channel "@ + channel + " is not linked to a project"@
}

/// What a send is about: a channel, which has to be linked to a project, or a thread.
pub open spec fn addressing(a: SendArgs, log: Seq<Answer>) -> Path<Result<Payload, Seq<char>>> {
    match (a.channel, a.thread) {
        (Some(c), None) => match flow::heard_maybe(log, 0) {
            Heard::Pending => Path::Do(Act::GetChannelDirectory { channel: c@ }),
            Heard::Failed(e) => Path::Done(Err(e), 1),
            Heard::Value(None) => Path::Done(Err(unlinked_text(c@)), 1),
            Heard::Value(Some(_)) => Path::Done(Ok(channel_send(a, c@)), 1),
        },
        (None, Some(t)) => Path::Done(thread_send(a, t@), 0),
        _ => Path::Done(Err("pass exactly one of --channel or --thread"@), 0),
    }
}

/// The schedule of a send: the one asked for, or right now.
pub open spec fn send_schedule(a: SendArgs, now: Instant) -> Result<Schedule, Seq<char>> {
    match a.send_at {
        None => Ok(task::once_at(now)),
        Some(v) => match task::schedule_of(text::trim(v@), now) {
            Ok(s) => Ok(s),
            Err(e) => Err(e.text()),
        },
    }
}

/// What is to be scheduled, and when.
pub open spec fn sending(a: SendArgs, now: Instant, log: Seq<Answer>) -> Path<
    Result<(Payload, Schedule), Seq<char>>,
> {
    match addressing(a, log) {
        Path::Do(act) => Path::Do(act),
        Path::Done(Err(e), n) => Path::Done(Err(e), n),
        Path::Done(Ok(payload), n) => match send_schedule(a, now) {
            Ok(s) => Path::Done(Ok((payload, s)), n),
            Err(e) => Path::Done(Err(e), n),
        },
    }
}

/// Where a send stands.
pub open spec fn at_send(f: Flow<Result<(TaskPayload, ParsedSendAt), String>>) -> Path<
    Result<(Payload, Schedule), Seq<char>>,
> {
    match f {
        Flow::Do(e) => Path::Do(e@),
        Flow::Done(Ok(p), n) => Path::Done(Ok((p.0@, p.1@)), n as int),
        Flow::Done(Err(e), n) => Path::Done(Err(e@), n as int),
    }
}

fn send_to_thread(a: &SendArgs, thread: &str) -> (r: Result<TaskPayload, String>)
    ensures
        match r {
            Ok(p) => thread_send(*a, thread@) == Ok::<Payload, Seq<char>>(p@),
            Err(e) => thread_send(*a, thread@) == Err::<Payload, Seq<char>>(e@),
        },
{
    if a.notify_only {
        return Err("--notify-only only applies to channel sends".to_owned());
    }
    if a.name.is_some() {
        return Err("--name only applies to channel sends".to_owned());
    }
    if a.user.is_some() {
        return Err("--user only applies to channel sends".to_owned());
    }
    Ok(
        TaskPayload::Thread {
            thread_id: thread.to_owned(),
            prompt: a.prompt.clone(),
            user_id: None,
        },
    )
}

/// What `lily send` is to schedule, and when.
pub fn run_send(a: &SendArgs, now: Timestamp, log: &Vec<Reply>) -> (r: Flow<
    Result<(TaskPayload, ParsedSendAt), String>,
>)
    ensures
        at_send(r) == sending(*a, now@, flow::answers(log@)),
{
    let (payload, n): (TaskPayload, usize) = match (&a.channel, &a.thread) {
        (Some(c), None) => match flow::got_maybe(log, 0) {
            Got::Pending => return Flow::Do(Effect::GetChannelDirectory { channel: c.clone() }),
            Got::Failed(e) => return Flow::Done(Err(e), 1),
            // Fail fast: the task runner would hard-fail on this later.
            Got::Value(None) => return Flow::Done(
                Err("channel ".to_owned().concat(c.as_str()).concat(" is not linked to a project")),
                1,
            ),
            Got::Value(Some(_)) => (
                TaskPayload::Channel {
                    channel_id: c.clone(),
                    prompt: a.prompt.clone(),
                    name: a.name.clone(),
                    notify_only: a.notify_only,
                    user_id: a.user.clone(),
                },
                1,
            ),
        },
        (None, Some(t)) => match send_to_thread(a, t.as_str()) {
            Ok(p) => (p, 0),
            Err(e) => return Flow::Done(Err(e), 0),
        },
        _ => return Flow::Done(Err("pass exactly one of --channel or --thread".to_owned()), 0),
    };
    let schedule = match &a.send_at {
        // The running bot picks it up within one poll interval.
        None => ParsedSendAt::immediately(now),
        Some(v) => match task::parse_send_at(v.as_str(), now) {
            Ok(s) => s,
            Err(e) => return Flow::Done(Err(e.message()), n),
        },
    };
    Flow::Done(Ok((payload, schedule)), n)
}

/// What is printed once a task is stored whose next run is the date `next`.
pub open spec fn scheduled_with_date(id: int, t: NewScheduledTask, next: Seq<char>) -> Seq<char> {
    if t.schedule_kind@ == "cron"@ {
        "Scheduled recurring task #"@ + numbers::decimal_int(id) + " ("@ + task::str_or(
            t.cron_expr,
            "?"@,
        ) + "), next run "@ + next
    } else {
        "Scheduled task #"@ + numbers::decimal_int(id) + " for "@ + next
    }
}

/// What is printed once a task is stored.
pub open spec fn scheduled_line(id: int, t: NewScheduledTask) -> Seq<char> {
    scheduled_with_date(id, t, time::second_text(t.next_run_at@))
}

/// What is printed once a task is stored, from the date of its next run.
pub fn scheduled_text_with(id: i64, t: &NewScheduledTask, next: &str) -> (r: String)
    ensures
        r@ == scheduled_with_date(id as int, *t, next@),
{
    let number = numbers::decimal_i64(id);
    if text::same_text(t.schedule_kind.as_str(), "cron") {
        let expr = match &t.cron_expr {
            Some(e) => e.as_str(),
            None => "?",
        };
        "Scheduled recurring task #".to_owned().concat(number.as_str()).concat(" (").concat(
            expr,
        ).concat("), next run ").concat(next)
    } else {
        "Scheduled task #".to_owned().concat(number.as_str()).concat(" for ").concat(next)
    }
}

pub fn scheduled_text(id: i64, t: &NewScheduledTask) -> (r: String)
    ensures
        r@ == scheduled_line(id as int, *t),
{
    scheduled_text_with(id, t, t.next_run_at.to_second_text().as_str())
}

// ---- lily task ----

/// What `lily task list` prints.
pub open spec fn list_lines(tasks: Seq<ScheduledTask>) -> Seq<Seq<char>> {
    if tasks.len() == 0 {
        seq!["No scheduled tasks."@]
    } else {
        commands::task_lines(tasks)
    }
}

pub fn list_text(tasks: &Vec<ScheduledTask>) -> (r: Vec<String>)
    ensures
        text::texts(r@) == list_lines(tasks@),
{
    if tasks.len() == 0 {
        let mut lines: Vec<String> = Vec::new();
        lines.push("No scheduled tasks.".to_owned());
        proof {
            assert(text::texts(lines@) =~= seq!["No scheduled tasks."@]);
        }
        return lines;
    }
    commands::describe_each(tasks)
}

/// What `lily task delete` prints, or fails with.
pub open spec fn deleting(id: int, cancelled: bool) -> Result<Seq<char>, Seq<char>> {
    if cancelled {
        Ok("Cancelled task #"@ + numbers::decimal_int(id))
    } else {
        Err("task #"@ + numbers::decimal_int(id) + " is not planned or running"@)
    }
}

pub fn delete_result(id: i64, cancelled: bool) -> (r: Result<String, String>)
    ensures
        flow::res_text(r) == deleting(id as int, cancelled),
{
    let number = numbers::decimal_i64(id);
    if cancelled {
        Ok("Cancelled task #".to_owned().concat(number.as_str()))
    } else {
        Err("task #".to_owned().concat(number.as_str()).concat(" is not planned or running"))
    }
}

pub open spec fn nothing_to_edit() -> Seq<char> {
    "pass --prompt and/or --send-at"@
}

/// Whether an edit changes anything.
pub fn check_edit(prompt: &Option<String>, send_at: &Option<String>) -> (r: Result<(), String>)
    ensures
        r is Ok <==> prompt is Some || send_at is Some,
        r matches Err(e) ==> e@ == nothing_to_edit(),
{
    if prompt.is_none() && send_at.is_none() {
        Err("pass --prompt and/or --send-at".to_owned())
    } else {
        Ok(())
    }
}

/// The position of the first task with that id, from `i` on.
pub open spec fn position_of(tasks: Seq<ScheduledTask>, id: int, i: int) -> Option<int>
    decreases tasks.len() - i,
{
    if i >= tasks.len() {
        None
    } else if tasks[i].id == id {
        Some(i)
    } else {
        position_of(tasks, id, i + 1)
    }
}

pub open spec fn not_found_text(id: int) -> Seq<char> {
    "task #"@ + numbers::decimal_int(id) + " not found"@
}

/// The position of the task with that id.
pub fn find_task(tasks: &Vec<ScheduledTask>, id: i64) -> (r: Result<usize, String>)
    ensures
        match r {
            Ok(k) => position_of(tasks@, id as int, 0) == Some(k as int) && k < tasks@.len()
                && tasks@[k as int].id == id,
            Err(e) => position_of(tasks@, id as int, 0) is None && e@ == not_found_text(
                id as int,
            ),
        },
{
    let mut i: usize = 0;
    while i < tasks.len()
        invariant
            i <= tasks@.len(),
            position_of(tasks@, id as int, 0) == position_of(tasks@, id as int, i as int),
        decreases tasks@.len() - i,
    {
        if tasks[i].id == id {
            return Ok(i);
        }
        i = i + 1;
    }
    Err("task #".to_owned().concat(numbers::decimal_i64(id).as_str()).concat(" not found"))
}

/// What a task is changed to.
#[derive(Debug)]
pub struct TaskEdit {
    pub payload: TaskPayload,
    pub prompt_preview: String,
    pub schedule: ScheduleUpdate,
}

/// The value of an edit.
pub struct Edit {
    pub payload: Payload,
    pub preview: Seq<char>,
    pub schedule: Schedule,
}

impl View for TaskEdit {
    type V = Edit;

    open spec fn view(&self) -> Edit {
        Edit {
            payload: self.payload@,
            preview: self.prompt_preview@,
            schedule: self.schedule@,
        }
    }
}

/// The payload with another prompt.
pub open spec fn with_prompt(p: Payload, prompt: Seq<char>) -> Payload {
    match p {
        Payload::Thread { thread, prompt: _, user } => Payload::Thread { thread, prompt, user },
        Payload::Channel { channel, prompt: _, name, notify_only, user } => Payload::Channel {
            channel,
            prompt,
            name,
            notify_only,
            user,
        },
    }
}

/// What a task is changed to: what is not given stays as it is. Everything is checked
/// before anything is changed.
pub open spec fn editing(
    t: ScheduledTask,
    payload: Payload,
    prompt: Option<Seq<char>>,
    send_at: Option<Seq<char>>,
    now: Instant,
) -> Result<Edit, Seq<char>> {
    if prompt matches Some(p) && text::utf8_len(p) > task::PROMPT_MAX_LEN {
        Err(task::too_long_text())
    } else {
        let payload = match prompt {
            Some(p) => with_prompt(payload, p),
            None => payload,
        };
        let preview = match prompt {
            Some(p) => rendering::preview(p, 120),
            None => t.prompt_preview@,
        };
        match send_at {
            None => Ok(Edit { payload, preview, schedule: lifecycle::schedule_in(t) }),
            Some(v) => match task::schedule_of(text::trim(v), now) {
                Ok(schedule) => Ok(Edit { payload, preview, schedule }),
                Err(e) => Err(e.text()),
            },
        }
    }
}

/// What a task, whose stored payload is `payload`, is changed to.
pub fn edit_task(
    t: &ScheduledTask,
    payload: TaskPayload,
    prompt: &Option<String>,
    send_at: &Option<String>,
    now: Timestamp,
) -> (r: Result<TaskEdit, String>)
    ensures
        match r {
            Ok(e) => editing(
                *t,
                payload@,
                text::opt_view(*prompt),
                text::opt_view(*send_at),
                now@,
            ) == Ok::<Edit, Seq<char>>(e@),
            Err(e) => editing(
                *t,
                payload@,
                text::opt_view(*prompt),
                text::opt_view(*send_at),
                now@,
            ) == Err::<Edit, Seq<char>>(e@),
        },
{
    let (payload, prompt_preview): (TaskPayload, String) = match prompt {
        None => (payload, t.prompt_preview.clone()),
        Some(p) => {
            if text::byte_len(p.as_str()) > task::PROMPT_MAX_LEN {
                return Err(PromptTooLong.message());
            }
            let changed = match payload {
                TaskPayload::Thread { thread_id, prompt: _, user_id } => TaskPayload::Thread {
                    thread_id,
                    prompt: p.clone(),
                    user_id,
                },
                TaskPayload::Channel { channel_id, prompt: _, name, notify_only, user_id } => {
                    TaskPayload::Channel {
                        channel_id,
                        prompt: p.clone(),
                        name,
                        notify_only,
                        user_id,
                    }
                },
            };
            (changed, rendering::prompt_preview(p.as_str(), 120))
        },
    };
    let schedule = match send_at {
        None => ScheduleUpdate::unchanged(t),
        Some(v) => match task::parse_send_at(v.as_str(), now) {
            Ok(s) => ScheduleUpdate::parsed(&s),
            Err(e) => return Err(e.message()),
        },
    };
    Ok(TaskEdit { payload, prompt_preview, schedule })
}

/// What `lily task edit` prints, or fails with.
pub open spec fn edited(id: int, updated: bool) -> Result<Seq<char>, Seq<char>> {
    if updated {
        Ok("Updated task #"@ + numbers::decimal_int(id))
    } else {
        Err("task #"@ + numbers::decimal_int(id) + " is no longer planned"@)
    }
}

pub fn edit_result(id: i64, updated: bool) -> (r: Result<String, String>)
    ensures
        flow::res_text(r) == edited(id as int, updated),
{
    let number = numbers::decimal_i64(id);
    if updated {
        Ok("Updated task #".to_owned().concat(number.as_str()))
    } else {
        Err("task #".to_owned().concat(number.as_str()).concat(" is no longer planned"))
    }
}

/// The last steps of an edit: the payload is written out, and everything is stored in
/// one update.
pub open spec fn storing_edit(id: int, edit: Edit, log: Seq<Answer>) -> Path<
    Result<Seq<char>, Seq<char>>,
> {
    match flow::heard_text(log, 2) {
        Heard::Pending => Path::Do(Act::WritePayload { payload: edit.payload }),
        Heard::Failed(e) => Path::Done(Err(e), 3),
        Heard::Value(json) => match flow::heard_flag(log, 3) {
            Heard::Pending => Path::Do(
                Act::UpdateTask {
                    id,
                    payload: json,
                    preview: edit.preview,
                    schedule: edit.schedule,
                },
            ),
            Heard::Failed(e) => Path::Done(Err(e), 4),
            Heard::Value(updated) => Path::Done(edited(id, updated), 4),
        },
    }
}

/// An edit of a task: it is looked up, its payload is read, what it is changed to is
/// built, and only then is anything stored.
pub open spec fn edit_path(
    id: int,
    prompt: Option<Seq<char>>,
    send_at: Option<Seq<char>>,
    now: Instant,
    log: Seq<Answer>,
) -> Path<Result<Seq<char>, Seq<char>>> {
    if prompt is None && send_at is None {
        Path::Done(Err(nothing_to_edit()), 0)
    } else {
        match flow::heard_tasks(log, 0) {
            Heard::Pending => Path::Do(Act::ListAllTasks),
            Heard::Failed(e) => Path::Done(Err(e), 1),
            Heard::Value(tasks) => match position_of(tasks, id, 0) {
                None => Path::Done(Err(not_found_text(id)), 1),
                Some(k) => match flow::heard_payload(log, 1) {
                    Heard::Pending => Path::Do(Act::ReadPayload { json: tasks[k].payload_json@ }),
                    Heard::Failed(e) => Path::Done(Err(e), 2),
                    Heard::Value(p) => match editing(tasks[k], p, prompt, send_at, now) {
                        Err(e) => Path::Done(Err(e), 2),
                        Ok(edit) => storing_edit(id, edit, log),
                    },
                },
            },
        }
    }
}

/// What `lily task edit` does, and what it prints or fails with.
pub fn run_edit(
    id: i64,
    prompt: &Option<String>,
    send_at: &Option<String>,
    now: Timestamp,
    log: &Vec<Reply>,
) -> (r: Flow<Result<String, String>>)
    ensures
        flow::at_text(r) == edit_path(
            id as int,
            text::opt_view(*prompt),
            text::opt_view(*send_at),
            now@,
            flow::answers(log@),
        ),
{
    if let Err(e) = check_edit(prompt, send_at) {
        return Flow::Done(Err(e), 0);
    }
    let tasks = match flow::got_tasks(log, 0) {
        Got::Pending => return Flow::Do(Effect::ListAllTasks),
        Got::Failed(e) => return Flow::Done(Err(e), 1),
        Got::Value(tasks) => tasks,
    };
    let t = match find_task(tasks, id) {
        Ok(k) => &tasks[k],
        Err(e) => return Flow::Done(Err(e), 1),
    };
    let payload = match flow::got_payload(log, 1) {
        Got::Pending => return Flow::Do(Effect::ReadPayload { json: t.payload_json.clone() }),
        Got::Failed(e) => return Flow::Done(Err(e), 2),
        Got::Value(p) => p.clone(),
    };
    // Everything is built before anything is stored, so that a bad `--send-at` cannot
    // leave a half-edited task behind.
    let edit = match edit_task(t, payload, prompt, send_at, now) {
        Ok(edit) => edit,
        Err(e) => return Flow::Done(Err(e), 2),
    };
    let payload_json = match flow::got_text(log, 2) {
        Got::Pending => return Flow::Do(Effect::WritePayload { payload: edit.payload }),
        Got::Failed(e) => return Flow::Done(Err(e), 3),
        Got::Value(json) => json,
    };
    match flow::got_flag(log, 3) {
        Got::Pending => Flow::Do(
            Effect::UpdateTask {
                id,
                payload_json,
                prompt_preview: edit.prompt_preview,
                schedule: edit.schedule,
            },
        ),
        Got::Failed(e) => Flow::Done(Err(e), 4),
        Got::Value(updated) => Flow::Done(edit_result(id, updated), 4),
    }
}

// ---- laws ----

/// Whether a path asks to change a task.
pub open spec fn updates(p: Path<Result<Seq<char>, Seq<char>>>) -> bool {
    p matches Path::Do(Act::UpdateTask { id, payload, preview, schedule })
}

/// An edit stores all it changes in one update: it asks for none but that of its task
/// and for no second one. Where it succeeds, the update was made; where it fails, none
/// was, so that nothing is left half done.
pub proof fn law_edit_is_one_update(
    id: int,
    prompt: Option<Seq<char>>,
    send_at: Option<Seq<char>>,
    now: Instant,
    log: Seq<Answer>,
)
    ensures
        forall|k: int|
            0 <= k <= log.len() && updates(
                #[trigger] edit_path(id, prompt, send_at, now, log.take(k)),
            ) ==> k == 3 && edit_path(id, prompt, send_at, now, log.take(k))->Do_0->UpdateTask_id
                == id,
        edit_path(id, prompt, send_at, now, log) matches Path::Done(Ok(_), _) ==> updates(
            edit_path(id, prompt, send_at, now, log.take(3)),
        ) && log[3] == Answer::Flag(true),
        edit_path(id, prompt, send_at, now, log) matches Path::Done(Err(_), _) ==> forall|k: int|
            0 <= k < log.len() && updates(
                #[trigger] edit_path(id, prompt, send_at, now, log.take(k)),
            ) ==> log[k] != Answer::Flag(true),
{
    assert forall|k: int|
        0 <= k <= log.len() && updates(
            #[trigger] edit_path(id, prompt, send_at, now, log.take(k)),
        ) implies k == 3 && edit_path(id, prompt, send_at, now, log.take(k))->Do_0->UpdateTask_id
        == id by {
        let pre = log.take(k);
        assert(flow::heard_flag(pre, 3) is Pending);
        assert(flow::heard_text(pre, 2) is Value);
    }
    if log.len() >= 3 {
        let pre = log.take(3);
        assert(flow::heard(pre, 0) == flow::heard(log, 0));
        assert(flow::heard(pre, 1) == flow::heard(log, 1));
        assert(flow::heard(pre, 2) == flow::heard(log, 2));
        assert(flow::heard(pre, 3) is Pending);
    }
}

/// An edit keeps where a task goes: only its prompt and its schedule change.
pub proof fn law_edit_keeps_the_target(
    t: ScheduledTask,
    payload: Payload,
    prompt: Option<Seq<char>>,
    send_at: Option<Seq<char>>,
    now: Instant,
)
    ensures
        editing(t, payload, prompt, send_at, now) matches Ok(e) ==> e.payload.channel()
            == payload.channel() && e.payload.thread() == payload.thread()
            && e.payload.prompt() == (match prompt {
            Some(p) => p,
            None => payload.prompt(),
        }) && (send_at is None ==> e.schedule == lifecycle::schedule_in(t)),
{
}

/// What `lily send` schedules without a time runs at the next poll: its next run is
/// now.
pub proof fn law_send_without_time_runs_now(a: SendArgs, now: Instant, log: Seq<Answer>)
    requires
        a.send_at is None,
    ensures
        sending(a, now, log) matches Path::Done(Ok(p), _) ==> p.1 == task::once_at(now),
{
}

} // verus!
