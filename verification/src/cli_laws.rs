//! What holds of the command line: what is sent, listed and edited is what was asked
//! for.

use crate::application::command_laws::Saying;
use crate::application::flow::{Act, Answer, Path};
use crate::cli;
use crate::cli::SendArgs;
use crate::domain::lifecycle;
use crate::domain::rendering;
use crate::domain::task;
use crate::domain::task::{NewScheduledTask, Payload, Schedule, ScheduledTask};
use crate::numbers;
use crate::text;
use crate::time;
use crate::time::Instant;
use vstd::prelude::*;
use vstd::string::*;

verus! {

/// Where a send stands.
pub type Sending = Path<Result<(Payload, Schedule), Seq<char>>>;

/// What is sent to a channel is the prompt as it was given, with the name, the user and
/// the wish to only notify, for just that channel, once it was found to be linked. It
/// runs now, or when it was asked for.
pub proof fn law_channel_send(a: SendArgs, channel: String, now: Instant, log: Seq<Answer>)
    requires
        a.channel == Some(channel),
        a.thread is None,
    ensures
        log.len() == 0 ==> cli::sending(a, now, log) == Sending::Do(
            Act::GetChannelDirectory { channel: channel@ },
        ),
        log.len() > 0 && log[0] == Answer::Maybe(None) ==> (cli::sending(a, now, log) matches Path::Done(
            Err(e),
            _,
        ) && e == "channel "@ + channel@ + " is not linked to a project"@),
        log.len() > 0 && (log[0] matches Answer::Maybe(Some(_))) ==> sends(
            cli::sending(a, now, log),
            a,
            now,
            Payload::Channel {
                channel: channel@,
                prompt: a.prompt@,
                name: text::opt_view(a.name),
                notify_only: a.notify_only,
                user: text::opt_view(a.user),
            },
        ),
{
}

/// Whether a send ends with this payload, at the time that was asked for, or fails only
/// because that is none.
pub open spec fn sends(path: Sending, a: SendArgs, now: Instant, payload: Payload) -> bool {
    match a.send_at {
        None => path matches Path::Done(Ok(p), _) && p.0 == payload && p.1.kind == "at"@ && p.1.next
            == now && p.1.run_at == Some(now),
        Some(v) => match task::schedule_of(text::trim(v@), now) {
            Ok(s) => path matches Path::Done(Ok(p), _) && p.0 == payload && p.1 == s,
            Err(e) => path matches Path::Done(Err(told), _) && told == e.text(),
        },
    }
}

/// What is sent to a thread is the prompt as it was given, for just that thread; what
/// only goes with a channel is refused, and nothing is looked up.
pub proof fn law_thread_send(a: SendArgs, thread: String, now: Instant, log: Seq<Answer>)
    requires
        a.thread == Some(thread),
        a.channel is None,
    ensures
        a.notify_only || a.name is Some || a.user is Some ==> (cli::sending(a, now, log) matches Path::Done(
            Err(_),
            n,
        ) && n == 0),
        !a.notify_only && a.name is None && a.user is None ==> sends(
            cli::sending(a, now, log),
            a,
            now,
            Payload::Thread { thread: thread@, prompt: a.prompt@, user: None },
        ),
{
}

/// A send goes to one place: with none, or with two, nothing is sent.
pub proof fn law_send_needs_one_place(a: SendArgs, now: Instant, log: Seq<Answer>)
    requires
        a.channel is Some <==> a.thread is Some,
    ensures
        cli::sending(a, now, log) matches Path::Done(Err(_), n) && n == 0,
{
}

/// The list of tasks has a line for each, in order, and says so where there is none.
pub proof fn law_list_has_a_line_for_each(tasks: Seq<ScheduledTask>)
    ensures
        tasks.len() > 0 ==> cli::list_lines(tasks).len() == tasks.len(),
        forall|i: int|
            0 <= i < tasks.len() ==> #[trigger] cli::list_lines(tasks)[i] == task::task_line(
                tasks[i],
            ),
        tasks.len() == 0 ==> cli::list_lines(tasks) == seq!["No scheduled tasks."@],
{
}

/// A deletion is confirmed exactly where something was cancelled, by the task's own
/// number; otherwise it fails.
pub proof fn law_deletion_tells_what_happened(id: int)
    ensures
        cli::deleting(id, true) == Ok::<Seq<char>, Seq<char>>(
            "Cancelled task #"@ + numbers::decimal_int(id),
        ),
        cli::deleting(id, false) == Err::<Seq<char>, Seq<char>>(
            "task #"@ + numbers::decimal_int(id) + " is not planned or running"@,
        ),
{
}

/// What was scheduled is confirmed with its number and its next run, a recurring task
/// with its expression.
pub proof fn law_schedule_is_confirmed(id: int, t: NewScheduledTask)
    ensures
        cli::scheduled_line(id, t) == if t.schedule_kind@ == "cron"@ {
            "Scheduled recurring task #"@ + numbers::decimal_int(id) + " ("@ + (match t.cron_expr {
                Some(e) => e@,
                None => "?"@,
            }) + "), next run "@ + time::second_text(t.next_run_at@)
        } else {
            "Scheduled task #"@ + numbers::decimal_int(id) + " for "@ + time::second_text(
                t.next_run_at@,
            )
        },
{
}

/// The task that is edited is the one with the given number, the first in the records.
pub proof fn law_edited_task_has_the_number(tasks: Seq<ScheduledTask>, id: int, i: int)
    requires
        0 <= i,
    ensures
        match cli::position_of(tasks, id, i) {
            Some(k) => i <= k < tasks.len() && tasks[k].id == id && forall|j: int|
                i <= j < k ==> (#[trigger] tasks[j]).id != id,
            None => forall|j: int| i <= j < tasks.len() ==> (#[trigger] tasks[j]).id != id,
        },
    decreases tasks.len() - i,
{
    if i < tasks.len() && tasks[i].id != id {
        law_edited_task_has_the_number(tasks, id, i + 1);
    }
}

/// An edit goes its way step by step: the records are searched for the task, its payload
/// is read, written back with the new prompt, and stored together with the preview and
/// the schedule in one update of just that task. What was not asked for stays as it was.
pub proof fn law_edit_steps(
    id: int,
    prompt: Option<Seq<char>>,
    send_at: Option<Seq<char>>,
    now: Instant,
    tasks: Seq<ScheduledTask>,
    k: int,
    payload: Payload,
    json: Seq<char>,
    log: Seq<Answer>,
)
    requires
        prompt is Some || send_at is Some,
        prompt matches Some(p) ==> text::utf8_len(p) <= 1900,
        send_at matches Some(v) ==> task::schedule_of(text::trim(v), now) is Ok,
        0 <= k < tasks.len(),
        tasks[k].id == id,
        forall|j: int| 0 <= j < k ==> (#[trigger] tasks[j]).id != id,
        log.len() > 0 ==> log[0] == Answer::Tasks(tasks),
        log.len() > 1 ==> log[1] == Answer::Payload(payload),
        log.len() > 2 ==> log[2] == Answer::Text(json),
        log.len() > 3 ==> log[3] is Flag,
    ensures
        ({
            let path = cli::edit_path(id, prompt, send_at, now, log);
            &&& log.len() == 0 ==> path == Saying::Do(Act::ListAllTasks)
            &&& log.len() == 1 ==> path == Saying::Do(
                Act::ReadPayload { json: tasks[k].payload_json@ },
            )
            &&& log.len() == 2 ==> (path matches Path::Do(Act::WritePayload { payload: p })
                && is_edited_payload(payload, p, prompt))
            &&& log.len() == 3 ==> (path matches Path::Do(
                Act::UpdateTask { id: n, payload: stored, preview, schedule },
            ) && n == id && stored == json && match prompt {
                Some(p) => preview == rendering::preview(p, 120),
                None => preview == tasks[k].prompt_preview@,
            } && match send_at {
                Some(v) => task::schedule_of(text::trim(v), now) == Ok::<
                    Schedule,
                    task::ScheduleError,
                >(schedule),
                None => schedule == lifecycle::schedule_in(tasks[k]),
            })
            &&& log.len() >= 4 && log[3] == Answer::Flag(true) ==> path == Saying::Done(
                Ok("Updated task #"@ + numbers::decimal_int(id)),
                4,
            )
            &&& log.len() >= 4 && log[3] == Answer::Flag(false) ==> path == Saying::Done(
                Err("task #"@ + numbers::decimal_int(id) + " is no longer planned"@),
                4,
            )
        }),
{
    law_edited_task_has_the_number(tasks, id, 0);
    if let Some(x) = cli::position_of(tasks, id, 0) {
        if x < k {
            assert(tasks[x].id != id);
        }
    }
    assert(cli::position_of(tasks, id, 0) == Some(k));
}

/// Whether a payload is another one but for its prompt, and that is the new one.
pub open spec fn is_edited_payload(old: Payload, new: Payload, prompt: Option<Seq<char>>) -> bool {
    match prompt {
        None => new == old,
        Some(p) => match (old, new) {
            (
                Payload::Thread { thread, prompt: _, user },
                Payload::Thread { thread: t, prompt: q, user: u },
            ) => t == thread && u == user && q == p,
            (
                Payload::Channel { channel, prompt: _, name, notify_only, user },
                Payload::Channel { channel: c, prompt: q, name: n, notify_only: o, user: u },
            ) => c == channel && n == name && o == notify_only && u == user && q == p,
            _ => false,
        },
    }
}

/// An edit that asks for nothing, for a task that is not there, for a prompt that is too
/// long or for a time that is none fails, and stores nothing.
pub proof fn law_refused_edit_stores_nothing(
    id: int,
    prompt: Option<Seq<char>>,
    send_at: Option<Seq<char>>,
    now: Instant,
    log: Seq<Answer>,
)
    requires
        ({
            ||| prompt is None && send_at is None
            ||| log.len() > 0 && (log[0] matches Answer::Tasks(tasks) && forall|j: int|
                0 <= j < tasks.len() ==> (#[trigger] tasks[j]).id != id)
            ||| prompt matches Some(p) && text::utf8_len(p) > 1900
            ||| send_at matches Some(v) && task::schedule_of(text::trim(v), now) is Err
        }),
    ensures
        cli::edit_path(id, prompt, send_at, now, log) matches Path::Do(a) ==> !(a is UpdateTask)
            && !(a is WritePayload),
        !(cli::edit_path(id, prompt, send_at, now, log) matches Path::Done(Ok(_), _)),
{
    if log.len() > 0 {
        if let Answer::Tasks(tasks) = log[0] {
            law_edited_task_has_the_number(tasks, id, 0);
        }
    }
}

} // verus!
