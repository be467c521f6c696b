//! Scheduled-task domain: entities, schedule parsing (one-time UTC timestamps and
//! cron expressions), and presentation. Execution lives in
//! `application::task_runner`, the life of a stored task in `domain::lifecycle`.

use crate::domain::rendering;
use crate::numbers;
use crate::text;
use crate::time;
use crate::time::{Instant, Timestamp};
use vstd::prelude::*;
use vstd::string::*;

verus! {

/// Discord message limit, minus headroom for the `»` dispatch prefix.
pub const PROMPT_MAX_LEN: usize = 1900;

/// A persisted scheduled task.
#[derive(Debug)]
pub struct ScheduledTask {
    pub id: i64,
    pub status: String,
    pub schedule_kind: String,
    pub run_at: Option<Timestamp>,
    pub cron_expr: Option<String>,
    pub timezone: Option<String>,
    pub next_run_at: Timestamp,
    pub last_run_at: Option<Timestamp>,
    pub last_error: Option<String>,
    pub attempts: i64,
    pub payload_json: String,
    pub prompt_preview: String,
    pub channel_id: Option<String>,
    pub thread_id: Option<String>,
}

impl Clone for ScheduledTask {
    fn clone(&self) -> (r: Self)
        ensures
            r == *self,
    {
        ScheduledTask {
            id: self.id,
            status: self.status.clone(),
            schedule_kind: self.schedule_kind.clone(),
            run_at: self.run_at,
            cron_expr: self.cron_expr.clone(),
            timezone: self.timezone.clone(),
            next_run_at: self.next_run_at,
            last_run_at: self.last_run_at,
            last_error: self.last_error.clone(),
            attempts: self.attempts,
            payload_json: self.payload_json.clone(),
            prompt_preview: self.prompt_preview.clone(),
            channel_id: self.channel_id.clone(),
            thread_id: self.thread_id.clone(),
        }
    }
}

/// A scheduled task about to be persisted.
#[derive(Debug)]
pub struct NewScheduledTask {
    pub schedule_kind: String,
    pub run_at: Option<Timestamp>,
    pub cron_expr: Option<String>,
    pub timezone: Option<String>,
    pub next_run_at: Timestamp,
    pub payload_json: String,
    pub prompt_preview: String,
    pub channel_id: Option<String>,
    pub thread_id: Option<String>,
}

/// What to do when a task fires, stored as JSON in `scheduled_tasks.payload_json`.
#[derive(Debug)]
pub enum TaskPayload {
    /// Post into an existing thread and continue its session.
    Thread { thread_id: String, prompt: String, user_id: Option<String> },
    /// Post a starter message in a project channel, create a thread, and
    /// (unless `notify_only`) start a session with the prompt.
    Channel {
        channel_id: String,
        prompt: String,
        /// Thread name; defaults to a preview of the prompt.
        name: Option<String>,
        notify_only: bool,
        user_id: Option<String>,
    },
}

/// The value of a payload.
pub enum Payload {
    Thread { thread: Seq<char>, prompt: Seq<char>, user: Option<Seq<char>> },
    Channel {
        channel: Seq<char>,
        prompt: Seq<char>,
        name: Option<Seq<char>>,
        notify_only: bool,
        user: Option<Seq<char>>,
    },
}

impl View for TaskPayload {
    type V = Payload;

    open spec fn view(&self) -> Payload {
        match *self {
            TaskPayload::Thread { thread_id, prompt, user_id } => Payload::Thread {
                thread: thread_id@,
                prompt: prompt@,
                user: text::opt_view(user_id),
            },
            TaskPayload::Channel { channel_id, prompt, name, notify_only, user_id } => {
                Payload::Channel {
                    channel: channel_id@,
                    prompt: prompt@,
                    name: text::opt_view(name),
                    notify_only,
                    user: text::opt_view(user_id),
                }
            },
        }
    }
}

impl Clone for TaskPayload {
    fn clone(&self) -> (r: Self)
        ensures
            r@ == self@,
    {
        match self {
            TaskPayload::Thread { thread_id, prompt, user_id } => TaskPayload::Thread {
                thread_id: thread_id.clone(),
                prompt: prompt.clone(),
                user_id: user_id.clone(),
            },
            TaskPayload::Channel { channel_id, prompt, name, notify_only, user_id } => {
                TaskPayload::Channel {
                    channel_id: channel_id.clone(),
                    prompt: prompt.clone(),
                    name: name.clone(),
                    notify_only: *notify_only,
                    user_id: user_id.clone(),
                }
            },
        }
    }
}

impl Payload {
    pub open spec fn prompt(self) -> Seq<char> {
        match self {
            Payload::Thread { thread, prompt, user } => prompt,
            Payload::Channel { channel, prompt, name, notify_only, user } => prompt,
        }
    }

    pub open spec fn channel(self) -> Option<Seq<char>> {
        match self {
            Payload::Thread { thread, prompt, user } => None,
            Payload::Channel { channel, prompt, name, notify_only, user } => Some(channel),
        }
    }

    pub open spec fn thread(self) -> Option<Seq<char>> {
        match self {
            Payload::Thread { thread, prompt, user } => Some(thread),
            Payload::Channel { channel, prompt, name, notify_only, user } => None,
        }
    }
}

#[derive(Debug)]
pub struct ParsedSendAt {
    pub schedule_kind: &'static str,
    pub run_at: Option<Timestamp>,
    pub cron_expr: Option<String>,
    pub timezone: Option<String>,
    pub next_run_at: Timestamp,
}

/// The value of a schedule.
pub struct Schedule {
    pub kind: Seq<char>,
    pub run_at: Option<Instant>,
    pub cron: Option<Seq<char>>,
    pub timezone: Option<Seq<char>>,
    pub next: Instant,
}

/// The view of an optional timestamp.
pub open spec fn opt_instant(o: Option<Timestamp>) -> Option<Instant> {
    match o {
        Some(t) => Some(t@),
        None => None,
    }
}

impl View for ParsedSendAt {
    type V = Schedule;

    open spec fn view(&self) -> Schedule {
        Schedule {
            kind: self.schedule_kind@,
            run_at: opt_instant(self.run_at),
            cron: text::opt_view(self.cron_expr),
            timezone: text::opt_view(self.timezone),
            next: self.next_run_at@,
        }
    }
}

/// A one-time schedule.
pub open spec fn once_at(at: Instant) -> Schedule {
    Schedule { kind: "at"@, run_at: Some(at), cron: None, timezone: None, next: at }
}

/// A recurring schedule, evaluated in UTC.
pub open spec fn recurring(expr: Seq<char>, next: Instant) -> Schedule {
    Schedule { kind: "cron"@, run_at: None, cron: Some(expr), timezone: Some("UTC"@), next }
}

impl ParsedSendAt {
    /// An immediate one-shot: picked up on the runner's next poll.
    pub fn immediately(now: Timestamp) -> (r: Self)
        ensures
            r@ == once_at(now@),
    {
        ParsedSendAt {
            schedule_kind: "at",
            run_at: Some(now),
            cron_expr: None,
            timezone: None,
            next_run_at: now,
        }
    }
}

// ---- cron ----

/// Why a text is not a cron expression, if it is not.
pub uninterp spec fn cron_error(expr: Seq<char>) -> Option<Seq<char>>;

/// The first time after an instant that matches a cron expression, or why there is
/// none.
pub uninterp spec fn cron_next(expr: Seq<char>, secs: i64, nanos: u32) -> Result<
    (i64, u32),
    Seq<char>,
>;

/// `croner::Cron::from_str`: the text of the error, where the expression is not one.
#[verifier::external_body]
fn check_cron(expr: &str) -> (r: Option<String>)
    ensures
        text::opt_view(r) == cron_error(expr@),
{
    match std::str::FromStr::from_str(expr) {
        Ok::<croner::Cron, croner::errors::CronError>(_) => None,
        Err(e) => Some(e.to_string()),
    }
}

/// `croner::Cron::find_next_occurrence`, exclusive, on the instant in UTC: the first
/// match after it, or the text of the error. The search steps off the second of the
/// instant first and looks at whole seconds, so what it finds lies in a later second
/// and has no fraction.
#[verifier::external_body]
fn find_next(expr: &str, secs: i64, nanos: u32) -> (r: Result<(i64, u32), String>)
    requires
        cron_error(expr@) is None,
        time::is_instant(secs as int, nanos as int),
    ensures
        match r {
            Ok(at) => cron_next(expr@, secs, nanos) == Ok::<(i64, u32), Seq<char>>(at) && at.0
                > secs && at.1 == 0 && time::is_instant(at.0 as int, at.1 as int),
            Err(e) => cron_next(expr@, secs, nanos) == Err::<(i64, u32), Seq<char>>(e@),
        },
{
    let cron: croner::Cron = std::str::FromStr::from_str(expr).unwrap();
    let from = chrono::DateTime::from_timestamp(secs, nanos).unwrap();
    match cron.find_next_occurrence(&from, false) {
        Ok(at) => Ok((at.timestamp(), at.timestamp_subsec_nanos())),
        Err(e) => Err(e.to_string()),
    }
}

/// Why a `--send-at` value gives no schedule.
#[derive(Debug)]
pub enum SendAtError {
    InvalidCron { expr: String, cause: String },
    NoOccurrence { expr: String, cause: String },
    NotUtc,
    InvalidTimestamp { value: String, cause: String },
    NotInFuture { value: String },
}

/// The value of a schedule error.
pub enum ScheduleError {
    InvalidCron(Seq<char>, Seq<char>),
    NoOccurrence(Seq<char>, Seq<char>),
    NotUtc,
    InvalidTimestamp(Seq<char>, Seq<char>),
    NotInFuture(Seq<char>),
}

impl View for SendAtError {
    type V = ScheduleError;

    open spec fn view(&self) -> ScheduleError {
        match *self {
            SendAtError::InvalidCron { expr, cause } => ScheduleError::InvalidCron(expr@, cause@),
            SendAtError::NoOccurrence { expr, cause } => ScheduleError::NoOccurrence(expr@, cause@),
            SendAtError::NotUtc => ScheduleError::NotUtc,
            SendAtError::InvalidTimestamp { value, cause } => ScheduleError::InvalidTimestamp(
                value@,
                cause@,
            ),
            SendAtError::NotInFuture { value } => ScheduleError::NotInFuture(value@),
        }
    }
}

impl ScheduleError {
    pub open spec fn text(self) -> Seq<char> {
        match self {
            ScheduleError::InvalidCron(expr, cause) => "invalid cron expression "@ + text::quoted(expr)
                + ": "@ + cause,
            ScheduleError::NoOccurrence(expr, cause) => "no next occurrence for "@ + text::quoted(expr)
                + ": "@ + cause,
            ScheduleError::NotUtc =>
                "--send-at must be a UTC ISO timestamp ending in Z (e.g. 2026-03-01T09:00:00Z) or a cron expression"@,
            ScheduleError::InvalidTimestamp(value, cause) => "invalid timestamp: "@ + value + ": "@
                + cause,
            ScheduleError::NotInFuture(value) => "--send-at must be in the future ("@ + value
                + " is not)"@,
        }
    }
}

impl SendAtError {
    pub fn message(&self) -> (r: String)
        ensures
            r@ == self@.text(),
    {
        match self {
            SendAtError::InvalidCron { expr, cause } => "invalid cron expression ".to_owned().concat(
                text::quote(expr.as_str()).as_str(),
            ).concat(": ").concat(cause.as_str()),
            SendAtError::NoOccurrence { expr, cause } => "no next occurrence for ".to_owned().concat(
                text::quote(expr.as_str()).as_str(),
            ).concat(": ").concat(cause.as_str()),
            SendAtError::NotUtc =>
                "--send-at must be a UTC ISO timestamp ending in Z (e.g. 2026-03-01T09:00:00Z) or a cron expression".to_owned(),
            SendAtError::InvalidTimestamp { value, cause } => "invalid timestamp: ".to_owned().concat(
                value.as_str(),
            ).concat(": ").concat(cause.as_str()),
            SendAtError::NotInFuture { value } => "--send-at must be in the future (".to_owned().concat(
                value.as_str(),
            ).concat(" is not)"),
        }
    }
}

/// What became of the search for the next run of a cron expression.
#[derive(Debug)]
pub enum CronReading {
    /// The expression is none, and why.
    Invalid(String),
    /// There is no next run, and why.
    Never(String),
    Next(Timestamp),
}

/// The value of a search.
pub enum CronAnswer {
    Invalid(Seq<char>),
    Never(Seq<char>),
    Next(Instant),
}

impl View for CronReading {
    type V = CronAnswer;

    open spec fn view(&self) -> CronAnswer {
        match *self {
            CronReading::Invalid(cause) => CronAnswer::Invalid(cause@),
            CronReading::Never(cause) => CronAnswer::Never(cause@),
            CronReading::Next(at) => CronAnswer::Next(at@),
        }
    }
}

/// The first match of a cron expression after `from`.
pub open spec fn cron_answer(expr: Seq<char>, from: Instant) -> CronAnswer {
    match cron_error(expr) {
        Some(cause) => CronAnswer::Invalid(cause),
        None => match cron_next(expr, from.secs as i64, from.nanos as u32) {
            Ok(at) => CronAnswer::Next(Instant { secs: at.0 as int, nanos: at.1 as int }),
            Err(cause) => CronAnswer::Never(cause),
        },
    }
}

fn read_cron(expr: &str, from: Timestamp) -> (r: CronReading)
    ensures
        r@ == cron_answer(expr@, from@),
        r@ matches CronAnswer::Next(at) ==> from@.before(at) && at.nanos == 0,
{
    if let Some(cause) = check_cron(expr) {
        return CronReading::Invalid(cause);
    }
    match find_next(expr, from.seconds(), from.subsec_nanos()) {
        Ok(at) => CronReading::Next(Timestamp::at(at.0, at.1)),
        Err(cause) => CronReading::Never(cause),
    }
}

/// The next run of a cron expression for which the search gave `found`.
pub open spec fn run_of(expr: Seq<char>, found: CronAnswer) -> Result<Instant, ScheduleError> {
    match found {
        CronAnswer::Invalid(cause) => Err(ScheduleError::InvalidCron(expr, cause)),
        CronAnswer::Never(cause) => Err(ScheduleError::NoOccurrence(expr, cause)),
        CronAnswer::Next(at) => Ok(at),
    }
}

/// The next run of a cron expression after `from`.
pub open spec fn next_run(expr: Seq<char>, from: Instant) -> Result<Instant, ScheduleError> {
    run_of(expr, cron_answer(expr, from))
}

/// The next run of a cron expression, from what the search for it gave.
pub fn run_from(expr: &str, found: CronReading) -> (r: Result<Timestamp, SendAtError>)
    ensures
        match r {
            Ok(t) => run_of(expr@, found@) == Ok::<Instant, ScheduleError>(t@),
            Err(e) => run_of(expr@, found@) == Err::<Instant, ScheduleError>(e@),
        },
{
    match found {
        CronReading::Invalid(cause) => Err(
            SendAtError::InvalidCron { expr: expr.to_owned(), cause },
        ),
        CronReading::Never(cause) => Err(
            SendAtError::NoOccurrence { expr: expr.to_owned(), cause },
        ),
        CronReading::Next(at) => Ok(at),
    }
}

/// The next run of a cron expression: always after `from`, on a whole second.
pub fn next_cron_run(expr: &str, from: Timestamp) -> (r: Result<Timestamp, SendAtError>)
    ensures
        match r {
            Ok(t) => next_run(expr@, from@) == Ok::<Instant, ScheduleError>(t@) && from@.before(t@)
                && t@.nanos == 0,
            Err(e) => next_run(expr@, from@) == Err::<Instant, ScheduleError>(e@),
        },
{
    run_from(expr, read_cron(expr, from))
}

// ---- schedules ----

/// Whether a value is meant as a cron expression: a shortcut, or five fields and
/// more.
pub open spec fn looks_like_cron(value: Seq<char>) -> bool {
    text::starts_with(value, seq!['@']) || text::words(value).len() >= 5
}

/// The schedule of a cron expression for which the search gave `found`.
pub open spec fn cron_schedule(value: Seq<char>, found: CronAnswer) -> Result<
    Schedule,
    ScheduleError,
> {
    match run_of(value, found) {
        Ok(next) => Ok(recurring(value, next)),
        Err(e) => Err(e),
    }
}

/// The schedule of a timestamp that was read as `parsed`.
pub open spec fn at_schedule(
    value: Seq<char>,
    parsed: Result<Instant, Seq<char>>,
    now: Instant,
) -> Result<Schedule, ScheduleError> {
    match parsed {
        Err(cause) => Err(ScheduleError::InvalidTimestamp(value, cause)),
        Ok(at) => if now.before(at) {
            Ok(once_at(at))
        } else {
            Err(ScheduleError::NotInFuture(value))
        },
    }
}

/// The schedule of a trimmed `--send-at` value.
pub open spec fn schedule_of(value: Seq<char>, now: Instant) -> Result<Schedule, ScheduleError> {
    if looks_like_cron(value) {
        cron_schedule(value, cron_answer(value, now))
    } else if !text::ends_with(value, seq!['Z']) {
        Err(ScheduleError::NotUtc)
    } else {
        at_schedule(value, time::parsed_instant(value), now)
    }
}

/// The schedule of a cron expression, from what the search for its next run gave.
pub fn cron_schedule_from(value: String, found: CronReading) -> (r: Result<
    ParsedSendAt,
    SendAtError,
>)
    ensures
        match r {
            Ok(p) => cron_schedule(value@, found@) == Ok::<Schedule, ScheduleError>(p@),
            Err(e) => cron_schedule(value@, found@) == Err::<Schedule, ScheduleError>(e@),
        },
{
    match run_from(value.as_str(), found) {
        Ok(next) => Ok(
            ParsedSendAt {
                schedule_kind: "cron",
                run_at: None,
                cron_expr: Some(value),
                timezone: Some("UTC".to_owned()),
                next_run_at: next,
            },
        ),
        Err(e) => Err(e),
    }
}

/// The schedule of a timestamp, from the instant that was read or the cause that none
/// was.
pub fn at_schedule_from(value: String, parsed: Result<Timestamp, String>, now: Timestamp) -> (r:
    Result<ParsedSendAt, SendAtError>)
    ensures
        match r {
            Ok(p) => at_schedule(value@, time::res_instant(parsed), now@) == Ok::<
                Schedule,
                ScheduleError,
            >(p@),
            Err(e) => at_schedule(value@, time::res_instant(parsed), now@) == Err::<
                Schedule,
                ScheduleError,
            >(e@),
        },
{
    match parsed {
        Err(cause) => Err(SendAtError::InvalidTimestamp { value, cause }),
        Ok(at) => if now.is_before(&at) {
            Ok(
                ParsedSendAt {
                    schedule_kind: "at",
                    run_at: Some(at),
                    cron_expr: None,
                    timezone: None,
                    next_run_at: at,
                },
            )
        } else {
            Err(SendAtError::NotInFuture { value })
        },
    }
}

/// Parse a `--send-at` value: a UTC ISO timestamp ending in `Z` (one-time) or a cron
/// expression (recurring, evaluated in UTC). The next run is always after `now`.
pub fn parse_send_at(value: &str, now: Timestamp) -> (r: Result<ParsedSendAt, SendAtError>)
    ensures
        match r {
            Ok(p) => schedule_of(text::trim(value@), now@) == Ok::<Schedule, ScheduleError>(p@)
                && now@.before(p@.next),
            Err(e) => schedule_of(text::trim(value@), now@) == Err::<Schedule, ScheduleError>(e@),
        },
{
    let value = text::trimmed(value);
    let v = text::chars_of(value.as_str());
    let shortcut = v.len() > 0 && v[0] == '@';
    proof {
        if v@.len() > 0 {
            assert(value@.take(1) =~= seq![v@[0]]);
            assert(value@.skip(value@.len() - 1) =~= seq![v@[v@.len() - 1]]);
            assert(seq![v@[0]][0] == v@[0]);
            assert(seq![v@[v@.len() - 1]][0] == v@[v@.len() - 1]);
            assert(seq!['@'][0] == '@' && seq!['Z'][0] == 'Z');
        }
        assert(shortcut == text::starts_with(value@, seq!['@']));
    }
    let fields = text::split_words(value.as_str());
    if shortcut || fields.len() >= 5 {
        let found = read_cron(value.as_str(), now);
        return cron_schedule_from(value, found);
    }
    if v.len() == 0 || v[v.len() - 1] != 'Z' {
        return Err(SendAtError::NotUtc);
    }
    let parsed = Timestamp::parse(value.as_str());
    at_schedule_from(value, parsed, now)
}

// ---- tasks ----

/// The prompt of a task is longer than a message can be.
#[derive(Debug, Clone, Copy, PartialEq, Eq, Structural)]
pub struct PromptTooLong;

pub open spec fn too_long_text() -> Seq<char> {
    "prompt exceeds "@ + numbers::decimal(PROMPT_MAX_LEN as nat) + " characters"@
}

impl PromptTooLong {
    pub fn message(&self) -> (r: String)
        ensures
            r@ == too_long_text(),
    {
        "prompt exceeds ".to_owned().concat(numbers::decimal_u64(PROMPT_MAX_LEN as u64).as_str()).concat(
            " characters",
        )
    }
}

/// Whether `task` is the task of `payload` on the schedule `s`.
pub open spec fn is_task_of(
    task: NewScheduledTask,
    payload: Payload,
    s: Schedule,
    payload_json: Seq<char>,
) -> bool {
    &&& task.schedule_kind@ == s.kind
    &&& opt_instant(task.run_at) == s.run_at
    &&& text::opt_view(task.cron_expr) == s.cron
    &&& text::opt_view(task.timezone) == s.timezone
    &&& task.next_run_at@ == s.next
    &&& task.payload_json@ == payload_json
    &&& task.prompt_preview@ == rendering::preview(payload.prompt(), 120)
    &&& text::opt_view(task.channel_id) == payload.channel()
    &&& text::opt_view(task.thread_id) == payload.thread()
}

/// The task of a payload, whose JSON form is `payload_json`. A prompt of more than
/// `PROMPT_MAX_LEN` bytes is refused.
pub fn build_task(payload: &TaskPayload, send_at: &ParsedSendAt, payload_json: String) -> (r: Result<
    NewScheduledTask,
    PromptTooLong,
>)
    ensures
        match r {
            Ok(task) => text::utf8_len(payload@.prompt()) <= PROMPT_MAX_LEN && is_task_of(
                task,
                payload@,
                send_at@,
                payload_json@,
            ),
            Err(_) => text::utf8_len(payload@.prompt()) > PROMPT_MAX_LEN,
        },
{
    let (prompt, channel_id, thread_id) = match payload {
        TaskPayload::Thread { thread_id, prompt, user_id: _ } => (
            prompt,
            None,
            Some(thread_id.clone()),
        ),
        TaskPayload::Channel { channel_id, prompt, name: _, notify_only: _, user_id: _ } => (
            prompt,
            Some(channel_id.clone()),
            None,
        ),
    };
    if text::byte_len(prompt.as_str()) > PROMPT_MAX_LEN {
        return Err(PromptTooLong);
    }
    Ok(
        NewScheduledTask {
            schedule_kind: send_at.schedule_kind.to_owned(),
            run_at: send_at.run_at,
            cron_expr: send_at.cron_expr.clone(),
            timezone: send_at.timezone.clone(),
            next_run_at: send_at.next_run_at,
            payload_json,
            prompt_preview: rendering::prompt_preview(prompt.as_str(), 120),
            channel_id,
            thread_id,
        },
    )
}

// ---- presentation ----

pub open spec fn str_or(o: Option<String>, default: Seq<char>) -> Seq<char> {
    match o {
        Some(s) => s@,
        None => default,
    }
}

/// When a task runs, where its next run is the date `next`.
pub open spec fn when_text(t: ScheduledTask, next: Seq<char>) -> Seq<char> {
    if t.schedule_kind@ == "cron"@ {
        "cron `"@ + str_or(t.cron_expr, "?"@) + "` "@ + str_or(t.timezone, "UTC"@) + " (next "@
            + next + ")"@
    } else {
        "at "@ + next
    }
}

pub open spec fn target_text(t: ScheduledTask) -> Seq<char> {
    match (t.thread_id, t.channel_id) {
        (Some(th), _) => " → thread "@ + th@,
        (None, Some(ch)) => " → channel "@ + ch@,
        _ => Seq::empty(),
    }
}

pub open spec fn error_text(t: ScheduledTask) -> Seq<char> {
    match t.last_error {
        Some(e) => if t.attempts > 0 {
            " (attempts: "@ + numbers::decimal_int(t.attempts as int) + ", last error: "@ + e@ + ")"@
        } else {
            Seq::empty()
        },
        None => Seq::empty(),
    }
}

pub open spec fn last_run_text(last_run: Option<Seq<char>>) -> Seq<char> {
    match last_run {
        Some(d) => " (last run "@ + d + ")"@,
        None => Seq::empty(),
    }
}

/// The line of a task whose next and last runs are the given dates.
pub open spec fn line_with_dates(
    t: ScheduledTask,
    next: Seq<char>,
    last_run: Option<Seq<char>>,
) -> Seq<char> {
    "#"@ + numbers::decimal_int(t.id as int) + " ["@ + t.status@ + "] "@ + when_text(t, next)
        + last_run_text(last_run) + target_text(t) + " — "@ + t.prompt_preview@ + error_text(t)
}

pub open spec fn last_run_date(t: ScheduledTask) -> Option<Seq<char>> {
    match t.last_run_at {
        Some(d) => Some(time::minute_text(d@)),
        None => None,
    }
}

pub open spec fn task_line(t: ScheduledTask) -> Seq<char> {
    line_with_dates(t, time::minute_text(t.next_run_at@), last_run_date(t))
}

/// The line of a task, from the dates of its next and last runs.
pub fn describe_with_dates(t: &ScheduledTask, next: &str, last_run: &Option<String>) -> (r: String)
    ensures
        r@ == line_with_dates(*t, next@, text::opt_view(*last_run)),
{
    let when = if text::same_text(t.schedule_kind.as_str(), "cron") {
        let expr = match &t.cron_expr {
            Some(e) => e.as_str(),
            None => "?",
        };
        let zone = match &t.timezone {
            Some(z) => z.as_str(),
            None => "UTC",
        };
        "cron `".to_owned().concat(expr).concat("` ").concat(zone).concat(" (next ").concat(
            next,
        ).concat(")")
    } else {
        "at ".to_owned().concat(next)
    };
    let target = match (&t.thread_id, &t.channel_id) {
        (Some(th), _) => " → thread ".to_owned().concat(th.as_str()),
        (None, Some(ch)) => " → channel ".to_owned().concat(ch.as_str()),
        _ => String::new(),
    };
    let error = match &t.last_error {
        Some(e) => if t.attempts > 0 {
            " (attempts: ".to_owned().concat(numbers::decimal_i64(t.attempts).as_str()).concat(
                ", last error: ",
            ).concat(e.as_str()).concat(")")
        } else {
            String::new()
        },
        None => String::new(),
    };
    let last = match last_run {
        Some(d) => " (last run ".to_owned().concat(d.as_str()).concat(")"),
        None => String::new(),
    };
    assert(target@ =~= target_text(*t));
    assert(error@ =~= error_text(*t));
    assert(last@ =~= last_run_text(text::opt_view(*last_run)));
    "#".to_owned().concat(numbers::decimal_i64(t.id).as_str()).concat(" [").concat(
        t.status.as_str(),
    ).concat("] ").concat(when.as_str()).concat(last.as_str()).concat(target.as_str()).concat(
        " — ",
    ).concat(t.prompt_preview.as_str()).concat(error.as_str())
}

/// Human-readable task line used by both `/tasks` and `lily task list`.
pub fn describe_task(t: &ScheduledTask) -> (r: String)
    ensures
        r@ == task_line(*t),
{
    let last_run = match &t.last_run_at {
        Some(d) => Some(d.to_minute_text()),
        None => None,
    };
    describe_with_dates(t, t.next_run_at.to_minute_text().as_str(), &last_run)
}

} // verus!
