//! Conversations with the outside world.
//!
//! Everything the bot does outside its own memory is an [`Effect`]. A flow is a
//! function from what was asked of it and the replies it has got so far to what
//! happens next: the next effect, or the end. The program that drives a flow
//! performs the effect, adds the reply to the log and asks again.

use crate::connector::opencode;
use crate::connector::opencode::PartView;
use crate::domain::lifecycle::ScheduleUpdate;
use crate::domain::rendering;
use crate::domain::session::{Message, Part, QueueEditOutcome, QueuedMessage};
use crate::domain::task::{Payload, Schedule, ScheduledTask, TaskPayload};
use crate::domain::worktree::{Assignment, ThreadWorktree};
use crate::text;
use crate::time::{Instant, Timestamp};
use vstd::prelude::*;
use vstd::string::*;

verus! {

/// How a platform words what the flows say.
#[derive(Debug, Clone, Copy, PartialEq, Eq, Structural)]
pub enum Wording {
    /// Plain command names.
    Plain,
    /// Slash commands and channel mentions.
    Discord,
}

/// A background job: build a worktree and move its thread into it.
#[derive(Debug)]
pub struct WorktreeBuild {
    pub project: String,
    pub directory: String,
    pub slug: String,
    pub base: Option<String>,
    pub thread: String,
    /// The title of the thread, where it is to be marked.
    pub title: Option<String>,
    pub wording: Wording,
}

/// The value of a background job.
pub struct Build {
    pub project: Seq<char>,
    pub directory: Seq<char>,
    pub slug: Seq<char>,
    pub base: Option<Seq<char>>,
    pub thread: Seq<char>,
    pub title: Option<Seq<char>>,
    pub wording: Wording,
}

impl View for WorktreeBuild {
    type V = Build;

    open spec fn view(&self) -> Build {
        Build {
            project: self.project@,
            directory: self.directory@,
            slug: self.slug@,
            base: text::opt_view(self.base),
            thread: self.thread@,
            title: text::opt_view(self.title),
            wording: self.wording,
        }
    }
}

/// What a flow asks for.
#[derive(Debug)]
pub enum Effect {
    /// The session of a thread. Reply: `Maybe`.
    GetThreadSession { thread: String },
    SetThreadSession { thread: String, session: String },
    /// The project directory of a channel. Reply: `Maybe`.
    GetChannelDirectory { channel: String },
    SetChannelDirectory { channel: String, directory: String },
    /// The worktree of a thread. Reply: `Worktree`.
    GetWorktree { thread: String },
    CreatePendingWorktree { thread: String, branch: String, project: String },
    SetWorktreeReady { thread: String, directory: String },
    SetWorktreeError { thread: String, error: String },
    DeleteWorktree { thread: String },
    /// The worktrees of a project. Reply: `Worktrees`.
    ListWorktrees { project: String },
    /// The planned and running tasks. Reply: `Tasks`.
    ListTasks,
    /// All tasks, also those that have ended. Reply: `Tasks`.
    ListAllTasks,
    /// The payload that a JSON text holds. Reply: `Payload`.
    ReadPayload { json: String },
    /// The JSON text of a payload. Reply: `Text`.
    WritePayload { payload: TaskPayload },
    /// Replaces the payload and the schedule of a planned task in one step. Reply:
    /// `Flag`, whether the task was still planned.
    UpdateTask {
        id: i64,
        payload_json: String,
        prompt_preview: String,
        schedule: ScheduleUpdate,
    },
    /// Reply: `Flag`, whether the task was planned or running.
    CancelTask { id: i64 },
    /// A copy of a session. Reply: `Text`, its id.
    ForkSession { directory: String, session: String },
    /// A fresh session. Reply: `Text`, its id.
    CreateSession { directory: String, title: String },
    /// A new thread. Reply: `Text`, its id.
    CreateThread { channel: String, from: Option<String>, name: String },
    AddMember { thread: String, user: String },
    /// Agent output or a notice.
    Send { thread: String, text: String },
    /// A regular message. Reply: `Text`, its id.
    Post { channel: String, text: String },
    Rename { thread: String, name: String },
    /// The channel of a thread. Reply: `Maybe`.
    ThreadParent { thread: String },
    /// What a Discord channel is. Reply: `Channel`.
    FetchChannel { channel: String },
    SetTopic { channel: String, topic: String },
    /// A message straight into a Discord channel.
    Say { channel: String, text: String },
    /// The answer to a slash command.
    Respond { text: String },
    /// Announces a later answer to a slash command.
    Defer,
    /// The later answer.
    Followup { text: String },
    /// Looks up or creates the runtime of a thread, in a directory.
    OpenRuntime { thread: String, directory: String },
    /// Hands a message to a runtime. Reply: `Position`, where it waits if it does.
    Enqueue { thread: String, message: QueuedMessage, wait: bool },
    /// Reply: `Count`, the entries removed.
    ClearQueue { thread: String, position: Option<usize> },
    /// Reply: `Edited`.
    EditQueued { thread: String, source: String, content: String },
    /// Reply: `EditedIn`, the thread that held the entry.
    EditAnyQueued { source: String, content: String },
    /// Replaces the session of a runtime, in storage and in memory.
    BindSession { thread: String, session: String },
    /// Drops the session of a runtime, in storage and in memory.
    ResetSession { thread: String },
    /// Reply: `Flag`.
    IsDirectory { path: String },
    /// Reply: `Flag`.
    PathExists { path: String },
    /// Creates the directory that holds `path`.
    CreateParent { path: String },
    /// Runs git. Reply: `Output`.
    Git { directory: String, args: Vec<String> },
    /// Starts a background job.
    StartBuild { build: WorktreeBuild },
    /// Sends a prompt to the session of a thread and waits for the run to end. Reply:
    /// `Turn`.
    Prompt { thread: String, directory: String, session: String, text: String },
    /// Plans again what has been running since `before` or longer. Reply: `Count`.
    RecoverStale { before: Timestamp },
    /// The planned tasks that are due, the most urgent first. Reply: `Tasks`.
    DueTasks { now: Timestamp, limit: usize },
    /// Reply: `Flag`, whether the task was still planned.
    ClaimTask { id: i64 },
    /// The status of a task. Reply: `Maybe`.
    TaskStatus { id: i64 },
    /// Executes a task and records what became of it.
    RunTask { task: ScheduledTask },
}

/// The value of an effect.
pub enum Act {
    GetThreadSession { thread: Seq<char> },
    SetThreadSession { thread: Seq<char>, session: Seq<char> },
    GetChannelDirectory { channel: Seq<char> },
    SetChannelDirectory { channel: Seq<char>, directory: Seq<char> },
    GetWorktree { thread: Seq<char> },
    CreatePendingWorktree { thread: Seq<char>, branch: Seq<char>, project: Seq<char> },
    SetWorktreeReady { thread: Seq<char>, directory: Seq<char> },
    SetWorktreeError { thread: Seq<char>, error: Seq<char> },
    DeleteWorktree { thread: Seq<char> },
    ListWorktrees { project: Seq<char> },
    ListTasks,
    ListAllTasks,
    ReadPayload { json: Seq<char> },
    WritePayload { payload: Payload },
    UpdateTask { id: int, payload: Seq<char>, preview: Seq<char>, schedule: Schedule },
    CancelTask { id: int },
    ForkSession { directory: Seq<char>, session: Seq<char> },
    CreateSession { directory: Seq<char>, title: Seq<char> },
    CreateThread { channel: Seq<char>, from: Option<Seq<char>>, name: Seq<char> },
    AddMember { thread: Seq<char>, user: Seq<char> },
    Send { thread: Seq<char>, text: Seq<char> },
    Post { channel: Seq<char>, text: Seq<char> },
    Rename { thread: Seq<char>, name: Seq<char> },
    ThreadParent { thread: Seq<char> },
    FetchChannel { channel: Seq<char> },
    SetTopic { channel: Seq<char>, topic: Seq<char> },
    Say { channel: Seq<char>, text: Seq<char> },
    Respond { text: Seq<char> },
    Defer,
    Followup { text: Seq<char> },
    OpenRuntime { thread: Seq<char>, directory: Seq<char> },
    Enqueue { thread: Seq<char>, message: Message, wait: bool },
    ClearQueue { thread: Seq<char>, position: Option<usize> },
    EditQueued { thread: Seq<char>, source: Seq<char>, content: Seq<char> },
    EditAnyQueued { source: Seq<char>, content: Seq<char> },
    BindSession { thread: Seq<char>, session: Seq<char> },
    ResetSession { thread: Seq<char> },
    IsDirectory { path: Seq<char> },
    PathExists { path: Seq<char> },
    CreateParent { path: Seq<char> },
    Git { directory: Seq<char>, args: Seq<Seq<char>> },
    StartBuild { build: Build },
    Prompt { thread: Seq<char>, directory: Seq<char>, session: Seq<char>, text: Seq<char> },
    RecoverStale { before: Instant },
    DueTasks { now: Instant, limit: usize },
    ClaimTask { id: int },
    TaskStatus { id: int },
    RunTask { task: ScheduledTask },
}

impl View for Effect {
    type V = Act;

    open spec fn view(&self) -> Act {
        match *self {
            Effect::GetThreadSession { thread } => Act::GetThreadSession { thread: thread@ },
            Effect::SetThreadSession { thread, session } => Act::SetThreadSession {
                thread: thread@,
                session: session@,
            },
            Effect::GetChannelDirectory { channel } => Act::GetChannelDirectory {
                channel: channel@,
            },
            Effect::SetChannelDirectory { channel, directory } => Act::SetChannelDirectory {
                channel: channel@,
                directory: directory@,
            },
            Effect::GetWorktree { thread } => Act::GetWorktree { thread: thread@ },
            Effect::CreatePendingWorktree { thread, branch, project } => {
                Act::CreatePendingWorktree {
                    thread: thread@,
                    branch: branch@,
                    project: project@,
                }
            },
            Effect::SetWorktreeReady { thread, directory } => Act::SetWorktreeReady {
                thread: thread@,
                directory: directory@,
            },
            Effect::SetWorktreeError { thread, error } => Act::SetWorktreeError {
                thread: thread@,
                error: error@,
            },
            Effect::DeleteWorktree { thread } => Act::DeleteWorktree { thread: thread@ },
            Effect::ListWorktrees { project } => Act::ListWorktrees { project: project@ },
            Effect::ListTasks => Act::ListTasks,
            Effect::ListAllTasks => Act::ListAllTasks,
            Effect::ReadPayload { json } => Act::ReadPayload { json: json@ },
            Effect::WritePayload { payload } => Act::WritePayload { payload: payload@ },
            Effect::UpdateTask { id, payload_json, prompt_preview, schedule } => Act::UpdateTask {
                id: id as int,
                payload: payload_json@,
                preview: prompt_preview@,
                schedule: schedule@,
            },
            Effect::CancelTask { id } => Act::CancelTask { id: id as int },
            Effect::ForkSession { directory, session } => Act::ForkSession {
                directory: directory@,
                session: session@,
            },
            Effect::CreateSession { directory, title } => Act::CreateSession {
                directory: directory@,
                title: title@,
            },
            Effect::CreateThread { channel, from, name } => Act::CreateThread {
                channel: channel@,
                from: text::opt_view(from),
                name: name@,
            },
            Effect::AddMember { thread, user } => Act::AddMember { thread: thread@, user: user@ },
            Effect::Send { thread, text } => Act::Send { thread: thread@, text: text@ },
            Effect::Post { channel, text } => Act::Post { channel: channel@, text: text@ },
            Effect::Rename { thread, name } => Act::Rename { thread: thread@, name: name@ },
            Effect::ThreadParent { thread } => Act::ThreadParent { thread: thread@ },
            Effect::FetchChannel { channel } => Act::FetchChannel { channel: channel@ },
            Effect::SetTopic { channel, topic } => Act::SetTopic {
                channel: channel@,
                topic: topic@,
            },
            Effect::Say { channel, text } => Act::Say { channel: channel@, text: text@ },
            Effect::Respond { text } => Act::Respond { text: text@ },
            Effect::Defer => Act::Defer,
            Effect::Followup { text } => Act::Followup { text: text@ },
            Effect::OpenRuntime { thread, directory } => Act::OpenRuntime {
                thread: thread@,
                directory: directory@,
            },
            Effect::Enqueue { thread, message, wait } => Act::Enqueue {
                thread: thread@,
                message: message@,
                wait,
            },
            Effect::ClearQueue { thread, position } => Act::ClearQueue {
                thread: thread@,
                position,
            },
            Effect::EditQueued { thread, source, content } => Act::EditQueued {
                thread: thread@,
                source: source@,
                content: content@,
            },
            Effect::EditAnyQueued { source, content } => Act::EditAnyQueued {
                source: source@,
                content: content@,
            },
            Effect::BindSession { thread, session } => Act::BindSession {
                thread: thread@,
                session: session@,
            },
            Effect::ResetSession { thread } => Act::ResetSession { thread: thread@ },
            Effect::IsDirectory { path } => Act::IsDirectory { path: path@ },
            Effect::PathExists { path } => Act::PathExists { path: path@ },
            Effect::CreateParent { path } => Act::CreateParent { path: path@ },
            Effect::Git { directory, args } => Act::Git { directory: directory@, args: text::texts(args@) },
            Effect::StartBuild { build } => Act::StartBuild { build: build@ },
            Effect::Prompt { thread, directory, session, text } => Act::Prompt {
                thread: thread@,
                directory: directory@,
                session: session@,
                text: text@,
            },
            Effect::RecoverStale { before } => Act::RecoverStale { before: before@ },
            Effect::DueTasks { now, limit } => Act::DueTasks { now: now@, limit },
            Effect::ClaimTask { id } => Act::ClaimTask { id: id as int },
            Effect::TaskStatus { id } => Act::TaskStatus { id: id as int },
            Effect::RunTask { task } => Act::RunTask { task },
        }
    }
}

/// What a Discord channel is.
#[derive(Debug)]
pub struct ChannelInfo {
    /// The channel belongs to a server.
    pub in_guild: bool,
    pub is_thread: bool,
    pub parent: Option<String>,
    pub name: String,
}

/// The value of a channel description.
pub struct Channel {
    pub in_guild: bool,
    pub is_thread: bool,
    pub parent: Option<Seq<char>>,
    pub name: Seq<char>,
}

impl View for ChannelInfo {
    type V = Channel;

    open spec fn view(&self) -> Channel {
        Channel {
            in_guild: self.in_guild,
            is_thread: self.is_thread,
            parent: text::opt_view(self.parent),
            name: self.name@,
        }
    }
}

/// What became of an effect.
#[derive(Debug)]
pub enum Reply {
    /// It happened; there is nothing to tell.
    Done,
    /// It failed; the text names the cause.
    Failed(String),
    Text(String),
    Maybe(Option<String>),
    Flag(bool),
    Count(usize),
    Position(Option<usize>),
    Output { success: bool, stdout: String, stderr: String },
    Worktree(Option<ThreadWorktree>),
    Worktrees(Vec<ThreadWorktree>),
    Tasks(Vec<ScheduledTask>),
    Payload(TaskPayload),
    Channel(ChannelInfo),
    Edited(QueueEditOutcome),
    EditedIn(Option<(String, QueueEditOutcome)>),
    /// What a run said, and how long it took.
    Turn { parts: Vec<Part>, elapsed: std::time::Duration },
}

/// The value of a reply.
pub enum Answer {
    Done,
    Failed(Seq<char>),
    Text(Seq<char>),
    Maybe(Option<Seq<char>>),
    Flag(bool),
    Count(usize),
    Position(Option<usize>),
    Output(GitOutput),
    Worktree(Option<Assignment>),
    Worktrees(Seq<Assignment>),
    Tasks(Seq<ScheduledTask>),
    Payload(Payload),
    Channel(Channel),
    Edited(QueueEditOutcome),
    EditedIn(Option<(Seq<char>, QueueEditOutcome)>),
    Turn(Turn),
}

/// What a run said, and how many seconds it took.
pub struct Turn {
    pub parts: Seq<PartView>,
    pub secs: nat,
}

/// What a git command did.
pub struct GitOutput {
    pub success: bool,
    pub stdout: Seq<char>,
    pub stderr: Seq<char>,
}

/// The values of a list of worktrees.
pub open spec fn assignments(v: Seq<ThreadWorktree>) -> Seq<Assignment> {
    Seq::new(v.len(), |i: int| v[i]@)
}

impl View for Reply {
    type V = Answer;

    open spec fn view(&self) -> Answer {
        match *self {
            Reply::Done => Answer::Done,
            Reply::Failed(e) => Answer::Failed(e@),
            Reply::Text(s) => Answer::Text(s@),
            Reply::Maybe(o) => Answer::Maybe(text::opt_view(o)),
            Reply::Flag(b) => Answer::Flag(b),
            Reply::Count(n) => Answer::Count(n),
            Reply::Position(p) => Answer::Position(p),
            Reply::Output { success, stdout, stderr } => Answer::Output(
                GitOutput { success, stdout: stdout@, stderr: stderr@ },
            ),
            Reply::Worktree(w) => Answer::Worktree(
                match w {
                    Some(w) => Some(w@),
                    None => None,
                },
            ),
            Reply::Worktrees(v) => Answer::Worktrees(assignments(v@)),
            Reply::Tasks(v) => Answer::Tasks(v@),
            Reply::Payload(p) => Answer::Payload(p@),
            Reply::Channel(c) => Answer::Channel(c@),
            Reply::Edited(o) => Answer::Edited(o),
            Reply::EditedIn(o) => Answer::EditedIn(
                match o {
                    Some(p) => Some((p.0@, p.1)),
                    None => None,
                },
            ),
            Reply::Turn { parts, elapsed } => Answer::Turn(
                Turn {
                    parts: opencode::part_views(parts@),
                    secs: rendering::whole_seconds(elapsed) as nat,
                },
            ),
        }
    }
}

/// The values of a log of replies.
pub open spec fn answers(log: Seq<Reply>) -> Seq<Answer> {
    Seq::new(log.len(), |i: int| log[i]@)
}

/// Where a flow stands: the next effect, or its result and the number of replies
/// that it has used.
pub enum Flow<T> {
    Do(Effect),
    Done(T, usize),
}

/// The value of where a flow stands.
pub enum Path<T> {
    Do(Act),
    Done(T, int),
}

/// A reply that a flow waits for, or what it says.
pub enum Got<T> {
    Pending,
    Failed(String),
    Value(T),
}

/// The value of a reply that a flow waits for.
pub enum Heard<T> {
    Pending,
    Failed(Seq<char>),
    Value(T),
}

/// A reply of another kind than the effect asks for counts as a failure.
pub open spec fn mismatch() -> Seq<char> {
    "unexpected reply"@
}

/// The reply at `i`, if it is there and did not fail.
pub open spec fn heard(log: Seq<Answer>, i: int) -> Heard<Answer> {
    if i < 0 || i >= log.len() {
        Heard::Pending
    } else {
        match log[i] {
            Answer::Failed(e) => Heard::Failed(e),
            a => Heard::Value(a),
        }
    }
}

/// Whether the effect at `i` has happened, well or not.
pub open spec fn tried(log: Seq<Answer>, i: int) -> bool {
    0 <= i < log.len()
}

pub open spec fn heard_done(log: Seq<Answer>, i: int) -> Heard<()> {
    match heard(log, i) {
        Heard::Pending => Heard::Pending,
        Heard::Failed(e) => Heard::Failed(e),
        Heard::Value(Answer::Done) => Heard::Value(()),
        Heard::Value(_) => Heard::Failed(mismatch()),
    }
}

pub open spec fn heard_text(log: Seq<Answer>, i: int) -> Heard<Seq<char>> {
    match heard(log, i) {
        Heard::Pending => Heard::Pending,
        Heard::Failed(e) => Heard::Failed(e),
        Heard::Value(Answer::Text(s)) => Heard::Value(s),
        Heard::Value(_) => Heard::Failed(mismatch()),
    }
}

pub open spec fn heard_maybe(log: Seq<Answer>, i: int) -> Heard<Option<Seq<char>>> {
    match heard(log, i) {
        Heard::Pending => Heard::Pending,
        Heard::Failed(e) => Heard::Failed(e),
        Heard::Value(Answer::Maybe(o)) => Heard::Value(o),
        Heard::Value(_) => Heard::Failed(mismatch()),
    }
}

pub open spec fn heard_flag(log: Seq<Answer>, i: int) -> Heard<bool> {
    match heard(log, i) {
        Heard::Pending => Heard::Pending,
        Heard::Failed(e) => Heard::Failed(e),
        Heard::Value(Answer::Flag(b)) => Heard::Value(b),
        Heard::Value(_) => Heard::Failed(mismatch()),
    }
}

pub open spec fn heard_count(log: Seq<Answer>, i: int) -> Heard<usize> {
    match heard(log, i) {
        Heard::Pending => Heard::Pending,
        Heard::Failed(e) => Heard::Failed(e),
        Heard::Value(Answer::Count(n)) => Heard::Value(n),
        Heard::Value(_) => Heard::Failed(mismatch()),
    }
}

pub open spec fn heard_position(log: Seq<Answer>, i: int) -> Heard<Option<usize>> {
    match heard(log, i) {
        Heard::Pending => Heard::Pending,
        Heard::Failed(e) => Heard::Failed(e),
        Heard::Value(Answer::Position(p)) => Heard::Value(p),
        Heard::Value(_) => Heard::Failed(mismatch()),
    }
}

pub open spec fn heard_output(log: Seq<Answer>, i: int) -> Heard<GitOutput> {
    match heard(log, i) {
        Heard::Pending => Heard::Pending,
        Heard::Failed(e) => Heard::Failed(e),
        Heard::Value(Answer::Output(o)) => Heard::Value(o),
        Heard::Value(_) => Heard::Failed(mismatch()),
    }
}

pub open spec fn heard_worktree(log: Seq<Answer>, i: int) -> Heard<Option<Assignment>> {
    match heard(log, i) {
        Heard::Pending => Heard::Pending,
        Heard::Failed(e) => Heard::Failed(e),
        Heard::Value(Answer::Worktree(w)) => Heard::Value(w),
        Heard::Value(_) => Heard::Failed(mismatch()),
    }
}

pub open spec fn heard_worktrees(log: Seq<Answer>, i: int) -> Heard<Seq<Assignment>> {
    match heard(log, i) {
        Heard::Pending => Heard::Pending,
        Heard::Failed(e) => Heard::Failed(e),
        Heard::Value(Answer::Worktrees(w)) => Heard::Value(w),
        Heard::Value(_) => Heard::Failed(mismatch()),
    }
}

pub open spec fn heard_tasks(log: Seq<Answer>, i: int) -> Heard<Seq<ScheduledTask>> {
    match heard(log, i) {
        Heard::Pending => Heard::Pending,
        Heard::Failed(e) => Heard::Failed(e),
        Heard::Value(Answer::Tasks(t)) => Heard::Value(t),
        Heard::Value(_) => Heard::Failed(mismatch()),
    }
}

pub open spec fn heard_payload(log: Seq<Answer>, i: int) -> Heard<Payload> {
    match heard(log, i) {
        Heard::Pending => Heard::Pending,
        Heard::Failed(e) => Heard::Failed(e),
        Heard::Value(Answer::Payload(p)) => Heard::Value(p),
        Heard::Value(_) => Heard::Failed(mismatch()),
    }
}

pub open spec fn heard_channel(log: Seq<Answer>, i: int) -> Heard<Channel> {
    match heard(log, i) {
        Heard::Pending => Heard::Pending,
        Heard::Failed(e) => Heard::Failed(e),
        Heard::Value(Answer::Channel(c)) => Heard::Value(c),
        Heard::Value(_) => Heard::Failed(mismatch()),
    }
}

pub open spec fn heard_edited(log: Seq<Answer>, i: int) -> Heard<QueueEditOutcome> {
    match heard(log, i) {
        Heard::Pending => Heard::Pending,
        Heard::Failed(e) => Heard::Failed(e),
        Heard::Value(Answer::Edited(o)) => Heard::Value(o),
        Heard::Value(_) => Heard::Failed(mismatch()),
    }
}

pub open spec fn heard_edited_in(log: Seq<Answer>, i: int) -> Heard<
    Option<(Seq<char>, QueueEditOutcome)>,
> {
    match heard(log, i) {
        Heard::Pending => Heard::Pending,
        Heard::Failed(e) => Heard::Failed(e),
        Heard::Value(Answer::EditedIn(o)) => Heard::Value(o),
        Heard::Value(_) => Heard::Failed(mismatch()),
    }
}

pub open spec fn heard_turn(log: Seq<Answer>, i: int) -> Heard<Turn> {
    match heard(log, i) {
        Heard::Pending => Heard::Pending,
        Heard::Failed(e) => Heard::Failed(e),
        Heard::Value(Answer::Turn(t)) => Heard::Value(t),
        Heard::Value(_) => Heard::Failed(mismatch()),
    }
}

// ---- reading the log ----

/// Whether the effect at `i` has happened, well or not.
pub fn was_tried(log: &Vec<Reply>, i: usize) -> (r: bool)
    ensures
        r == tried(answers(log@), i as int),
        r ==> i < log@.len() <= usize::MAX,
{
    i < log.len()
}

fn other(log: &Vec<Reply>, i: usize) -> (r: String)
    requires
        i < log@.len(),
    ensures
        r@ == match log@[i as int] {
            Reply::Failed(e) => e@,
            _ => mismatch(),
        },
{
    match &log[i] {
        Reply::Failed(e) => e.clone(),
        _ => "unexpected reply".to_owned(),
    }
}

pub open spec fn is_heard<T, V>(
    got: Got<T>,
    heard: Heard<V>,
    same: spec_fn(T, V) -> bool,
    log: Seq<Reply>,
    i: int,
) -> bool {
    match (got, heard) {
        (Got::Pending, Heard::Pending) => true,
        (Got::Failed(e), Heard::Failed(f)) => e@ == f && i < log.len() <= usize::MAX,
        (Got::Value(t), Heard::Value(v)) => same(t, v) && i < log.len() <= usize::MAX,
        _ => false,
    }
}

pub fn got_done(log: &Vec<Reply>, i: usize) -> (r: Got<()>)
    ensures
        is_heard(r, heard_done(answers(log@), i as int), |t: (), v: ()| true, log@, i as int),
{
    if i >= log.len() {
        return Got::Pending;
    }
    match &log[i] {
        Reply::Done => Got::Value(()),
        _ => Got::Failed(other(log, i)),
    }
}

pub fn got_text(log: &Vec<Reply>, i: usize) -> (r: Got<String>)
    ensures
        is_heard(
            r,
            heard_text(answers(log@), i as int),
            |t: String, v: Seq<char>| t@ == v,
            log@,
            i as int,
        ),
{
    if i >= log.len() {
        return Got::Pending;
    }
    match &log[i] {
        Reply::Text(s) => Got::Value(s.clone()),
        _ => Got::Failed(other(log, i)),
    }
}

pub fn got_maybe(log: &Vec<Reply>, i: usize) -> (r: Got<Option<String>>)
    ensures
        is_heard(
            r,
            heard_maybe(answers(log@), i as int),
            |t: Option<String>, v: Option<Seq<char>>| text::opt_view(t) == v,
            log@,
            i as int,
        ),
{
    if i >= log.len() {
        return Got::Pending;
    }
    match &log[i] {
        Reply::Maybe(o) => Got::Value(o.clone()),
        _ => Got::Failed(other(log, i)),
    }
}

pub fn got_flag(log: &Vec<Reply>, i: usize) -> (r: Got<bool>)
    ensures
        is_heard(
            r,
            heard_flag(answers(log@), i as int),
            |t: bool, v: bool| t == v,
            log@,
            i as int,
        ),
{
    if i >= log.len() {
        return Got::Pending;
    }
    match &log[i] {
        Reply::Flag(b) => Got::Value(*b),
        _ => Got::Failed(other(log, i)),
    }
}

pub fn got_count(log: &Vec<Reply>, i: usize) -> (r: Got<usize>)
    ensures
        is_heard(
            r,
            heard_count(answers(log@), i as int),
            |t: usize, v: usize| t == v,
            log@,
            i as int,
        ),
{
    if i >= log.len() {
        return Got::Pending;
    }
    match &log[i] {
        Reply::Count(n) => Got::Value(*n),
        _ => Got::Failed(other(log, i)),
    }
}

pub fn got_position(log: &Vec<Reply>, i: usize) -> (r: Got<Option<usize>>)
    ensures
        is_heard(
            r,
            heard_position(answers(log@), i as int),
            |t: Option<usize>, v: Option<usize>| t == v,
            log@,
            i as int,
        ),
{
    if i >= log.len() {
        return Got::Pending;
    }
    match &log[i] {
        Reply::Position(p) => Got::Value(*p),
        _ => Got::Failed(other(log, i)),
    }
}

/// What a git command did.
pub struct Ran {
    pub success: bool,
    pub stdout: String,
    pub stderr: String,
}

impl View for Ran {
    type V = GitOutput;

    open spec fn view(&self) -> GitOutput {
        GitOutput { success: self.success, stdout: self.stdout@, stderr: self.stderr@ }
    }
}

pub fn got_output(log: &Vec<Reply>, i: usize) -> (r: Got<Ran>)
    ensures
        is_heard(
            r,
            heard_output(answers(log@), i as int),
            |t: Ran, v: GitOutput| t@ == v,
            log@,
            i as int,
        ),
{
    if i >= log.len() {
        return Got::Pending;
    }
    match &log[i] {
        Reply::Output { success, stdout, stderr } => Got::Value(
            Ran { success: *success, stdout: stdout.clone(), stderr: stderr.clone() },
        ),
        _ => Got::Failed(other(log, i)),
    }
}

pub fn got_worktree(log: &Vec<Reply>, i: usize) -> (r: Got<Option<ThreadWorktree>>)
    ensures
        is_heard(
            r,
            heard_worktree(answers(log@), i as int),
            |t: Option<ThreadWorktree>, v: Option<Assignment>|
                match t {
                    Some(w) => v == Some(w@),
                    None => v is None,
                },
            log@,
            i as int,
        ),
{
    if i >= log.len() {
        return Got::Pending;
    }
    match &log[i] {
        Reply::Worktree(Some(w)) => Got::Value(Some(w.clone())),
        Reply::Worktree(None) => Got::Value(None),
        _ => Got::Failed(other(log, i)),
    }
}

pub fn got_worktrees(log: &Vec<Reply>, i: usize) -> (r: Got<&Vec<ThreadWorktree>>)
    ensures
        is_heard(
            r,
            heard_worktrees(answers(log@), i as int),
            |t: &Vec<ThreadWorktree>, v: Seq<Assignment>| assignments(t@) == v,
            log@,
            i as int,
        ),
{
    if i >= log.len() {
        return Got::Pending;
    }
    match &log[i] {
        Reply::Worktrees(v) => Got::Value(v),
        _ => Got::Failed(other(log, i)),
    }
}

pub fn got_tasks(log: &Vec<Reply>, i: usize) -> (r: Got<&Vec<ScheduledTask>>)
    ensures
        is_heard(
            r,
            heard_tasks(answers(log@), i as int),
            |t: &Vec<ScheduledTask>, v: Seq<ScheduledTask>| t@ == v,
            log@,
            i as int,
        ),
{
    if i >= log.len() {
        return Got::Pending;
    }
    match &log[i] {
        Reply::Tasks(v) => Got::Value(v),
        _ => Got::Failed(other(log, i)),
    }
}

pub fn got_payload(log: &Vec<Reply>, i: usize) -> (r: Got<&TaskPayload>)
    ensures
        is_heard(
            r,
            heard_payload(answers(log@), i as int),
            |t: &TaskPayload, v: Payload| t@ == v,
            log@,
            i as int,
        ),
{
    if i >= log.len() {
        return Got::Pending;
    }
    match &log[i] {
        Reply::Payload(p) => Got::Value(p),
        _ => Got::Failed(other(log, i)),
    }
}

pub fn got_channel(log: &Vec<Reply>, i: usize) -> (r: Got<&ChannelInfo>)
    ensures
        is_heard(
            r,
            heard_channel(answers(log@), i as int),
            |t: &ChannelInfo, v: Channel| t@ == v,
            log@,
            i as int,
        ),
{
    if i >= log.len() {
        return Got::Pending;
    }
    match &log[i] {
        Reply::Channel(c) => Got::Value(c),
        _ => Got::Failed(other(log, i)),
    }
}

pub fn got_edited(log: &Vec<Reply>, i: usize) -> (r: Got<QueueEditOutcome>)
    ensures
        is_heard(
            r,
            heard_edited(answers(log@), i as int),
            |t: QueueEditOutcome, v: QueueEditOutcome| t == v,
            log@,
            i as int,
        ),
{
    if i >= log.len() {
        return Got::Pending;
    }
    match &log[i] {
        Reply::Edited(o) => Got::Value(*o),
        _ => Got::Failed(other(log, i)),
    }
}

/// A run as it was replied.
pub struct RanTurn<'a> {
    pub parts: &'a Vec<Part>,
    pub elapsed: std::time::Duration,
}

impl<'a> View for RanTurn<'a> {
    type V = Turn;

    open spec fn view(&self) -> Turn {
        Turn {
            parts: opencode::part_views(self.parts@),
            secs: rendering::whole_seconds(self.elapsed) as nat,
        }
    }
}

pub fn got_turn(log: &Vec<Reply>, i: usize) -> (r: Got<RanTurn<'_>>)
    ensures
        is_heard(
            r,
            heard_turn(answers(log@), i as int),
            |t: RanTurn<'_>, v: Turn| t@ == v,
            log@,
            i as int,
        ),
{
    if i >= log.len() {
        return Got::Pending;
    }
    match &log[i] {
        Reply::Turn { parts, elapsed } => Got::Value(RanTurn { parts, elapsed: *elapsed }),
        _ => Got::Failed(other(log, i)),
    }
}

pub fn got_edited_in(log: &Vec<Reply>, i: usize) -> (r: Got<Option<(String, QueueEditOutcome)>>)
    ensures
        is_heard(
            r,
            heard_edited_in(answers(log@), i as int),
            |t: Option<(String, QueueEditOutcome)>, v: Option<(Seq<char>, QueueEditOutcome)>|
                match t {
                    Some(p) => v == Some((p.0@, p.1)),
                    None => v is None,
                },
            log@,
            i as int,
        ),
{
    if i >= log.len() {
        return Got::Pending;
    }
    match &log[i] {
        Reply::EditedIn(Some(p)) => Got::Value(Some((p.0.clone(), p.1))),
        Reply::EditedIn(None) => Got::Value(None),
        _ => Got::Failed(other(log, i)),
    }
}

// ---- results ----

/// The value of a result with a text.
pub open spec fn res_text(r: Result<String, String>) -> Result<Seq<char>, Seq<char>> {
    match r {
        Ok(s) => Ok(s@),
        Err(e) => Err(e@),
    }
}

/// The value of a result without one.
pub open spec fn res_unit(r: Result<(), String>) -> Result<(), Seq<char>> {
    match r {
        Ok(_) => Ok(()),
        Err(e) => Err(e@),
    }
}

/// Where a flow with a text as its result stands.
pub open spec fn at_text(f: Flow<Result<String, String>>) -> Path<Result<Seq<char>, Seq<char>>> {
    match f {
        Flow::Do(e) => Path::Do(e@),
        Flow::Done(r, n) => Path::Done(res_text(r), n as int),
    }
}

/// Where a flow without a result but its failure stands.
pub open spec fn at_unit(f: Flow<Result<(), String>>) -> Path<Result<(), Seq<char>>> {
    match f {
        Flow::Do(e) => Path::Do(e@),
        Flow::Done(r, n) => Path::Done(res_unit(r), n as int),
    }
}

/// Where a flow with a yes or no as its result stands.
pub open spec fn at_bool(f: Flow<Result<bool, String>>) -> Path<Result<bool, Seq<char>>> {
    match f {
        Flow::Do(e) => Path::Do(e@),
        Flow::Done(Ok(b), n) => Path::Done(Ok(b), n as int),
        Flow::Done(Err(e), n) => Path::Done(Err(e@), n as int),
    }
}

/// A message that did not come from a chat message.
pub open spec fn unsourced(prompt: Seq<char>, username: Seq<char>) -> Message {
    Message { prompt, username, source: None, show_marker: false }
}

pub fn plain_message(prompt: String, username: &str, source: Option<String>) -> (r: QueuedMessage)
    ensures
        r@ == (Message {
            prompt: prompt@,
            username: username@,
            source: text::opt_view(source),
            show_marker: false,
        }),
{
    QueuedMessage {
        prompt,
        username: username.to_owned(),
        source_message_id: source,
        show_marker: false,
    }
}

/// A failure in its context.
pub open spec fn context(what: Seq<char>, cause: Seq<char>) -> Seq<char> {
    what + ": "@ + cause
}

pub fn with_context(what: &str, cause: &str) -> (r: String)
    ensures
        r@ == context(what@, cause@),
{
    what.to_owned().concat(": ").concat(cause)
}

} // verus!
