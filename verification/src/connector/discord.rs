//! The Discord side: channels are projects, threads are sessions.
//!
//! - A message in a linked channel creates a thread and starts a session.
//! - Messages inside a thread continue that thread's session.
//! - Slash commands implement project linking, the queue, btw forks, and worktree
//!   management.

use crate::application::commands;
use crate::application::commands::{Btw, BtwRequest};
use crate::application::flow;
use crate::application::flow::{Act, Answer, Channel, ChannelInfo, Effect, Flow, Got, Heard, Path, Reply, Wording};
use crate::application::task_runner;
use crate::connector::matrix;
use crate::domain::delivery;
use crate::domain::delivery::Delivery;
use crate::domain::rendering;
use crate::domain::session::QueueEditOutcome;
use crate::numbers;
use crate::text;
use vstd::prelude::*;
use vstd::string::*;

verus! {

// ---- ids and names ----

/// The number of a Discord id, or why it is none.
pub open spec fn id_value(id: Seq<char>) -> Result<nat, Seq<char>> {
    match numbers::unsigned_value(id, u64::MAX as nat) {
        Ok(n) => Ok(n),
        Err(e) => Err(flow::context("not a Discord id: "@ + id, e.text())),
    }
}

pub fn parse_id(id: &str) -> (r: Result<u64, String>)
    ensures
        match r {
            Ok(n) => id_value(id@) == Ok::<nat, Seq<char>>(n as nat),
            Err(e) => id_value(id@) == Err::<nat, Seq<char>>(e@),
        },
{
    match numbers::parse_u64(id) {
        Ok(n) => Ok(n),
        Err(e) => {
            let what = "not a Discord id: ".to_owned().concat(id);
            Err(flow::with_context(what.as_str(), e.message()))
        },
    }
}

/// The first 100 bytes of a thread name, cut between two characters.
pub fn truncate_name(s: &str) -> (r: String)
    ensures
        r@ == text::prefix_within(s@, 100),
        text::utf8_len(r@) <= 100,
        text::utf8_len(s@) <= 100 ==> r@ == s@,
{
    proof {
        text::lemma_prefix_within(s@, 100);
    }
    text::truncate(s, 100)
}

// ---- the slash commands ----

/// What a slash command's option takes.
#[derive(Debug, Clone, Copy, PartialEq, Eq, Structural)]
pub enum OptionKind {
    Text,
    Integer,
}

/// An option of a slash command.
#[derive(Debug, Clone, Copy)]
pub struct OptionSpec {
    pub kind: OptionKind,
    pub name: &'static str,
    pub description: &'static str,
    pub required: bool,
}

/// A slash command.
#[derive(Debug)]
pub struct CommandSpec {
    pub name: &'static str,
    pub description: &'static str,
    /// Commands that point the bot at host directories or mutate git/task state
    /// default to members who manage the server.
    pub admin: bool,
    pub options: Vec<OptionSpec>,
}

/// The value of an option.
pub struct Opt {
    pub kind: OptionKind,
    pub name: Seq<char>,
    pub description: Seq<char>,
    pub required: bool,
}

/// The value of a command.
pub struct Command {
    pub name: Seq<char>,
    pub description: Seq<char>,
    pub admin: bool,
    pub options: Seq<Opt>,
}

impl View for OptionSpec {
    type V = Opt;

    open spec fn view(&self) -> Opt {
        Opt {
            kind: self.kind,
            name: self.name@,
            description: self.description@,
            required: self.required,
        }
    }
}

pub open spec fn option_views(v: Seq<OptionSpec>) -> Seq<Opt> {
    Seq::new(v.len(), |i: int| v[i]@)
}

impl View for CommandSpec {
    type V = Command;

    open spec fn view(&self) -> Command {
        Command {
            name: self.name@,
            description: self.description@,
            admin: self.admin,
            options: option_views(self.options@),
        }
    }
}

pub open spec fn command_views(v: Seq<CommandSpec>) -> Seq<Command> {
    Seq::new(v.len(), |i: int| v[i]@)
}

pub open spec fn text_opt(name: Seq<char>, description: Seq<char>, required: bool) -> Opt {
    Opt { kind: OptionKind::Text, name, description, required }
}

pub open spec fn int_opt(name: Seq<char>, description: Seq<char>, required: bool) -> Opt {
    Opt { kind: OptionKind::Integer, name, description, required }
}

/// The slash commands of the bot.
pub open spec fn command_table() -> Seq<Command> {
    seq![
        Command {
            name: "add-project"@,
            description: "Link this channel to a project directory on the bot's machine"@,
            admin: true,
            options: seq![
                text_opt("directory"@, "Absolute path of the project directory"@, true),
            ],
        },
        Command {
            name: "queue"@,
            description: "Queue a message to send when the current run finishes"@,
            admin: false,
            options: seq![text_opt("message"@, "The message to queue"@, true)],
        },
        Command {
            name: "clear-queue"@,
            description: "Clear all queued messages, or one position"@,
            admin: false,
            options: seq![
                int_opt("position"@, "1-based position to remove (omit to clear all)"@, false),
            ],
        },
        Command {
            name: "btw"@,
            description: "Fork this session's context into a new thread to ask a side question"@,
            admin: false,
            options: seq![text_opt("prompt"@, "The side question"@, true)],
        },
        Command {
            name: "new-worktree"@,
            description: "Move this session into an isolated git worktree"@,
            admin: true,
            options: seq![
                text_opt(
                    "name"@,
                    "Worktree name (derived from the thread name when omitted)"@,
                    false,
                ),
                text_opt(
                    "base-branch"@,
                    "Base ref for the worktree branch (defaults to HEAD)"@,
                    false,
                ),
            ],
        },
        Command {
            name: "merge-worktree"@,
            description: "Rebase this thread's worktree commits back onto the default branch"@,
            admin: true,
            options: seq![
                text_opt(
                    "target-branch"@,
                    "Target branch (defaults to the project's default branch)"@,
                    false,
                ),
            ],
        },
        Command {
            name: "worktrees"@,
            description: "List worktrees for this channel's project"@,
            admin: false,
            options: Seq::empty(),
        },
        Command {
            name: "tasks"@,
            description: "List scheduled tasks"@,
            admin: false,
            options: Seq::empty(),
        },
        Command {
            name: "cancel-task"@,
            description: "Cancel a scheduled task by id"@,
            admin: true,
            options: seq![int_opt("id"@, "Task id from /tasks"@, true)],
        },
    ]
}

fn no_options() -> (r: Vec<OptionSpec>)
    ensures
        option_views(r@) == Seq::<Opt>::empty(),
{
    let v: Vec<OptionSpec> = Vec::new();
    proof {
        assert(option_views(v@) =~= Seq::<Opt>::empty());
    }
    v
}

fn one_option(kind: OptionKind, name: &'static str, description: &'static str, required: bool) -> (r:
    Vec<OptionSpec>)
    ensures
        option_views(r@) == seq![
            (Opt { kind, name: name@, description: description@, required }),
        ],
{
    let mut v: Vec<OptionSpec> = Vec::new();
    v.push(OptionSpec { kind, name, description, required });
    proof {
        assert(option_views(v@) =~= seq![
            (Opt { kind, name: name@, description: description@, required }),
        ]);
    }
    v
}

fn add_command(
    list: &mut Vec<CommandSpec>,
    name: &'static str,
    description: &'static str,
    admin: bool,
    options: Vec<OptionSpec>,
)
    ensures
        command_views(final(list)@) == command_views(old(list)@).push(
            (Command {
                name: name@,
                description: description@,
                admin,
                options: option_views(options@),
            }),
        ),
{
    let ghost before = command_views(list@);
    list.push(CommandSpec { name, description, admin, options });
    proof {
        assert(command_views(list@) =~= before.push(list@.last()@));
    }
}

/// The slash commands to register.
pub fn register_commands() -> (r: Vec<CommandSpec>)
    ensures
        command_views(r@) == command_table(),
{
    let mut list: Vec<CommandSpec> = Vec::new();
    proof {
        assert(command_views(list@) =~= Seq::<Command>::empty());
    }
    add_command(
        &mut list,
        "add-project",
        "Link this channel to a project directory on the bot's machine",
        true,
        one_option(
            OptionKind::Text,
            "directory",
            "Absolute path of the project directory",
            true,
        ),
    );
    add_command(
        &mut list,
        "queue",
        "Queue a message to send when the current run finishes",
        false,
        one_option(OptionKind::Text, "message", "The message to queue", true),
    );
    add_command(
        &mut list,
        "clear-queue",
        "Clear all queued messages, or one position",
        false,
        one_option(
            OptionKind::Integer,
            "position",
            "1-based position to remove (omit to clear all)",
            false,
        ),
    );
    add_command(
        &mut list,
        "btw",
        "Fork this session's context into a new thread to ask a side question",
        false,
        one_option(OptionKind::Text, "prompt", "The side question", true),
    );
    let mut options = one_option(
        OptionKind::Text,
        "name",
        "Worktree name (derived from the thread name when omitted)",
        false,
    );
    let ghost first = option_views(options@);
    options.push(
        OptionSpec {
            kind: OptionKind::Text,
            name: "base-branch",
            description: "Base ref for the worktree branch (defaults to HEAD)",
            required: false,
        },
    );
    proof {
        assert(option_views(options@) =~= first.push(options@.last()@));
        assert(option_views(options@) =~= command_table()[4].options);
    }
    add_command(
        &mut list,
        "new-worktree",
        "Move this session into an isolated git worktree",
        true,
        options,
    );
    add_command(
        &mut list,
        "merge-worktree",
        "Rebase this thread's worktree commits back onto the default branch",
        true,
        one_option(
            OptionKind::Text,
            "target-branch",
            "Target branch (defaults to the project's default branch)",
            false,
        ),
    );
    add_command(
        &mut list,
        "worktrees",
        "List worktrees for this channel's project",
        false,
        no_options(),
    );
    add_command(&mut list, "tasks", "List scheduled tasks", false, no_options());
    add_command(
        &mut list,
        "cancel-task",
        "Cancel a scheduled task by id",
        true,
        one_option(OptionKind::Integer, "id", "Task id from /tasks", true),
    );
    proof {
        assert(command_views(list@) =~= command_table());
    }
    list
}

/// Exactly the commands that point the bot at directories of the host or change git or
/// task state are restricted.
pub proof fn law_sensitive_commands_are_restricted(i: int)
    requires
        0 <= i < command_table().len(),
    ensures
        command_table()[i].admin <==> (command_table()[i].name == "add-project"@
            || command_table()[i].name == "new-worktree"@ || command_table()[i].name
            == "merge-worktree"@ || command_table()[i].name == "cancel-task"@),
{
    reveal_strlit("add-project");
    reveal_strlit("queue");
    reveal_strlit("clear-queue");
    reveal_strlit("btw");
    reveal_strlit("new-worktree");
    reveal_strlit("merge-worktree");
    reveal_strlit("worktrees");
    reveal_strlit("tasks");
    reveal_strlit("cancel-task");
    assert("queue"@[0] == 'q' && "btw"@[0] == 'b' && "worktrees"@[0] == 'w' && "tasks"@[0] == 't');
    assert("clear-queue"@[0] == 'c' && "clear-queue"@[1] == 'l' && "cancel-task"@[1] == 'a');
    assert("add-project"@[0] == 'a' && "new-worktree"@[0] == 'n' && "merge-worktree"@[0] == 'm'
        && "cancel-task"@[0] == 'c');
}

// ---- channels ----

/// What a channel of a server is; any other channel is refused.
pub open spec fn guild_channel(log: Seq<Answer>, i: int) -> Heard<Channel> {
    match flow::heard_channel(log, i) {
        Heard::Pending => Heard::Pending,
        Heard::Failed(e) => Heard::Failed(flow::context("failed to fetch channel"@, e)),
        Heard::Value(c) => if c.in_guild {
            Heard::Value(c)
        } else {
            Heard::Failed("not a guild channel"@)
        },
    }
}

/// What a channel of a server is.
pub fn got_guild_channel(log: &Vec<Reply>, i: usize) -> (r: Got<&ChannelInfo>)
    ensures
        flow::is_heard(
            r,
            guild_channel(flow::answers(log@), i as int),
            |t: &ChannelInfo, v: Channel| t@ == v,
            log@,
            i as int,
        ),
{
    match flow::got_channel(log, i) {
        Got::Pending => Got::Pending,
        Got::Failed(e) => Got::Failed(flow::with_context("failed to fetch channel", e.as_str())),
        Got::Value(c) => if c.in_guild {
            Got::Value(c)
        } else {
            Got::Failed("not a guild channel".to_owned())
        },
    }
}

// ---- plain messages ----

/// A message in a channel or thread.
#[derive(Debug)]
pub struct ChatMessage {
    pub channel_id: String,
    pub message_id: String,
    pub content: String,
    pub author_id: String,
    pub author_name: String,
}

/// A message in a project channel: a thread is made of it and a session started. A
/// fresh session is idle, so its suffix makes no difference but is taken off. Elsewhere
/// the bot stays quiet.
pub open spec fn in_channel(m: ChatMessage, log: Seq<Answer>, i: int) -> Path<
    Result<(), Seq<char>>,
> {
    match flow::heard_maybe(log, i) {
        Heard::Pending => Path::Do(Act::GetChannelDirectory { channel: m.channel_id@ }),
        Heard::Failed(e) => Path::Done(Err(e), i + 1),
        Heard::Value(None) => Path::Done(Ok(()), i + 1),
        Heard::Value(Some(directory)) => {
            let prompt = delivery::parsed(m.content@).1;
            match flow::heard_text(log, i + 1) {
                Heard::Pending => Path::Do(
                    Act::CreateThread {
                        channel: m.channel_id@,
                        from: Some(m.message_id@),
                        name: session_name(prompt),
                    },
                ),
                Heard::Failed(e) => Path::Done(
                    Err(flow::context("failed to create thread"@, e)),
                    i + 2,
                ),
                Heard::Value(thread) => if !flow::tried(log, i + 2) {
                    Path::Do(Act::AddMember { thread, user: m.author_id@ })
                } else {
                    match flow::heard_done(log, i + 3) {
                        Heard::Pending => Path::Do(Act::OpenRuntime { thread, directory }),
                        Heard::Failed(e) => Path::Done(Err(e), i + 4),
                        Heard::Value(_) => if !flow::tried(log, i + 4) {
                            Path::Do(
                                Act::Enqueue {
                                    thread,
                                    message: matrix::sourced(
                                        prompt,
                                        m.author_name@,
                                        m.message_id@,
                                    ),
                                    wait: false,
                                },
                            )
                        } else {
                            Path::Done(Ok(()), i + 5)
                        },
                    }
                },
            }
        },
    }
}

/// The name of a session's thread.
pub open spec fn session_name(prompt: Seq<char>) -> Seq<char> {
    let name = rendering::preview(prompt, 80);
    if name.len() == 0 {
        "session"@
    } else {
        name
    }
}

fn handle_channel_message(m: &ChatMessage, log: &Vec<Reply>, i: usize) -> (r: Flow<
    Result<(), String>,
>)
    ensures
        flow::at_unit(r) == in_channel(*m, flow::answers(log@), i as int),
{
    let directory = match flow::got_maybe(log, i) {
        Got::Pending => return Flow::Do(
            Effect::GetChannelDirectory { channel: m.channel_id.clone() },
        ),
        Got::Failed(e) => return Flow::Done(Err(e), i + 1),
        Got::Value(None) => return Flow::Done(Ok(()), i + 1),
        Got::Value(Some(d)) => d,
    };
    let parsed = delivery::parse_message(m.content.as_str());
    let i: usize = i + 1;
    let thread = match flow::got_text(log, i) {
        Got::Pending => {
            let preview = rendering::prompt_preview(parsed.prompt.as_str(), 80);
            let name = if preview.as_str().is_empty() {
                "session".to_owned()
            } else {
                preview
            };
            return Flow::Do(
                Effect::CreateThread {
                    channel: m.channel_id.clone(),
                    from: Some(m.message_id.clone()),
                    name,
                },
            );
        },
        Got::Failed(e) => return Flow::Done(
            Err(flow::with_context("failed to create thread", e.as_str())),
            i + 1,
        ),
        Got::Value(t) => t,
    };
    let i: usize = i + 1;
    if !flow::was_tried(log, i) {
        return Flow::Do(Effect::AddMember { thread, user: m.author_id.clone() });
    }
    let i: usize = i + 1;
    match flow::got_done(log, i) {
        Got::Pending => return Flow::Do(Effect::OpenRuntime { thread, directory }),
        Got::Failed(e) => return Flow::Done(Err(e), i + 1),
        Got::Value(_) => {},
    }
    let i: usize = i + 1;
    if !flow::was_tried(log, i) {
        let message = flow::plain_message(
            parsed.prompt,
            m.author_name.as_str(),
            Some(m.message_id.clone()),
        );
        return Flow::Do(Effect::Enqueue { thread, message, wait: false });
    }
    Flow::Done(Ok(()), i + 1)
}

/// The request of a side question in a thread.
pub open spec fn btw_of(m: ChatMessage, parent: Seq<char>, directory: Seq<char>) -> Btw {
    Btw {
        source: m.channel_id@,
        parent,
        directory,
        prompt: delivery::parsed(m.content@).1,
        user: m.author_id@,
        username: m.author_name@,
    }
}

/// A message in a thread: it continues the session, waits, or asks a side question.
pub open spec fn in_thread(m: ChatMessage, parent: Option<Seq<char>>, log: Seq<Answer>, i: int) -> Path<
    Result<(), Seq<char>>,
> {
    let (kind, prompt) = delivery::parsed(m.content@);
    let message = matrix::sourced(prompt, m.author_name@, m.message_id@);
    match matrix::reaching(m.channel_id@, log, i) {
        Path::Do(a) => Path::Do(a),
        Path::Done(Err(e), n) => Path::Done(Err(e), n),
        Path::Done(Ok(directory), n) => match kind {
            Delivery::Btw => match parent {
                None => Path::Done(Err("thread has no parent channel"@), n),
                Some(p) => match commands::forking(
                    Wording::Discord,
                    btw_of(m, p, directory),
                    log,
                    n,
                ) {
                    Path::Do(a) => Path::Do(a),
                    Path::Done(Err(e), k) => Path::Done(Err(e), k),
                    Path::Done(Ok(_), k) => Path::Done(Ok(()), k),
                },
            },
            Delivery::Queue => match flow::heard_position(log, n) {
                Heard::Pending => Path::Do(
                    Act::Enqueue { thread: m.channel_id@, message, wait: true },
                ),
                Heard::Failed(e) => Path::Done(Err(e), n + 1),
                Heard::Value(None) => Path::Done(Ok(()), n + 1),
                Heard::Value(Some(p)) => match flow::heard_done(log, n + 1) {
                    Heard::Pending => Path::Do(
                        Act::Say { channel: m.channel_id@, text: matrix::waiting_text(p) },
                    ),
                    Heard::Failed(e) => Path::Done(Err(e), n + 2),
                    Heard::Value(_) => Path::Done(Ok(()), n + 2),
                },
            },
            Delivery::Normal => if !flow::tried(log, n) {
                Path::Do(Act::Enqueue { thread: m.channel_id@, message, wait: false })
            } else {
                Path::Done(Ok(()), n + 1)
            },
        },
    }
}

fn handle_thread_message(m: &ChatMessage, parent: &Option<String>, log: &Vec<Reply>, i: usize) -> (r:
    Flow<Result<(), String>>)
    ensures
        flow::at_unit(r) == in_thread(
            *m,
            text::opt_view(*parent),
            flow::answers(log@),
            i as int,
        ),
{
    let thread = m.channel_id.as_str();
    let parsed = delivery::parse_message(m.content.as_str());
    let (directory, n) = match matrix::reach_runtime(thread, log, i) {
        Flow::Do(e) => return Flow::Do(e),
        Flow::Done(Err(e), n) => return Flow::Done(Err(e), n),
        Flow::Done(Ok(d), n) => (d, n),
    };
    match parsed.delivery {
        Delivery::Btw => {
            let parent_channel = match parent {
                Some(p) => p.clone(),
                None => return Flow::Done(Err("thread has no parent channel".to_owned()), n),
            };
            let req = BtwRequest {
                source_thread: m.channel_id.clone(),
                parent_channel,
                directory,
                prompt: parsed.prompt,
                user_id: m.author_id.clone(),
                username: m.author_name.clone(),
            };
            match commands::fork_btw(Wording::Discord, &req, log, n) {
                Flow::Do(e) => Flow::Do(e),
                Flow::Done(Err(e), k) => Flow::Done(Err(e), k),
                Flow::Done(Ok(_), k) => Flow::Done(Ok(()), k),
            }
        },
        Delivery::Queue => {
            let message = flow::plain_message(
                parsed.prompt,
                m.author_name.as_str(),
                Some(m.message_id.clone()),
            );
            let position: usize = match flow::got_position(log, n) {
                Got::Pending => return Flow::Do(
                    Effect::Enqueue { thread: thread.to_owned(), message, wait: true },
                ),
                Got::Failed(e) => return Flow::Done(Err(e), n + 1),
                Got::Value(None) => return Flow::Done(Ok(()), n + 1),
                Got::Value(Some(p)) => p,
            };
            match flow::got_done(log, n + 1) {
                Got::Pending => Flow::Do(
                    Effect::Say {
                        channel: thread.to_owned(),
                        text: matrix::waiting_reply(position),
                    },
                ),
                Got::Failed(e) => Flow::Done(Err(e), n + 2),
                Got::Value(_) => Flow::Done(Ok(()), n + 2),
            }
        },
        Delivery::Normal => {
            if !flow::was_tried(log, n) {
                let message = flow::plain_message(
                    parsed.prompt,
                    m.author_name.as_str(),
                    Some(m.message_id.clone()),
                );
                return Flow::Do(
                    Effect::Enqueue { thread: thread.to_owned(), message, wait: false },
                );
            }
            Flow::Done(Ok(()), n + 1)
        },
    }
}

/// A message: in a thread it belongs to its session, in a channel it may start one.
pub open spec fn receiving(m: ChatMessage, log: Seq<Answer>) -> Path<Result<(), Seq<char>>> {
    match guild_channel(log, 0) {
        Heard::Pending => Path::Do(Act::FetchChannel { channel: m.channel_id@ }),
        Heard::Failed(e) => Path::Done(Err(e), 1),
        Heard::Value(c) => if c.is_thread {
            in_thread(m, c.parent, log, 1)
        } else {
            in_channel(m, log, 1)
        },
    }
}

pub fn handle_message(m: &ChatMessage, log: &Vec<Reply>) -> (r: Flow<Result<(), String>>)
    ensures
        flow::at_unit(r) == receiving(*m, flow::answers(log@)),
{
    match got_guild_channel(log, 0) {
        Got::Pending => Flow::Do(Effect::FetchChannel { channel: m.channel_id.clone() }),
        Got::Failed(e) => Flow::Done(Err(e), 1),
        Got::Value(c) => if c.is_thread {
            handle_thread_message(m, &c.parent, log, 1)
        } else {
            handle_channel_message(m, log, 1)
        },
    }
}

/// Whether a message is looked at: one of a person, with text in it, from someone who
/// is listened to.
pub fn is_relevant(is_bot: bool, content: &str, allowed: bool) -> (r: bool)
    ensures
        r == (!is_bot && text::trim(content@).len() > 0 && allowed),
{
    !is_bot && !text::trimmed(content).as_str().is_empty() && allowed
}

// ---- edits ----

/// An edit in a thread: the queued entry is updated or dropped. An edit in a channel,
/// or in a thread without a directory, is ignored.
pub open spec fn editing(
    channel: Seq<char>,
    message: Seq<char>,
    username: Seq<char>,
    content: Seq<char>,
    log: Seq<Answer>,
) -> Path<Result<(), Seq<char>>> {
    match guild_channel(log, 0) {
        Heard::Pending => Path::Do(Act::FetchChannel { channel }),
        Heard::Failed(e) => Path::Done(Err(e), 1),
        Heard::Value(c) => if !c.is_thread {
            Path::Done(Ok(()), 1)
        } else {
            match task_runner::resolving(channel, log, 1) {
                Path::Do(a) => Path::Do(a),
                Path::Done(Err(_), n) => Path::Done(Ok(()), n),
                Path::Done(Ok(directory), n) => match flow::heard_done(log, n) {
                    Heard::Pending => Path::Do(Act::OpenRuntime { thread: channel, directory }),
                    Heard::Failed(e) => Path::Done(Err(e), n + 1),
                    Heard::Value(_) => match flow::heard_edited(log, n + 1) {
                        Heard::Pending => Path::Do(
                            Act::EditQueued { thread: channel, source: message, content },
                        ),
                        Heard::Failed(e) => Path::Done(Err(e), n + 2),
                        Heard::Value(outcome) => if outcome == QueueEditOutcome::NotFound {
                            Path::Done(Ok(()), n + 2)
                        } else {
                            match flow::heard_done(log, n + 2) {
                                Heard::Pending => Path::Do(
                                    Act::Say {
                                        channel,
                                        text: matrix::edit_text(username, outcome),
                                    },
                                ),
                                Heard::Failed(e) => Path::Done(Err(e), n + 3),
                                Heard::Value(_) => Path::Done(Ok(()), n + 3),
                            }
                        },
                    },
                },
            }
        },
    }
}

pub fn handle_message_edit(
    channel_id: &str,
    message_id: &str,
    username: &str,
    new_content: &str,
    log: &Vec<Reply>,
) -> (r: Flow<Result<(), String>>)
    ensures
        flow::at_unit(r) == editing(
            channel_id@,
            message_id@,
            username@,
            new_content@,
            flow::answers(log@),
        ),
{
    match got_guild_channel(log, 0) {
        Got::Pending => return Flow::Do(Effect::FetchChannel { channel: channel_id.to_owned() }),
        Got::Failed(e) => return Flow::Done(Err(e), 1),
        Got::Value(c) => {
            if !c.is_thread {
                return Flow::Done(Ok(()), 1);
            }
        },
    }
    let (directory, n) = match task_runner::resolve_thread_directory(channel_id, log, 1) {
        Flow::Do(e) => return Flow::Do(e),
        Flow::Done(Err(_), n) => return Flow::Done(Ok(()), n),
        Flow::Done(Ok(d), n) => (d, n),
    };
    match flow::got_done(log, n) {
        Got::Pending => return Flow::Do(
            Effect::OpenRuntime { thread: channel_id.to_owned(), directory },
        ),
        Got::Failed(e) => return Flow::Done(Err(e), n + 1),
        Got::Value(_) => {},
    }
    let outcome = match flow::got_edited(log, n + 1) {
        Got::Pending => return Flow::Do(
            Effect::EditQueued {
                thread: channel_id.to_owned(),
                source: message_id.to_owned(),
                content: new_content.to_owned(),
            },
        ),
        Got::Failed(e) => return Flow::Done(Err(e), n + 2),
        Got::Value(o) => o,
    };
    if outcome == QueueEditOutcome::NotFound {
        return Flow::Done(Ok(()), n + 2);
    }
    match flow::got_done(log, n + 2) {
        Got::Pending => Flow::Do(
            Effect::Say {
                channel: channel_id.to_owned(),
                text: matrix::edit_notice(username, outcome),
            },
        ),
        Got::Failed(e) => Flow::Done(Err(e), n + 3),
        Got::Value(_) => Flow::Done(Ok(()), n + 3),
    }
}

// ---- posts ----

/// The id of a post is that of its last part; a post without parts is refused.
pub fn post_result(sent: &Vec<String>) -> (r: Result<String, String>)
    ensures
        match r {
            Ok(id) => sent@.len() > 0 && id@ == sent@.last()@,
            Err(e) => sent@.len() == 0 && e@ == "empty message"@,
        },
{
    if sent.len() == 0 {
        Err("empty message".to_owned())
    } else {
        Ok(sent[sent.len() - 1].clone())
    }
}

} // verus!
