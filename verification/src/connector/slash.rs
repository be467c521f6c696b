//! What the slash commands do.

use crate::application::commands;
use crate::application::commands::{Btw, BtwRequest};
use crate::application::flow;
use crate::application::flow::{Act, Answer, Channel, ChannelInfo, Effect, Flow, Got, Heard, Path, Reply, Wording};
use crate::application::task_runner;
use crate::connector::discord;
use crate::connector::git;
use crate::connector::matrix;
use crate::domain::worktree::{Merge, MergeOutcome};
use crate::paths;
use crate::text;
use vstd::prelude::*;
use vstd::string::*;

verus! {

/// The value given for an option.
#[derive(Debug)]
pub enum OptionValue {
    Text(String),
    Integer(i64),
    /// A value of a kind that no command asks for.
    Other,
}

/// An option as it was given.
#[derive(Debug)]
pub struct GivenOption {
    pub name: String,
    pub value: OptionValue,
}

/// A slash command as it was sent.
#[derive(Debug)]
pub struct SlashCommand {
    pub name: String,
    pub options: Vec<GivenOption>,
    pub channel_id: String,
    pub user_id: String,
    pub username: String,
}

// ---- options ----

/// The text of the first text option called `name`, from `i` on.
pub open spec fn text_option(options: Seq<GivenOption>, name: Seq<char>, i: int) -> Option<Seq<char>>
    decreases options.len() - i,
{
    if i >= options.len() {
        None
    } else if options[i].name@ == name && options[i].value is Text {
        Some(options[i].value->Text_0@)
    } else {
        text_option(options, name, i + 1)
    }
}

/// The number of the first integer option called `name`, from `i` on.
pub open spec fn integer_option(options: Seq<GivenOption>, name: Seq<char>, i: int) -> Option<i64>
    decreases options.len() - i,
{
    if i >= options.len() {
        None
    } else if options[i].name@ == name && options[i].value is Integer {
        Some(options[i].value->Integer_0)
    } else {
        integer_option(options, name, i + 1)
    }
}

impl SlashCommand {
    pub open spec fn text_of(&self, name: Seq<char>) -> Option<Seq<char>> {
        text_option(self.options@, name, 0)
    }

    pub open spec fn integer_of(&self, name: Seq<char>) -> Option<i64> {
        integer_option(self.options@, name, 0)
    }
}

/// The text option called `name`.
pub fn str_option(cmd: &SlashCommand, name: &str) -> (r: Option<String>)
    ensures
        text::opt_view(r) == cmd.text_of(name@),
{
    let mut i: usize = 0;
    while i < cmd.options.len()
        invariant
            i <= cmd.options@.len(),
            cmd.text_of(name@) == text_option(cmd.options@, name@, i as int),
        decreases cmd.options@.len() - i,
    {
        if let OptionValue::Text(s) = &cmd.options[i].value {
            if text::same_text(cmd.options[i].name.as_str(), name) {
                return Some(s.clone());
            }
        }
        i = i + 1;
    }
    None
}

/// The integer option called `name`.
pub fn int_option(cmd: &SlashCommand, name: &str) -> (r: Option<i64>)
    ensures
        r == cmd.integer_of(name@),
{
    let mut i: usize = 0;
    while i < cmd.options.len()
        invariant
            i <= cmd.options@.len(),
            cmd.integer_of(name@) == integer_option(cmd.options@, name@, i as int),
        decreases cmd.options@.len() - i,
    {
        if let OptionValue::Integer(n) = &cmd.options[i].value {
            if text::same_text(cmd.options[i].name.as_str(), name) {
                return Some(*n);
            }
        }
        i = i + 1;
    }
    None
}

// ---- answers ----

/// The result of a flow, as the answer to the command.
pub open spec fn responding(p: Path<Result<Seq<char>, Seq<char>>>, log: Seq<Answer>) -> Path<
    Result<(), Seq<char>>,
> {
    match p {
        Path::Do(a) => Path::Do(a),
        Path::Done(Err(e), n) => Path::Done(Err(e), n),
        Path::Done(Ok(text), n) => match flow::heard_done(log, n) {
            Heard::Pending => Path::Do(Act::Respond { text }),
            Heard::Failed(e) => Path::Done(Err(e), n + 1),
            Heard::Value(_) => Path::Done(Ok(()), n + 1),
        },
    }
}

fn respond(f: Flow<Result<String, String>>, log: &Vec<Reply>) -> (r: Flow<Result<(), String>>)
    ensures
        flow::at_unit(r) == responding(flow::at_text(f), flow::answers(log@)),
{
    match f {
        Flow::Do(e) => Flow::Do(e),
        Flow::Done(Err(e), n) => Flow::Done(Err(e), n),
        Flow::Done(Ok(text), n) => match flow::got_done(log, n) {
            Got::Pending => Flow::Do(Effect::Respond { text }),
            Got::Failed(e) => Flow::Done(Err(e), n + 1),
            Got::Value(_) => Flow::Done(Ok(()), n + 1),
        },
    }
}

/// The result of a flow, as the later answer to the command.
pub open spec fn following_up(p: Path<Result<Seq<char>, Seq<char>>>, log: Seq<Answer>) -> Path<
    Result<(), Seq<char>>,
> {
    match p {
        Path::Do(a) => Path::Do(a),
        Path::Done(Err(e), n) => Path::Done(Err(e), n),
        Path::Done(Ok(text), n) => match flow::heard_done(log, n) {
            Heard::Pending => Path::Do(Act::Followup { text }),
            Heard::Failed(e) => Path::Done(Err(e), n + 1),
            Heard::Value(_) => Path::Done(Ok(()), n + 1),
        },
    }
}

fn followup(f: Flow<Result<String, String>>, log: &Vec<Reply>) -> (r: Flow<Result<(), String>>)
    ensures
        flow::at_unit(r) == following_up(flow::at_text(f), flow::answers(log@)),
{
    match f {
        Flow::Do(e) => Flow::Do(e),
        Flow::Done(Err(e), n) => Flow::Done(Err(e), n),
        Flow::Done(Ok(text), n) => match flow::got_done(log, n) {
            Got::Pending => Flow::Do(Effect::Followup { text }),
            Got::Failed(e) => Flow::Done(Err(e), n + 1),
            Got::Value(_) => Flow::Done(Ok(()), n + 1),
        },
    }
}

// ---- add-project ----

pub open spec fn topic_text(directory: Seq<char>) -> Seq<char> {
    "<lily><directory>"@ + directory + "</directory></lily>"@
}

/// Links the channel, in storage and visibly in its topic.
pub open spec fn link_here(channel: Seq<char>, directory: Seq<char>, log: Seq<Answer>, i: int) -> Path<
    Result<(), Seq<char>>,
> {
    match discord::guild_channel(log, i) {
        Heard::Pending => Path::Do(Act::FetchChannel { channel }),
        Heard::Failed(e) => Path::Done(Err(e), i + 1),
        Heard::Value(c) => if c.is_thread {
            Path::Done(Err("run /add-project in a channel, not a thread"@), i + 1)
        } else {
            match flow::heard_done(log, i + 1) {
                Heard::Pending => Path::Do(Act::SetChannelDirectory { channel, directory }),
                Heard::Failed(e) => Path::Done(Err(e), i + 2),
                Heard::Value(_) => if !flow::tried(log, i + 2) {
                    Path::Do(Act::SetTopic { channel, topic: topic_text(directory) })
                } else {
                    responding(
                        Path::Done(Ok(commands::linked_text(directory)), i + 3),
                        log,
                    )
                },
            }
        },
    }
}

/// `/add-project`.
pub open spec fn adding_project(c: SlashCommand, log: Seq<Answer>) -> Path<
    Result<(), Seq<char>>,
> {
    match c.text_of("directory"@) {
        None => Path::Done(Err("directory is required"@), 0),
        Some(directory) => if !paths::is_absolute(directory) {
            Path::Done(Err(commands::not_a_directory(directory)), 0)
        } else {
            match flow::heard_flag(log, 0) {
                Heard::Pending => Path::Do(Act::IsDirectory { path: directory }),
                Heard::Failed(e) => Path::Done(Err(e), 1),
                Heard::Value(false) => Path::Done(
                    Err(commands::not_a_directory(directory)),
                    1,
                ),
                Heard::Value(true) => link_here(c.channel_id@, directory, log, 1),
            }
        },
    }
}

fn cmd_add_project(c: &SlashCommand, log: &Vec<Reply>) -> (r: Flow<Result<(), String>>)
    ensures
        flow::at_unit(r) == adding_project(*c, flow::answers(log@)),
{
    let directory = match str_option(c, "directory") {
        None => return Flow::Done(Err("directory is required".to_owned()), 0),
        Some(d) => d,
    };
    if !paths::absolute(directory.as_str()) {
        return Flow::Done(Err(commands::refuse_directory(directory.as_str())), 0);
    }
    match flow::got_flag(log, 0) {
        Got::Pending => return Flow::Do(Effect::IsDirectory { path: directory }),
        Got::Failed(e) => return Flow::Done(Err(e), 1),
        Got::Value(exists) => {
            if !exists {
                return Flow::Done(Err(commands::refuse_directory(directory.as_str())), 1);
            }
        },
    }
    match discord::got_guild_channel(log, 1) {
        Got::Pending => return Flow::Do(Effect::FetchChannel { channel: c.channel_id.clone() }),
        Got::Failed(e) => return Flow::Done(Err(e), 2),
        Got::Value(info) => {
            if info.is_thread {
                return Flow::Done(
                    Err("run /add-project in a channel, not a thread".to_owned()),
                    2,
                );
            }
        },
    }
    match flow::got_done(log, 2) {
        Got::Pending => return Flow::Do(
            Effect::SetChannelDirectory { channel: c.channel_id.clone(), directory },
        ),
        Got::Failed(e) => return Flow::Done(Err(e), 3),
        Got::Value(_) => {},
    }
    // Mirror the mapping in the channel topic so it is visible in Discord.
    if !flow::was_tried(log, 3) {
        let topic = "<lily><directory>".to_owned().concat(directory.as_str()).concat(
            "</directory></lily>",
        );
        return Flow::Do(Effect::SetTopic { channel: c.channel_id.clone(), topic });
    }
    respond(Flow::Done(Ok(commands::linked_reply(directory.as_str())), 4), log)
}

// ---- the queue ----

/// The channel of a command, where it is a session thread.
pub open spec fn session_thread(log: Seq<Answer>) -> Heard<Channel> {
    match discord::guild_channel(log, 0) {
        Heard::Value(c) => if c.is_thread {
            Heard::Value(c)
        } else {
            Heard::Failed("this command only works inside a session thread"@)
        },
        h => h,
    }
}

fn got_session_thread(log: &Vec<Reply>) -> (r: Got<&ChannelInfo>)
    ensures
        flow::is_heard(
            r,
            session_thread(flow::answers(log@)),
            |t: &ChannelInfo, v: Channel| t@ == v,
            log@,
            0,
        ),
{
    match discord::got_guild_channel(log, 0) {
        Got::Value(c) => if c.is_thread {
            Got::Value(c)
        } else {
            Got::Failed("this command only works inside a session thread".to_owned())
        },
        g => g,
    }
}

/// `/queue`.
pub open spec fn queueing(c: SlashCommand, log: Seq<Answer>) -> Path<Result<(), Seq<char>>> {
    match c.text_of("message"@) {
        None => Path::Done(Err("message is required"@), 0),
        Some(message) => match session_thread(log) {
            Heard::Pending => Path::Do(Act::FetchChannel { channel: c.channel_id@ }),
            Heard::Failed(e) => Path::Done(Err(e), 1),
            Heard::Value(_) => responding(
                matrix::queueing(c.channel_id@, message, c.username@, log, 1),
                log,
            ),
        },
    }
}

fn cmd_queue(c: &SlashCommand, log: &Vec<Reply>) -> (r: Flow<Result<(), String>>)
    ensures
        flow::at_unit(r) == queueing(*c, flow::answers(log@)),
{
    let message = match str_option(c, "message") {
        None => return Flow::Done(Err("message is required".to_owned()), 0),
        Some(m) => m,
    };
    match got_session_thread(log) {
        Got::Pending => Flow::Do(Effect::FetchChannel { channel: c.channel_id.clone() }),
        Got::Failed(e) => Flow::Done(Err(e), 1),
        Got::Value(_) => respond(
            matrix::queue_in_thread(
                c.channel_id.as_str(),
                message.as_str(),
                c.username.as_str(),
                log,
                1,
            ),
            log,
        ),
    }
}

/// The position that `/clear-queue` is given. A negative one counts as 0, which no
/// entry has.
pub open spec fn position_of(given: Option<i64>) -> Option<usize> {
    match given {
        None => None,
        Some(n) => Some(
            if n < 0 {
                0
            } else {
                n as usize
            },
        ),
    }
}

/// `/clear-queue`.
pub open spec fn clearing(c: SlashCommand, log: Seq<Answer>) -> Path<Result<(), Seq<char>>> {
    match session_thread(log) {
        Heard::Pending => Path::Do(Act::FetchChannel { channel: c.channel_id@ }),
        Heard::Failed(e) => Path::Done(Err(e), 1),
        Heard::Value(_) => responding(
            matrix::clearing(c.channel_id@, position_of(c.integer_of("position"@)), log, 1),
            log,
        ),
    }
}

fn cmd_clear_queue(c: &SlashCommand, log: &Vec<Reply>) -> (r: Flow<Result<(), String>>)
    ensures
        flow::at_unit(r) == clearing(*c, flow::answers(log@)),
{
    let position: Option<usize> = match int_option(c, "position") {
        None => None,
        Some(n) => if n < 0 {
            Some(0)
        } else {
            Some(n as usize)
        },
    };
    match got_session_thread(log) {
        Got::Pending => Flow::Do(Effect::FetchChannel { channel: c.channel_id.clone() }),
        Got::Failed(e) => Flow::Done(Err(e), 1),
        Got::Value(_) => respond(
            matrix::clear_in_thread(c.channel_id.as_str(), position, log, 1),
            log,
        ),
    }
}

// ---- side questions ----

pub open spec fn forked_text(thread: Seq<char>) -> Seq<char> {
    "Session forked! Continue in <#"@ + thread + ">"@
}

/// The fork behind `/btw`, from the announcement of its answer on.
pub open spec fn fork_announced(req: Btw, log: Seq<Answer>, i: int) -> Path<
    Result<(), Seq<char>>,
> {
    match flow::heard_done(log, i) {
        Heard::Pending => Path::Do(Act::Defer),
        Heard::Failed(e) => Path::Done(Err(e), i + 1),
        Heard::Value(_) => match commands::forking(Wording::Discord, req, log, i + 1) {
            Path::Done(Ok(thread), n) => following_up(
                Path::Done(Ok(forked_text(thread)), n),
                log,
            ),
            p => following_up(p, log),
        },
    }
}

/// `/btw`.
pub open spec fn asking_aside(c: SlashCommand, log: Seq<Answer>) -> Path<Result<(), Seq<char>>> {
    match c.text_of("prompt"@) {
        None => Path::Done(Err("prompt is required"@), 0),
        Some(prompt) => match discord::guild_channel(log, 0) {
            Heard::Pending => Path::Do(Act::FetchChannel { channel: c.channel_id@ }),
            Heard::Failed(e) => Path::Done(Err(e), 1),
            Heard::Value(here) => if !here.is_thread {
                Path::Done(Err("/btw only works inside a session thread"@), 1)
            } else {
                match here.parent {
                    None => Path::Done(Err("thread has no parent channel"@), 1),
                    Some(parent) => match task_runner::resolving(c.channel_id@, log, 1) {
                        Path::Do(a) => Path::Do(a),
                        Path::Done(Err(e), n) => Path::Done(Err(e), n),
                        Path::Done(Ok(directory), n) => fork_announced(
                            Btw {
                                source: c.channel_id@,
                                parent,
                                directory,
                                prompt,
                                user: c.user_id@,
                                username: c.username@,
                            },
                            log,
                            n,
                        ),
                    },
                }
            },
        },
    }
}

fn fork_and_tell(req: &BtwRequest, log: &Vec<Reply>, i: usize) -> (r: Flow<Result<(), String>>)
    ensures
        flow::at_unit(r) == fork_announced(req@, flow::answers(log@), i as int),
{
    match flow::got_done(log, i) {
        Got::Pending => return Flow::Do(Effect::Defer),
        Got::Failed(e) => return Flow::Done(Err(e), i + 1),
        Got::Value(_) => {},
    }
    match commands::fork_btw(Wording::Discord, req, log, i + 1) {
        Flow::Done(Ok(thread), n) => {
            let text = "Session forked! Continue in <#".to_owned().concat(thread.as_str()).concat(
                ">",
            );
            followup(Flow::Done(Ok(text), n), log)
        },
        f => followup(f, log),
    }
}

fn cmd_btw(c: &SlashCommand, log: &Vec<Reply>) -> (r: Flow<Result<(), String>>)
    ensures
        flow::at_unit(r) == asking_aside(*c, flow::answers(log@)),
{
    let prompt = match str_option(c, "prompt") {
        None => return Flow::Done(Err("prompt is required".to_owned()), 0),
        Some(p) => p,
    };
    let here = match discord::got_guild_channel(log, 0) {
        Got::Pending => return Flow::Do(Effect::FetchChannel { channel: c.channel_id.clone() }),
        Got::Failed(e) => return Flow::Done(Err(e), 1),
        Got::Value(here) => here,
    };
    if !here.is_thread {
        return Flow::Done(Err("/btw only works inside a session thread".to_owned()), 1);
    }
    let parent_channel = match &here.parent {
        None => return Flow::Done(Err("thread has no parent channel".to_owned()), 1),
        Some(p) => p.clone(),
    };
    let (directory, n) = match task_runner::resolve_thread_directory(
        c.channel_id.as_str(),
        log,
        1,
    ) {
        Flow::Do(e) => return Flow::Do(e),
        Flow::Done(Err(e), n) => return Flow::Done(Err(e), n),
        Flow::Done(Ok(d), n) => (d, n),
    };
    let req = BtwRequest {
        source_thread: c.channel_id.clone(),
        parent_channel,
        directory,
        prompt,
        user_id: c.user_id.clone(),
        username: c.username.clone(),
    };
    fork_and_tell(&req, log, n)
}

// ---- worktrees ----

/// A flow whose answer was already sent on the way.
pub open spec fn answered(p: Path<Result<Seq<char>, Seq<char>>>) -> Path<Result<(), Seq<char>>> {
    match p {
        Path::Do(a) => Path::Do(a),
        Path::Done(Err(e), n) => Path::Done(Err(e), n),
        Path::Done(Ok(_), n) => Path::Done(Ok(()), n),
    }
}

fn close(f: Flow<Result<String, String>>) -> (r: Flow<Result<(), String>>)
    ensures
        flow::at_unit(r) == answered(flow::at_text(f)),
{
    match f {
        Flow::Do(e) => Flow::Do(e),
        Flow::Done(Err(e), n) => Flow::Done(Err(e), n),
        Flow::Done(Ok(_), n) => Flow::Done(Ok(()), n),
    }
}

/// `/new-worktree`.
pub open spec fn adding_worktree(c: SlashCommand, data_dir: Seq<char>, log: Seq<Answer>) -> Path<
    Result<(), Seq<char>>,
> {
    let name = c.text_of("name"@);
    let base = c.text_of("base-branch"@);
    match discord::guild_channel(log, 0) {
        Heard::Pending => Path::Do(Act::FetchChannel { channel: c.channel_id@ }),
        Heard::Failed(e) => Path::Done(Err(e), 1),
        Heard::Value(here) => if !here.is_thread {
            answered(
                commands::for_channel(
                    Wording::Discord,
                    data_dir,
                    c.channel_id@,
                    c.user_id@,
                    name,
                    base,
                    log,
                    1,
                ),
            )
        } else {
            match here.parent {
                None => Path::Done(Err("thread has no parent channel"@), 1),
                Some(parent) => answered(
                    commands::for_thread(
                        Wording::Discord,
                        data_dir,
                        c.channel_id@,
                        here.name,
                        parent,
                        name,
                        base,
                        log,
                        1,
                    ),
                ),
            }
        },
    }
}

fn cmd_new_worktree(c: &SlashCommand, data_dir: &str, log: &Vec<Reply>) -> (r: Flow<
    Result<(), String>,
>)
    ensures
        flow::at_unit(r) == adding_worktree(*c, data_dir@, flow::answers(log@)),
{
    let here = match discord::got_guild_channel(log, 0) {
        Got::Pending => return Flow::Do(Effect::FetchChannel { channel: c.channel_id.clone() }),
        Got::Failed(e) => return Flow::Done(Err(e), 1),
        Got::Value(here) => here,
    };
    let name = str_option(c, "name");
    let base = str_option(c, "base-branch");
    if !here.is_thread {
        return close(
            commands::worktree_for_channel(
                Wording::Discord,
                data_dir,
                c.channel_id.as_str(),
                c.user_id.as_str(),
                &name,
                &base,
                log,
                1,
            ),
        );
    }
    match &here.parent {
        None => Flow::Done(Err("thread has no parent channel".to_owned()), 1),
        Some(parent) => close(
            commands::worktree_for_thread(
                Wording::Discord,
                data_dir,
                c.channel_id.as_str(),
                here.name.as_str(),
                parent.as_str(),
                &name,
                &base,
                log,
                1,
            ),
        ),
    }
}

/// What follows from the outcome of a merge: the answer comes last, except that a
/// conflict is told before the agent is asked.
pub open spec fn merge_told(
    thread: Seq<char>,
    title: Seq<char>,
    project: Seq<char>,
    outcome: Merge,
    log: Seq<Answer>,
    i: int,
) -> Path<Result<(), Seq<char>>> {
    match outcome {
        Merge::Success { target, branch, commits, sha, warning } => following_up(
            commands::merge_landed(
                thread,
                title,
                project,
                commands::merged_text(target, branch, commits, sha, warning),
                log,
                i,
            ),
            log,
        ),
        Merge::RebaseConflict(target) => {
            let text = commands::conflict_text(Wording::Discord, target);
            match following_up(Path::Done(Ok(text), i), log) {
                Path::Done(Ok(_), n) => answered(
                    commands::merge_stopped(thread, target, text, log, n),
                ),
                p => p,
            }
        },
        other => following_up(Path::Done(Ok(commands::refusal_text(other)), i), log),
    }
}

/// `/merge-worktree`, once the thread is known.
pub open spec fn merging_in(
    thread: Seq<char>,
    title: Seq<char>,
    target: Option<Seq<char>>,
    log: Seq<Answer>,
    i: int,
) -> Path<Result<(), Seq<char>>> {
    match commands::planning(Wording::Discord, thread, target, log, i) {
        Path::Do(a) => Path::Do(a),
        Path::Done(Err(e), n) => Path::Done(Err(e), n),
        Path::Done(Ok(plan), n) => match flow::heard_done(log, n) {
            Heard::Pending => Path::Do(Act::Defer),
            Heard::Failed(e) => Path::Done(Err(e), n + 1),
            Heard::Value(_) => {
                let job = git::job_of(plan.directory, plan.project, plan.slug, plan.target);
                match git::merging(job, log, n + 1) {
                    Path::Do(a) => Path::Do(a),
                    Path::Done(Err(e), m) => Path::Done(Err(e), m),
                    Path::Done(Ok(outcome), m) => merge_told(
                        thread,
                        title,
                        plan.project,
                        outcome,
                        log,
                        m,
                    ),
                }
            },
        },
    }
}

/// `/merge-worktree`.
pub open spec fn merging(c: SlashCommand, log: Seq<Answer>) -> Path<Result<(), Seq<char>>> {
    match discord::guild_channel(log, 0) {
        Heard::Pending => Path::Do(Act::FetchChannel { channel: c.channel_id@ }),
        Heard::Failed(e) => Path::Done(Err(e), 1),
        Heard::Value(here) => if !here.is_thread {
            Path::Done(Err("/merge-worktree only works inside a worktree thread"@), 1)
        } else {
            merging_in(c.channel_id@, here.name, c.text_of("target-branch"@), log, 1)
        },
    }
}

fn tell_merge(
    thread: &str,
    title: &str,
    project: &str,
    outcome: MergeOutcome,
    log: &Vec<Reply>,
    i: usize,
) -> (r: Flow<Result<(), String>>)
    ensures
        flow::at_unit(r) == merge_told(
            thread@,
            title@,
            project@,
            outcome@,
            flow::answers(log@),
            i as int,
        ),
{
    match outcome {
        MergeOutcome::Success {
            target_branch,
            branch_name,
            commit_count,
            short_sha,
            cleanup_warning,
        } => {
            let reply = commands::merged_reply(
                target_branch.as_str(),
                branch_name.as_str(),
                commit_count,
                short_sha.as_str(),
                &cleanup_warning,
            );
            followup(commands::land_merge(thread, title, project, reply, log, i), log)
        },
        MergeOutcome::RebaseConflict { target_branch } => {
            let target = target_branch.as_str();
            let reply = commands::conflict_reply(Wording::Discord, target);
            match followup(Flow::Done(Ok(reply.clone()), i), log) {
                Flow::Done(Ok(_), n) => close(
                    commands::ask_to_resolve(thread, target, reply, log, n),
                ),
                f => f,
            }
        },
        other => followup(Flow::Done(Ok(commands::refusal_reply(&other)), i), log),
    }
}

fn cmd_merge_worktree(c: &SlashCommand, log: &Vec<Reply>) -> (r: Flow<Result<(), String>>)
    ensures
        flow::at_unit(r) == merging(*c, flow::answers(log@)),
{
    let here = match discord::got_guild_channel(log, 0) {
        Got::Pending => return Flow::Do(Effect::FetchChannel { channel: c.channel_id.clone() }),
        Got::Failed(e) => return Flow::Done(Err(e), 1),
        Got::Value(here) => here,
    };
    if !here.is_thread {
        return Flow::Done(
            Err("/merge-worktree only works inside a worktree thread".to_owned()),
            1,
        );
    }
    let thread = c.channel_id.as_str();
    let target = str_option(c, "target-branch");
    let (plan, n) = match commands::plan_merge(Wording::Discord, thread, &target, log, 1) {
        Flow::Do(e) => return Flow::Do(e),
        Flow::Done(Err(e), n) => return Flow::Done(Err(e), n),
        Flow::Done(Ok(p), n) => (p, n),
    };
    match flow::got_done(log, n) {
        Got::Pending => return Flow::Do(Effect::Defer),
        Got::Failed(e) => return Flow::Done(Err(e), n + 1),
        Got::Value(_) => {},
    }
    match git::merge_worktree(
        plan.directory.as_str(),
        plan.project.as_str(),
        plan.slug.as_str(),
        plan.target.as_str(),
        log,
        n + 1,
    ) {
        Flow::Do(e) => Flow::Do(e),
        Flow::Done(Err(e), m) => Flow::Done(Err(e), m),
        Flow::Done(Ok(outcome), m) => tell_merge(
            thread,
            here.name.as_str(),
            plan.project.as_str(),
            outcome,
            log,
            m,
        ),
    }
}

/// `/worktrees`.
pub open spec fn listing_worktrees(c: SlashCommand, log: Seq<Answer>) -> Path<
    Result<(), Seq<char>>,
> {
    match discord::guild_channel(log, 0) {
        Heard::Pending => Path::Do(Act::FetchChannel { channel: c.channel_id@ }),
        Heard::Failed(e) => Path::Done(Err(e), 1),
        Heard::Value(here) => if !here.is_thread {
            responding(
                commands::listing_worktrees(Wording::Discord, c.channel_id@, log, 1),
                log,
            )
        } else {
            match here.parent {
                None => Path::Done(Err("thread has no parent"@), 1),
                Some(parent) => responding(
                    commands::listing_worktrees(Wording::Discord, parent, log, 1),
                    log,
                ),
            }
        },
    }
}

fn cmd_worktrees(c: &SlashCommand, log: &Vec<Reply>) -> (r: Flow<Result<(), String>>)
    ensures
        flow::at_unit(r) == listing_worktrees(*c, flow::answers(log@)),
{
    let here = match discord::got_guild_channel(log, 0) {
        Got::Pending => return Flow::Do(Effect::FetchChannel { channel: c.channel_id.clone() }),
        Got::Failed(e) => return Flow::Done(Err(e), 1),
        Got::Value(here) => here,
    };
    let channel = if !here.is_thread {
        c.channel_id.as_str()
    } else {
        match &here.parent {
            None => return Flow::Done(Err("thread has no parent".to_owned()), 1),
            Some(parent) => parent.as_str(),
        }
    };
    respond(commands::worktrees_text(Wording::Discord, channel, log, 1), log)
}

// ---- tasks ----

/// `/cancel-task`.
pub open spec fn cancelling(c: SlashCommand, log: Seq<Answer>) -> Path<Result<(), Seq<char>>> {
    match c.integer_of("id"@) {
        None => Path::Done(Err("id is required"@), 0),
        Some(id) => responding(commands::cancelling(id as int, log, 0), log),
    }
}

fn cmd_cancel_task(c: &SlashCommand, log: &Vec<Reply>) -> (r: Flow<Result<(), String>>)
    ensures
        flow::at_unit(r) == cancelling(*c, flow::answers(log@)),
{
    match int_option(c, "id") {
        None => Flow::Done(Err("id is required".to_owned()), 0),
        Some(id) => respond(commands::cancel_task_text(id, log, 0), log),
    }
}

// ---- all of them ----

/// A slash command, by its name.
pub open spec fn commanding(c: SlashCommand, data_dir: Seq<char>, log: Seq<Answer>) -> Path<
    Result<(), Seq<char>>,
> {
    let name = c.name@;
    if name == "add-project"@ {
        adding_project(c, log)
    } else if name == "queue"@ {
        queueing(c, log)
    } else if name == "clear-queue"@ {
        clearing(c, log)
    } else if name == "btw"@ {
        asking_aside(c, log)
    } else if name == "new-worktree"@ {
        adding_worktree(c, data_dir, log)
    } else if name == "merge-worktree"@ {
        merging(c, log)
    } else if name == "worktrees"@ {
        listing_worktrees(c, log)
    } else if name == "tasks"@ {
        responding(commands::listing_tasks(log, 0), log)
    } else if name == "cancel-task"@ {
        cancelling(c, log)
    } else {
        Path::Done(Err("unknown command: "@ + name), 0)
    }
}

/// Carries out a slash command.
pub fn handle_command(c: &SlashCommand, data_dir: &str, log: &Vec<Reply>) -> (r: Flow<
    Result<(), String>,
>)
    ensures
        flow::at_unit(r) == commanding(*c, data_dir@, flow::answers(log@)),
{
    let name = c.name.as_str();
    if text::same_text(name, "add-project") {
        cmd_add_project(c, log)
    } else if text::same_text(name, "queue") {
        cmd_queue(c, log)
    } else if text::same_text(name, "clear-queue") {
        cmd_clear_queue(c, log)
    } else if text::same_text(name, "btw") {
        cmd_btw(c, log)
    } else if text::same_text(name, "new-worktree") {
        cmd_new_worktree(c, data_dir, log)
    } else if text::same_text(name, "merge-worktree") {
        cmd_merge_worktree(c, log)
    } else if text::same_text(name, "worktrees") {
        cmd_worktrees(c, log)
    } else if text::same_text(name, "tasks") {
        respond(commands::tasks_text(log, 0), log)
    } else if text::same_text(name, "cancel-task") {
        cmd_cancel_task(c, log)
    } else {
        Flow::Done(Err("unknown command: ".to_owned().concat(name)), 0)
    }
}

// ---- laws ----

pub open spec fn unknown_text(name: Seq<char>) -> Seq<char> {
    "unknown command: "@ + name
}

/// Whether a command of that name is registered.
pub open spec fn is_registered(name: Seq<char>) -> bool {
    exists|i: int|
        0 <= i < discord::command_table().len() && #[trigger] discord::command_table()[i].name
            == name
}

/// The registered names are the ones that are told apart.
proof fn lemma_registered(name: Seq<char>)
    ensures
        is_registered(name) <==> (name == "add-project"@ || name == "queue"@ || name
            == "clear-queue"@ || name == "btw"@ || name == "new-worktree"@ || name
            == "merge-worktree"@ || name == "worktrees"@ || name == "tasks"@ || name
            == "cancel-task"@),
{
    let table = discord::command_table();
    assert(table[0].name == "add-project"@ && table[1].name == "queue"@);
    assert(table[2].name == "clear-queue"@ && table[3].name == "btw"@);
    assert(table[4].name == "new-worktree"@ && table[5].name == "merge-worktree"@);
    assert(table[6].name == "worktrees"@ && table[7].name == "tasks"@);
    assert(table[8].name == "cancel-task"@ && table.len() == 9);
}

/// A command is called unknown exactly where it is not registered.
pub proof fn law_registered_commands_are_known(c: SlashCommand, data_dir: Seq<char>)
    ensures
        is_registered(c.name@) <==> commanding(c, data_dir, Seq::empty()) != Path::<
            Result<(), Seq<char>>,
        >::Done(Err(unknown_text(c.name@)), 0),
{
    let name = c.name@;
    lemma_registered(name);
    reveal_strlit("unknown command: ");
    reveal_strlit("directory is required");
    reveal_strlit("`");
    reveal_strlit("message is required");
    reveal_strlit("prompt is required");
    reveal_strlit("id is required");
    assert(unknown_text(name)[0] == 'u');
    assert("directory is required"@[0] == 'd' && "message is required"@[0] == 'm');
    assert("prompt is required"@[0] == 'p' && "id is required"@[0] == 'i');
    if let Some(directory) = c.text_of("directory"@) {
        assert(commands::not_a_directory(directory)[0] == '`');
    }
}

/// A merge that stops on conflicts is answered before the agent is asked to resolve
/// them.
pub proof fn law_conflict_is_told_first(
    thread: Seq<char>,
    title: Seq<char>,
    project: Seq<char>,
    target: Seq<char>,
    log: Seq<Answer>,
    i: int,
)
    ensures
        flow::heard_done(log, i) is Pending ==> merge_told(
            thread,
            title,
            project,
            Merge::RebaseConflict(target),
            log,
            i,
        ) == Path::<Result<(), Seq<char>>>::Do(
            Act::Followup { text: commands::conflict_text(Wording::Discord, target) },
        ),
        merge_told(thread, title, project, Merge::RebaseConflict(target), log, i) matches Path::Do(
            Act::Enqueue { .. },
        ) ==> flow::heard_done(log, i) is Value,
{
}

} // verus!
