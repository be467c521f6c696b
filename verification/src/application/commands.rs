//! Command flows shared by every chat connector: project linking, btw forks, the
//! worktree lifecycle, and task management. Each connector only parses its native
//! command format (slash commands, `!text` commands) and delegates here.

use crate::application::flow;
use crate::application::flow::{Act, Answer, Build, Effect, Flow, Got, Heard, Path, Reply, Wording, WorktreeBuild};
use crate::application::task_runner;
use crate::connector::git;
use crate::domain::rendering;
use crate::domain::task;
use crate::domain::task::ScheduledTask;
use crate::domain::worktree;
use crate::domain::worktree::{Assignment, Merge, MergeOutcome, ThreadWorktree};
use crate::numbers;
use crate::paths;
use crate::text;
use vstd::prelude::*;
use vstd::string::*;

verus! {

// ---- projects ----

pub open spec fn not_a_directory(directory: Seq<char>) -> Seq<char> {
    "`"@ + directory
        + "` is not an absolute path to an existing directory on the bot's machine"@
}

pub open spec fn linked_text(directory: Seq<char>) -> Seq<char> {
    "Linked this channel to `"@ + directory + "`. Send a message to start a session."@
}

/// Linking a channel to a directory that exists.
pub open spec fn linking(channel: Seq<char>, directory: Seq<char>, log: Seq<Answer>, i: int) -> Path<
    Result<Seq<char>, Seq<char>>,
> {
    if !paths::is_absolute(directory) {
        Path::Done(Err(not_a_directory(directory)), i)
    } else {
        match flow::heard_flag(log, i) {
            Heard::Pending => Path::Do(Act::IsDirectory { path: directory }),
            Heard::Failed(e) => Path::Done(Err(e), i + 1),
            Heard::Value(false) => Path::Done(Err(not_a_directory(directory)), i + 1),
            Heard::Value(true) => match flow::heard_done(log, i + 1) {
                Heard::Pending => Path::Do(Act::SetChannelDirectory { channel, directory }),
                Heard::Failed(e) => Path::Done(Err(e), i + 2),
                Heard::Value(_) => Path::Done(Ok(linked_text(directory)), i + 2),
            },
        }
    }
}

/// What a path that cannot be linked is answered.
pub fn refuse_directory(directory: &str) -> (r: String)
    ensures
        r@ == not_a_directory(directory@),
{
    "`".to_owned().concat(directory).concat(
        "` is not an absolute path to an existing directory on the bot's machine",
    )
}

/// What a linked channel is told.
pub fn linked_reply(directory: &str) -> (r: String)
    ensures
        r@ == linked_text(directory@),
{
    "Linked this channel to `".to_owned().concat(directory).concat(
        "`. Send a message to start a session.",
    )
}

/// Link a channel to a project directory on the host.
pub fn add_project(channel_id: &str, directory: &str, log: &Vec<Reply>, from: usize) -> (r: Flow<
    Result<String, String>,
>)
    ensures
        flow::at_text(r) == linking(
            channel_id@,
            directory@,
            flow::answers(log@),
            from as int,
        ),
        r matches Flow::Done(_, n) ==> n <= log@.len() || n == from,
{
    if !paths::absolute(directory) {
        return Flow::Done(Err(refuse_directory(directory)), from);
    }
    match flow::got_flag(log, from) {
        Got::Pending => return Flow::Do(Effect::IsDirectory { path: directory.to_owned() }),
        Got::Failed(e) => return Flow::Done(Err(e), from + 1),
        Got::Value(exists) => {
            if !exists {
                return Flow::Done(Err(refuse_directory(directory)), from + 1);
            }
        },
    }
    match flow::got_done(log, from + 1) {
        Got::Pending => Flow::Do(
            Effect::SetChannelDirectory {
                channel: channel_id.to_owned(),
                directory: directory.to_owned(),
            },
        ),
        Got::Failed(e) => Flow::Done(Err(e), from + 2),
        Got::Value(_) => Flow::Done(Ok(linked_reply(directory)), from + 2),
    }
}

/// A channel is only ever linked to an absolute path that was found to be a
/// directory.
pub proof fn law_links_are_checked(channel: Seq<char>, directory: Seq<char>, log: Seq<Answer>)
    requires
        linking(channel, directory, log, 0) matches Path::Do(Act::SetChannelDirectory { .. }),
    ensures
        linking(channel, directory, log, 0) == Path::<Result<Seq<char>, Seq<char>>>::Do(
            Act::SetChannelDirectory { channel, directory },
        ),
        paths::is_absolute(directory),
        flow::heard_flag(log, 0) == Heard::Value(true),
{
}

// ---- side questions ----

/// A side question: where it was asked, where its thread goes, and who asked.
#[derive(Debug)]
pub struct BtwRequest {
    pub source_thread: String,
    pub parent_channel: String,
    pub directory: String,
    pub prompt: String,
    pub user_id: String,
    pub username: String,
}

/// The value of a side question.
pub struct Btw {
    pub source: Seq<char>,
    pub parent: Seq<char>,
    pub directory: Seq<char>,
    pub prompt: Seq<char>,
    pub user: Seq<char>,
    pub username: Seq<char>,
}

impl View for BtwRequest {
    type V = Btw;

    open spec fn view(&self) -> Btw {
        Btw {
            source: self.source_thread@,
            parent: self.parent_channel@,
            directory: self.directory@,
            prompt: self.prompt@,
            user: self.user_id@,
            username: self.username@,
        }
    }
}

/// The question as the agent gets it.
pub open spec fn side_prompt(prompt: Seq<char>) -> Seq<char> {
    "The user asked a side question while you were working on another task.\nThis is a forked session whose ONLY goal is to answer this question.\nDo NOT continue, resume, or reference the previous task. Only answer the question below.\n\n"@
        + prompt
}

/// What opens the thread of a side question.
pub open spec fn btw_preamble(w: Wording, source: Seq<char>, prompt: Seq<char>) -> Seq<char> {
    match w {
        Wording::Plain => "Reusing context from the original thread to answer prompt...\n"@
            + prompt,
        Wording::Discord => "Reusing context from <#"@ + source + "> to answer prompt...\n"@
            + prompt,
    }
}

/// Asking the question in its thread.
pub open spec fn btw_asking(req: Btw, thread: Seq<char>, log: Seq<Answer>, i: int) -> Path<
    Result<Seq<char>, Seq<char>>,
> {
    match flow::heard_done(log, i) {
        Heard::Pending => Path::Do(Act::OpenRuntime { thread, directory: req.directory }),
        Heard::Failed(e) => Path::Done(Err(e), i + 1),
        Heard::Value(_) => if !flow::tried(log, i + 1) {
            Path::Do(
                Act::Enqueue {
                    thread,
                    message: flow::unsourced(side_prompt(req.prompt), req.username),
                    wait: false,
                },
            )
        } else {
            Path::Done(Ok(thread), i + 2)
        },
    }
}

/// Opening the thread: the session is recorded and the asker added. On plain
/// platforms a preamble that cannot be sent does not matter: the fork is made and
/// recorded by then.
pub open spec fn btw_opening(
    w: Wording,
    req: Btw,
    forked: Seq<char>,
    thread: Seq<char>,
    log: Seq<Answer>,
    i: int,
) -> Path<Result<Seq<char>, Seq<char>>> {
    let preamble = btw_preamble(w, req.source, req.prompt);
    match flow::heard_done(log, i) {
        Heard::Pending => Path::Do(Act::SetThreadSession { thread, session: forked }),
        Heard::Failed(e) => Path::Done(Err(e), i + 1),
        Heard::Value(_) => if !flow::tried(log, i + 1) {
            Path::Do(Act::AddMember { thread, user: req.user })
        } else {
            match w {
                Wording::Plain => if !flow::tried(log, i + 2) {
                    Path::Do(Act::Send { thread, text: preamble })
                } else {
                    btw_asking(req, thread, log, i + 3)
                },
                Wording::Discord => match flow::heard_done(log, i + 2) {
                    Heard::Pending => Path::Do(Act::Say { channel: thread, text: preamble }),
                    Heard::Failed(e) => Path::Done(Err(e), i + 3),
                    Heard::Value(_) => btw_asking(req, thread, log, i + 3),
                },
            }
        },
    }
}

/// Forking the session's full context into a new `btw:` thread and asking the side
/// question there. The original thread keeps working untouched.
pub open spec fn forking(w: Wording, req: Btw, log: Seq<Answer>, i: int) -> Path<
    Result<Seq<char>, Seq<char>>,
> {
    match flow::heard_maybe(log, i) {
        Heard::Pending => Path::Do(Act::GetThreadSession { thread: req.source }),
        Heard::Failed(e) => Path::Done(Err(e), i + 1),
        Heard::Value(None) => Path::Done(Err("no active session in this thread"@), i + 1),
        Heard::Value(Some(session)) => match flow::heard_text(log, i + 1) {
            Heard::Pending => Path::Do(Act::ForkSession { directory: req.directory, session }),
            Heard::Failed(e) => Path::Done(
                Err(flow::context("failed to fork session"@, e)),
                i + 2,
            ),
            Heard::Value(forked) => match flow::heard_text(log, i + 2) {
                Heard::Pending => Path::Do(
                    Act::CreateThread {
                        channel: req.parent,
                        from: None,
                        name: "btw: "@ + rendering::preview(req.prompt, 90),
                    },
                ),
                Heard::Failed(e) => Path::Done(
                    Err(flow::context("failed to create btw thread"@, e)),
                    i + 3,
                ),
                Heard::Value(thread) => btw_opening(w, req, forked, thread, log, i + 3),
            },
        },
    }
}

/// Fork the session's full context into a new `btw:` thread and dispatch the side
/// question there. Returns the new thread id.
pub fn fork_btw(w: Wording, req: &BtwRequest, log: &Vec<Reply>, from: usize) -> (r: Flow<
    Result<String, String>,
>)
    ensures
        flow::at_text(r) == forking(w, req@, flow::answers(log@), from as int),
        r matches Flow::Done(_, n) ==> n <= log@.len(),
{
    let session = match flow::got_maybe(log, from) {
        Got::Pending => return Flow::Do(
            Effect::GetThreadSession { thread: req.source_thread.clone() },
        ),
        Got::Failed(e) => return Flow::Done(Err(e), from + 1),
        Got::Value(None) => return Flow::Done(
            Err("no active session in this thread".to_owned()),
            from + 1,
        ),
        Got::Value(Some(s)) => s,
    };
    let i: usize = from + 1;
    let forked = match flow::got_text(log, i) {
        Got::Pending => return Flow::Do(
            Effect::ForkSession { directory: req.directory.clone(), session },
        ),
        Got::Failed(e) => return Flow::Done(
            Err(flow::with_context("failed to fork session", e.as_str())),
            i + 1,
        ),
        Got::Value(s) => s,
    };
    let i: usize = i + 1;
    let thread = match flow::got_text(log, i) {
        Got::Pending => {
            let preview = rendering::prompt_preview(req.prompt.as_str(), 90);
            return Flow::Do(
                Effect::CreateThread {
                    channel: req.parent_channel.clone(),
                    from: None,
                    name: "btw: ".to_owned().concat(preview.as_str()),
                },
            );
        },
        Got::Failed(e) => return Flow::Done(
            Err(flow::with_context("failed to create btw thread", e.as_str())),
            i + 1,
        ),
        Got::Value(s) => s,
    };
    let i: usize = i + 1;
    match flow::got_done(log, i) {
        Got::Pending => return Flow::Do(
            Effect::SetThreadSession { thread, session: forked },
        ),
        Got::Failed(e) => return Flow::Done(Err(e), i + 1),
        Got::Value(_) => {},
    }
    let i: usize = i + 1;
    if !flow::was_tried(log, i) {
        return Flow::Do(Effect::AddMember { thread, user: req.user_id.clone() });
    }
    let i: usize = i + 1;
    match w {
        Wording::Plain => {
            if !flow::was_tried(log, i) {
                let text = "Reusing context from the original thread to answer prompt...\n".to_owned().concat(
                    req.prompt.as_str(),
                );
                return Flow::Do(Effect::Send { thread, text });
            }
        },
        Wording::Discord => {
            match flow::got_done(log, i) {
                Got::Pending => {
                    let text = "Reusing context from <#".to_owned().concat(
                        req.source_thread.as_str(),
                    ).concat("> to answer prompt...\n").concat(req.prompt.as_str());
                    return Flow::Do(Effect::Say { channel: thread, text });
                },
                Got::Failed(e) => return Flow::Done(Err(e), i + 1),
                Got::Value(_) => {},
            }
        },
    }
    let i: usize = i + 1;
    match flow::got_done(log, i) {
        Got::Pending => return Flow::Do(
            Effect::OpenRuntime { thread, directory: req.directory.clone() },
        ),
        Got::Failed(e) => return Flow::Done(Err(e), i + 1),
        Got::Value(_) => {},
    }
    let i: usize = i + 1;
    if !flow::was_tried(log, i) {
        let prompt = "The user asked a side question while you were working on another task.\nThis is a forked session whose ONLY goal is to answer this question.\nDo NOT continue, resume, or reference the previous task. Only answer the question below.\n\n".to_owned().concat(
            req.prompt.as_str(),
        );
        let message = flow::plain_message(prompt, req.username.as_str(), None);
        return Flow::Do(Effect::Enqueue { thread, message, wait: false });
    }
    Flow::Done(Ok(thread), i + 1)
}

/// Whether an effect acts on the runtime, the messages or the session of `thread`.
pub open spec fn touches(a: Act, thread: Seq<char>) -> bool {
    match a {
        Act::SetThreadSession { thread: t, session } => t == thread,
        Act::AddMember { thread: t, user } => t == thread,
        Act::Send { thread: t, text } => t == thread,
        Act::Say { channel, text } => channel == thread,
        Act::OpenRuntime { thread: t, directory } => t == thread,
        Act::Enqueue { thread: t, message, wait } => t == thread,
        Act::ClearQueue { thread: t, position } => t == thread,
        Act::BindSession { thread: t, session } => t == thread,
        Act::ResetSession { thread: t } => t == thread,
        Act::Rename { thread: t, name } => t == thread,
        _ => false,
    }
}

/// A side question leaves the thread it was asked in alone: nothing is sent to it,
/// queued in it or changed of its session, unless the platform hands out its id for
/// the new thread.
pub proof fn law_btw_leaves_source_alone(w: Wording, req: Btw, log: Seq<Answer>)
    requires
        flow::heard_text(log, 2) != Heard::Value(req.source),
    ensures
        forking(w, req, log, 0) matches Path::Do(a) ==> !touches(a, req.source),
{
}

// ---- new worktrees ----

/// Where /new-worktree was invoked from.
#[derive(Debug)]
pub enum WorktreeScope {
    /// Inside an existing session thread; the name falls back to a compressed slug of
    /// `name_hint` (typically the thread title).
    Thread { thread_id: String, name_hint: String },
    /// From a project channel: a fresh thread is created so the user can start typing
    /// while the worktree builds.
    Channel { channel_id: String, user_id: String },
}

/// The value of a scope.
pub enum Scope {
    Thread(Seq<char>, Seq<char>),
    Channel(Seq<char>, Seq<char>),
}

impl View for WorktreeScope {
    type V = Scope;

    open spec fn view(&self) -> Scope {
        match *self {
            WorktreeScope::Thread { thread_id, name_hint } => Scope::Thread(thread_id@, name_hint@),
            WorktreeScope::Channel { channel_id, user_id } => Scope::Channel(channel_id@, user_id@),
        }
    }
}

/// The slug of a worktree: of the name, or compressed of the hint.
pub open spec fn slug_or_hint(name: Option<Seq<char>>, hint: Seq<char>) -> Seq<char> {
    match name {
        Some(n) => worktree::slug_for(n),
        None => worktree::compressed(worktree::slug_for(hint)),
    }
}

pub open spec fn creating_text(dir: Seq<char>, slug: Seq<char>) -> Seq<char> {
    "Creating worktree `"@ + dir + "` on branch `"@ + worktree::branch_of(slug) + "`..."@
}

pub open spec fn name_missing(w: Wording) -> Seq<char> {
    match w {
        Wording::Plain => "pass a name when creating a worktree from a channel"@,
        Wording::Discord => "pass a name when running /new-worktree from a channel"@,
    }
}

/// The worktree is recorded as pending, the reply goes out and the build starts. A
/// slash command is answered before the build starts; elsewhere the flow's result is
/// the answer.
pub open spec fn recording(
    w: Wording,
    data_dir: Seq<char>,
    project: Seq<char>,
    thread: Seq<char>,
    slug: Seq<char>,
    base: Option<Seq<char>>,
    title: Option<Seq<char>>,
    log: Seq<Answer>,
    i: int,
) -> Path<Result<Seq<char>, Seq<char>>> {
    let dir = worktree::directory_of(data_dir, project, slug);
    let reply = creating_text(dir, slug);
    let build = Act::StartBuild {
        build: Build { project, directory: dir, slug, base, thread, title, wording: w },
    };
    if slug.len() == 0 {
        Path::Done(Err("could not derive a worktree name; pass one explicitly"@), i)
    } else {
        match flow::heard_done(log, i) {
            Heard::Pending => Path::Do(
                Act::CreatePendingWorktree { thread, branch: worktree::branch_of(slug), project },
            ),
            Heard::Failed(e) => Path::Done(Err(e), i + 1),
            Heard::Value(_) => match w {
                Wording::Plain => if !flow::tried(log, i + 1) {
                    Path::Do(build)
                } else {
                    Path::Done(Ok(reply), i + 2)
                },
                Wording::Discord => match flow::heard_done(log, i + 1) {
                    Heard::Pending => Path::Do(Act::Respond { text: reply }),
                    Heard::Failed(e) => Path::Done(Err(e), i + 2),
                    Heard::Value(_) => if !flow::tried(log, i + 2) {
                        Path::Do(build)
                    } else {
                        Path::Done(Ok(reply), i + 3)
                    },
                },
            },
        }
    }
}

/// A worktree for an existing thread, once its channel is known.
pub open spec fn for_thread(
    w: Wording,
    data_dir: Seq<char>,
    thread: Seq<char>,
    hint: Seq<char>,
    parent: Seq<char>,
    name: Option<Seq<char>>,
    base: Option<Seq<char>>,
    log: Seq<Answer>,
    i: int,
) -> Path<Result<Seq<char>, Seq<char>>> {
    match flow::heard_maybe(log, i) {
        Heard::Pending => Path::Do(Act::GetChannelDirectory { channel: parent }),
        Heard::Failed(e) => Path::Done(Err(e), i + 1),
        Heard::Value(None) => Path::Done(
            Err("parent channel is not linked to a project"@),
            i + 1,
        ),
        Heard::Value(Some(project)) => recording(
            w,
            data_dir,
            project,
            thread,
            slug_or_hint(name, hint),
            base,
            Some(hint),
            log,
            i + 1,
        ),
    }
}

/// A worktree from a channel, in a thread of its own.
pub open spec fn for_channel(
    w: Wording,
    data_dir: Seq<char>,
    channel: Seq<char>,
    user: Seq<char>,
    name: Option<Seq<char>>,
    base: Option<Seq<char>>,
    log: Seq<Answer>,
    i: int,
) -> Path<Result<Seq<char>, Seq<char>>> {
    match flow::heard_maybe(log, i) {
        Heard::Pending => Path::Do(Act::GetChannelDirectory { channel }),
        Heard::Failed(e) => Path::Done(Err(e), i + 1),
        Heard::Value(None) => Path::Done(Err("this channel is not linked to a project"@), i + 1),
        Heard::Value(Some(project)) => match name {
            None => Path::Done(Err(name_missing(w)), i + 1),
            Some(n) => {
                let slug = worktree::slug_for(n);
                match flow::heard_text(log, i + 1) {
                    Heard::Pending => Path::Do(
                        Act::CreateThread {
                            channel,
                            from: None,
                            name: worktree::marked_title(slug),
                        },
                    ),
                    Heard::Failed(e) => Path::Done(Err(e), i + 2),
                    Heard::Value(thread) => if !flow::tried(log, i + 2) {
                        Path::Do(Act::AddMember { thread, user })
                    } else {
                        recording(w, data_dir, project, thread, slug, base, None, log, i + 3)
                    },
                }
            },
        },
    }
}

/// A new worktree for a session.
pub open spec fn adding_worktree(
    data_dir: Seq<char>,
    scope: Scope,
    name: Option<Seq<char>>,
    base: Option<Seq<char>>,
    log: Seq<Answer>,
    i: int,
) -> Path<Result<Seq<char>, Seq<char>>> {
    match scope {
        Scope::Thread(thread, hint) => match flow::heard_maybe(log, i) {
            Heard::Pending => Path::Do(Act::ThreadParent { thread }),
            Heard::Failed(e) => Path::Done(Err(e), i + 1),
            Heard::Value(None) => Path::Done(Err("thread has no parent channel"@), i + 1),
            Heard::Value(Some(parent)) => for_thread(
                Wording::Plain,
                data_dir,
                thread,
                hint,
                parent,
                name,
                base,
                log,
                i + 1,
            ),
        },
        Scope::Channel(channel, user) => for_channel(
            Wording::Plain,
            data_dir,
            channel,
            user,
            name,
            base,
            log,
            i,
        ),
    }
}

fn record(
    w: Wording,
    data_dir: &str,
    project: String,
    thread: String,
    slug: String,
    base: &Option<String>,
    title: Option<String>,
    log: &Vec<Reply>,
    i: usize,
) -> (r: Flow<Result<String, String>>)
    requires
        i <= log@.len(),
    ensures
        flow::at_text(r) == recording(
            w,
            data_dir@,
            project@,
            thread@,
            slug@,
            text::opt_view(*base),
            text::opt_view(title),
            flow::answers(log@),
            i as int,
        ),
        r matches Flow::Done(_, n) ==> n <= log@.len(),
{
    if slug.as_str().is_empty() {
        return Flow::Done(
            Err("could not derive a worktree name; pass one explicitly".to_owned()),
            i,
        );
    }
    let dir = worktree::worktree_directory(data_dir, project.as_str(), slug.as_str());
    let branch = worktree::branch_name(slug.as_str());
    match flow::got_done(log, i) {
        Got::Pending => return Flow::Do(
            Effect::CreatePendingWorktree { thread, branch, project },
        ),
        Got::Failed(e) => return Flow::Done(Err(e), i + 1),
        Got::Value(_) => {},
    }
    let reply = "Creating worktree `".to_owned().concat(dir.as_str()).concat(
        "` on branch `",
    ).concat(branch.as_str()).concat("`...");
    let mut next: usize = i + 1;
    match w {
        Wording::Plain => {},
        Wording::Discord => {
            match flow::got_done(log, next) {
                Got::Pending => return Flow::Do(Effect::Respond { text: reply }),
                Got::Failed(e) => return Flow::Done(Err(e), next + 1),
                Got::Value(_) => {},
            }
            next = next + 1;
        },
    }
    if !flow::was_tried(log, next) {
        let build = WorktreeBuild {
            project,
            directory: dir,
            slug,
            base: base.clone(),
            thread,
            title,
            wording: w,
        };
        return Flow::Do(Effect::StartBuild { build });
    }
    Flow::Done(Ok(reply), next + 1)
}

/// A worktree for an existing thread, once its channel is known.
pub fn worktree_for_thread(
    w: Wording,
    data_dir: &str,
    thread_id: &str,
    name_hint: &str,
    parent: &str,
    name: &Option<String>,
    base_branch: &Option<String>,
    log: &Vec<Reply>,
    i: usize,
) -> (r: Flow<Result<String, String>>)
    ensures
        flow::at_text(r) == for_thread(
            w,
            data_dir@,
            thread_id@,
            name_hint@,
            parent@,
            text::opt_view(*name),
            text::opt_view(*base_branch),
            flow::answers(log@),
            i as int,
        ),
        r matches Flow::Done(_, n) ==> n <= log@.len(),
{
    let project = match flow::got_maybe(log, i) {
        Got::Pending => return Flow::Do(
            Effect::GetChannelDirectory { channel: parent.to_owned() },
        ),
        Got::Failed(e) => return Flow::Done(Err(e), i + 1),
        Got::Value(None) => return Flow::Done(
            Err("parent channel is not linked to a project".to_owned()),
            i + 1,
        ),
        Got::Value(Some(p)) => p,
    };
    let slug = match name {
        Some(n) => worktree::slugify(n.as_str()),
        // Auto-derived names get the vowel-stripping compression.
        None => worktree::compress_slug(worktree::slugify(name_hint).as_str()),
    };
    record(
        w,
        data_dir,
        project,
        thread_id.to_owned(),
        slug,
        base_branch,
        Some(name_hint.to_owned()),
        log,
        i + 1,
    )
}

/// A worktree from a channel, in a thread of its own.
pub fn worktree_for_channel(
    w: Wording,
    data_dir: &str,
    channel_id: &str,
    user_id: &str,
    name: &Option<String>,
    base_branch: &Option<String>,
    log: &Vec<Reply>,
    i: usize,
) -> (r: Flow<Result<String, String>>)
    ensures
        flow::at_text(r) == for_channel(
            w,
            data_dir@,
            channel_id@,
            user_id@,
            text::opt_view(*name),
            text::opt_view(*base_branch),
            flow::answers(log@),
            i as int,
        ),
        r matches Flow::Done(_, n) ==> n <= log@.len(),
{
    let project = match flow::got_maybe(log, i) {
        Got::Pending => return Flow::Do(
            Effect::GetChannelDirectory { channel: channel_id.to_owned() },
        ),
        Got::Failed(e) => return Flow::Done(Err(e), i + 1),
        Got::Value(None) => return Flow::Done(
            Err("this channel is not linked to a project".to_owned()),
            i + 1,
        ),
        Got::Value(Some(p)) => p,
    };
    let slug = match name {
        None => {
            let text = match w {
                Wording::Plain => "pass a name when creating a worktree from a channel",
                Wording::Discord => "pass a name when running /new-worktree from a channel",
            };
            return Flow::Done(Err(text.to_owned()), i + 1);
        },
        Some(n) => worktree::slugify(n.as_str()),
    };
    let i: usize = i + 1;
    let thread = match flow::got_text(log, i) {
        Got::Pending => return Flow::Do(
            Effect::CreateThread {
                channel: channel_id.to_owned(),
                from: None,
                name: worktree::THREAD_PREFIX.to_owned().concat(slug.as_str()),
            },
        ),
        Got::Failed(e) => return Flow::Done(Err(e), i + 1),
        Got::Value(t) => t,
    };
    let i: usize = i + 1;
    if !flow::was_tried(log, i) {
        return Flow::Do(Effect::AddMember { thread, user: user_id.to_owned() });
    }
    record(w, data_dir, project, thread, slug, base_branch, None, log, i + 1)
}

/// Create an isolated git worktree for a session. Replies immediately and builds the
/// worktree in the background.
pub fn new_worktree(
    data_dir: &str,
    scope: &WorktreeScope,
    name: &Option<String>,
    base_branch: &Option<String>,
    log: &Vec<Reply>,
    from: usize,
) -> (r: Flow<Result<String, String>>)
    ensures
        flow::at_text(r) == adding_worktree(
            data_dir@,
            scope@,
            text::opt_view(*name),
            text::opt_view(*base_branch),
            flow::answers(log@),
            from as int,
        ),
        r matches Flow::Done(_, n) ==> n <= log@.len(),
{
    match scope {
        WorktreeScope::Thread { thread_id, name_hint } => {
            let parent = match flow::got_maybe(log, from) {
                Got::Pending => return Flow::Do(
                    Effect::ThreadParent { thread: thread_id.clone() },
                ),
                Got::Failed(e) => return Flow::Done(Err(e), from + 1),
                Got::Value(None) => return Flow::Done(
                    Err("thread has no parent channel".to_owned()),
                    from + 1,
                ),
                Got::Value(Some(p)) => p,
            };
            worktree_for_thread(
                Wording::Plain,
                data_dir,
                thread_id.as_str(),
                name_hint.as_str(),
                parent.as_str(),
                name,
                base_branch,
                log,
                from + 1,
            )
        },
        WorktreeScope::Channel { channel_id, user_id } => worktree_for_channel(
            Wording::Plain,
            data_dir,
            channel_id.as_str(),
            user_id.as_str(),
            name,
            base_branch,
            log,
            from,
        ),
    }
}

// ---- building in the background ----

pub open spec fn ready_text(dir: Seq<char>) -> Seq<char> {
    "🌳 Worktree ready at `"@ + dir + "`. New messages run in the worktree."@
}

pub open spec fn build_failed_text(error: Seq<char>) -> Seq<char> {
    "⚠️ Worktree creation failed: "@ + error
}

/// The last word of a build: an ordinary message on Discord, and elsewhere one like
/// the agent's own.
pub open spec fn build_said(job: Build, text: Seq<char>, log: Seq<Answer>, i: int) -> Path<
    Result<(), Seq<char>>,
> {
    if !flow::tried(log, i) {
        match job.wording {
            Wording::Plain => Path::Do(Act::Send { thread: job.thread, text }),
            Wording::Discord => Path::Do(Act::Say { channel: job.thread, text }),
        }
    } else {
        Path::Done(Ok(()), i + 1)
    }
}

/// The thread's title is marked, unless it is marked already, and the thread is told.
pub open spec fn build_marking(job: Build, log: Seq<Answer>, i: int) -> Path<
    Result<(), Seq<char>>,
> {
    match job.title {
        Some(title) => if text::starts_with(title, worktree::THREAD_PREFIX@) {
            build_said(job, ready_text(job.directory), log, i)
        } else if !flow::tried(log, i) {
            Path::Do(Act::Rename { thread: job.thread, name: worktree::marked_title(title) })
        } else {
            build_said(job, ready_text(job.directory), log, i + 1)
        },
        None => build_said(job, ready_text(job.directory), log, i),
    }
}

/// The thread's session, if one is known.
pub open spec fn known_session(h: Heard<Option<Seq<char>>>) -> Option<Seq<char>> {
    match h {
        Heard::Value(s) => s,
        _ => None,
    }
}

/// The thread moves into the worktree: its runtime is retargeted in place, keeping
/// its queue and dispatch loop, and its session is forked so the context carries
/// over.
pub open spec fn build_moving(job: Build, log: Seq<Answer>, i: int) -> Path<Result<(), Seq<char>>> {
    if !flow::tried(log, i) {
        Path::Do(Act::SetWorktreeReady { thread: job.thread, directory: job.directory })
    } else if !flow::tried(log, i + 1) {
        Path::Do(Act::GetThreadSession { thread: job.thread })
    } else {
        match flow::heard_done(log, i + 2) {
            Heard::Pending => Path::Do(
                Act::OpenRuntime { thread: job.thread, directory: job.directory },
            ),
            Heard::Failed(_) => build_marking(job, log, i + 3),
            Heard::Value(_) => match known_session(flow::heard_maybe(log, i + 1)) {
                None => build_marking(job, log, i + 3),
                Some(old) => match flow::heard_text(log, i + 3) {
                    Heard::Pending => Path::Do(
                        Act::ForkSession { directory: job.directory, session: old },
                    ),
                    Heard::Failed(_) => build_marking(job, log, i + 4),
                    Heard::Value(forked) => if !flow::tried(log, i + 4) {
                        Path::Do(Act::BindSession { thread: job.thread, session: forked })
                    } else {
                        build_marking(job, log, i + 5)
                    },
                },
            },
        }
    }
}

/// Building a worktree and moving its thread into it; a failure is recorded and told.
pub open spec fn building(job: Build, log: Seq<Answer>) -> Path<Result<(), Seq<char>>> {
    match git::creating(job.project, job.directory, job.slug, job.base, log, 0) {
        Path::Do(a) => Path::Do(a),
        Path::Done(Ok(_), n) => build_moving(job, log, n),
        Path::Done(Err(e), n) => if !flow::tried(log, n) {
            Path::Do(Act::SetWorktreeError { thread: job.thread, error: e })
        } else {
            build_said(job, build_failed_text(e), log, n + 1)
        },
    }
}

fn say_last(job: &WorktreeBuild, text: String, log: &Vec<Reply>, i: usize) -> (r: Flow<
    Result<(), String>,
>)
    ensures
        flow::at_unit(r) == build_said(job@, text@, flow::answers(log@), i as int),
{
    if !flow::was_tried(log, i) {
        return match job.wording {
            Wording::Plain => Flow::Do(Effect::Send { thread: job.thread.clone(), text }),
            Wording::Discord => Flow::Do(Effect::Say { channel: job.thread.clone(), text }),
        };
    }
    Flow::Done(Ok(()), i + 1)
}

fn mark_and_say(job: &WorktreeBuild, log: &Vec<Reply>, from: usize) -> (r: Flow<Result<(), String>>)
    requires
        from <= log@.len(),
    ensures
        flow::at_unit(r) == build_marking(job@, flow::answers(log@), from as int),
{
    let mut i: usize = from;
    if let Some(title) = &job.title {
        if let Some(name) = worktree::mark_title(title.as_str()) {
            if !flow::was_tried(log, i) {
                return Flow::Do(Effect::Rename { thread: job.thread.clone(), name });
            }
            i = i + 1;
        }
    }
    let text = "🌳 Worktree ready at `".to_owned().concat(job.directory.as_str()).concat(
        "`. New messages run in the worktree.",
    );
    say_last(job, text, log, i)
}

/// Build a worktree in the background, then switch its thread to it.
pub fn build_worktree(job: &WorktreeBuild, log: &Vec<Reply>) -> (r: Flow<Result<(), String>>)
    ensures
        flow::at_unit(r) == building(job@, flow::answers(log@)),
{
    let thread = job.thread.as_str();
    let dir = job.directory.as_str();
    let i: usize = match git::create_worktree(
        job.project.as_str(),
        dir,
        job.slug.as_str(),
        &job.base,
        log,
        0,
    ) {
        Flow::Do(e) => return Flow::Do(e),
        Flow::Done(Err(e), n) => {
            if !flow::was_tried(log, n) {
                return Flow::Do(
                    Effect::SetWorktreeError { thread: thread.to_owned(), error: e },
                );
            }
            let text = "⚠️ Worktree creation failed: ".to_owned().concat(e.as_str());
            return say_last(job, text, log, n + 1);
        },
        Flow::Done(Ok(_), n) => n,
    };
    if !flow::was_tried(log, i) {
        return Flow::Do(
            Effect::SetWorktreeReady { thread: thread.to_owned(), directory: dir.to_owned() },
        );
    }
    if !flow::was_tried(log, i + 1) {
        return Flow::Do(Effect::GetThreadSession { thread: thread.to_owned() });
    }
    let old = match flow::got_maybe(log, i + 1) {
        Got::Value(s) => s,
        _ => None,
    };
    match flow::got_done(log, i + 2) {
        Got::Pending => return Flow::Do(
            Effect::OpenRuntime { thread: thread.to_owned(), directory: dir.to_owned() },
        ),
        Got::Failed(_) => return mark_and_say(job, log, i + 3),
        Got::Value(_) => {},
    }
    let session = match old {
        None => return mark_and_say(job, log, i + 3),
        Some(s) => s,
    };
    match flow::got_text(log, i + 3) {
        Got::Pending => Flow::Do(Effect::ForkSession { directory: dir.to_owned(), session }),
        Got::Failed(_) => mark_and_say(job, log, i + 4),
        Got::Value(forked) => {
            if !flow::was_tried(log, i + 4) {
                return Flow::Do(
                    Effect::BindSession { thread: thread.to_owned(), session: forked },
                );
            }
            mark_and_say(job, log, i + 5)
        },
    }
}

// ---- merging ----

/// What a merge works on.
#[derive(Debug)]
pub struct MergePlan {
    pub project: String,
    pub directory: String,
    pub slug: String,
    pub target: String,
}

/// The value of a merge plan.
pub struct Plan {
    pub project: Seq<char>,
    pub directory: Seq<char>,
    pub slug: Seq<char>,
    pub target: Seq<char>,
}

impl View for MergePlan {
    type V = Plan;

    open spec fn view(&self) -> Plan {
        Plan {
            project: self.project@,
            directory: self.directory@,
            slug: self.slug@,
            target: self.target@,
        }
    }
}

/// Where the planning of a merge stands.
pub open spec fn at_plan(f: Flow<Result<MergePlan, String>>) -> Path<Result<Plan, Seq<char>>> {
    match f {
        Flow::Do(e) => Path::Do(e@),
        Flow::Done(Ok(p), n) => Path::Done(Ok(p@), n as int),
        Flow::Done(Err(e), n) => Path::Done(Err(e@), n as int),
    }
}

pub open spec fn no_worktree(w: Wording) -> Seq<char> {
    match w {
        Wording::Plain => "this thread has no worktree (use new-worktree first)"@,
        Wording::Discord => "this thread has no worktree (use /new-worktree first)"@,
    }
}

/// The directory of a worktree that can be merged.
pub open spec fn mergeable(w: Wording, wt: Option<Assignment>) -> Result<
    (Assignment, Seq<char>),
    Seq<char>,
> {
    match wt {
        None => Err(no_worktree(w)),
        Some(a) => if a.status != "ready"@ {
            Err(
                "worktree is not ready (status: "@ + a.status + task_runner::detail_text(a.error)
                    + ")"@,
            )
        } else {
            match a.directory {
                None => Err("worktree directory missing"@),
                Some(dir) => Ok((a, dir)),
            }
        },
    }
}

/// What is to be merged, and onto which branch: the one asked for, or the project's
/// default branch.
pub open spec fn planning(
    w: Wording,
    thread: Seq<char>,
    target: Option<Seq<char>>,
    log: Seq<Answer>,
    i: int,
) -> Path<Result<Plan, Seq<char>>> {
    match flow::heard_worktree(log, i) {
        Heard::Pending => Path::Do(Act::GetWorktree { thread }),
        Heard::Failed(e) => Path::Done(Err(e), i + 1),
        Heard::Value(found) => match mergeable(w, found) {
            Err(e) => Path::Done(Err(e), i + 1),
            Ok((wt, directory)) => {
                let slug = worktree::slug_of_branch(wt.name);
                match target {
                    Some(t) => Path::Done(
                        Ok(Plan { project: wt.project, directory, slug, target: t }),
                        i + 1,
                    ),
                    None => match git::finding_default(wt.project, log, i + 1) {
                        Path::Do(a) => Path::Do(a),
                        Path::Done(Err(e), n) => Path::Done(Err(e), n),
                        Path::Done(Ok(t), n) => Path::Done(
                            Ok(Plan { project: wt.project, directory, slug, target: t }),
                            n,
                        ),
                    },
                }
            },
        },
    }
}

/// What is to be merged, and onto which branch.
pub fn plan_merge(
    w: Wording,
    thread_id: &str,
    target_branch: &Option<String>,
    log: &Vec<Reply>,
    from: usize,
) -> (r: Flow<Result<MergePlan, String>>)
    ensures
        at_plan(r) == planning(
            w,
            thread_id@,
            text::opt_view(*target_branch),
            flow::answers(log@),
            from as int,
        ),
        r matches Flow::Done(_, n) ==> n <= log@.len(),
{
    let wt = match flow::got_worktree(log, from) {
        Got::Pending => return Flow::Do(Effect::GetWorktree { thread: thread_id.to_owned() }),
        Got::Failed(e) => return Flow::Done(Err(e), from + 1),
        Got::Value(None) => {
            let text = match w {
                Wording::Plain => "this thread has no worktree (use new-worktree first)",
                Wording::Discord => "this thread has no worktree (use /new-worktree first)",
            };
            return Flow::Done(Err(text.to_owned()), from + 1);
        },
        Got::Value(Some(wt)) => wt,
    };
    if !text::same_text(wt.status.as_str(), "ready") {
        return Flow::Done(
            Err(
                "worktree is not ready (status: ".to_owned().concat(wt.status.as_str()).concat(
                    task_runner::error_detail(&wt.error_message).as_str(),
                ).concat(")"),
            ),
            from + 1,
        );
    }
    let directory = match &wt.worktree_directory {
        None => return Flow::Done(Err("worktree directory missing".to_owned()), from + 1),
        Some(d) => d.clone(),
    };
    let slug = worktree::branch_slug(wt.worktree_name.as_str());
    match target_branch {
        Some(t) => Flow::Done(
            Ok(MergePlan { project: wt.project_directory, directory, slug, target: t.clone() }),
            from + 1,
        ),
        None => match git::default_branch(wt.project_directory.as_str(), log, from + 1) {
            Flow::Do(e) => Flow::Do(e),
            Flow::Done(Err(e), n) => Flow::Done(Err(e), n),
            Flow::Done(Ok(target), n) => Flow::Done(
                Ok(MergePlan { project: wt.project_directory, directory, slug, target }),
                n,
            ),
        },
    }
}

pub open spec fn warning_text(warning: Option<Seq<char>>) -> Seq<char> {
    match warning {
        Some(w) => "\n⚠️ Cleanup needs attention: "@ + w,
        None => Seq::empty(),
    }
}

pub open spec fn merged_text(
    target: Seq<char>,
    branch: Seq<char>,
    commits: nat,
    sha: Seq<char>,
    warning: Option<Seq<char>>,
) -> Seq<char> {
    "Merged "@ + numbers::decimal(commits) + " commit(s) from `"@ + branch + "` into `"@ + target
        + "` (now at `"@ + sha + "`). Worktree removed."@ + warning_text(warning)
}

pub open spec fn conflict_text(w: Wording, target: Seq<char>) -> Seq<char> {
    match w {
        Wording::Plain => "Rebase onto `"@ + target
            + "` hit conflicts. Asking the agent to resolve them; run merge-worktree again once it finishes."@,
        Wording::Discord => "Rebase onto `"@ + target
            + "` hit conflicts. Asking the agent to resolve them; run /merge-worktree again once it finishes."@,
    }
}

pub open spec fn target_dirty_text(target: Seq<char>) -> Seq<char> {
    "`"@ + target
        + "` is checked out with uncommitted changes in the main repo. Clean it up first."@
}

/// After a success: the worktree directory is gone, so the runtime goes back to the
/// project (keeping its queue), the session that was bound to the removed directory
/// is dropped, and the title loses its mark.
pub open spec fn merge_landed(
    thread: Seq<char>,
    title: Seq<char>,
    project: Seq<char>,
    reply: Seq<char>,
    log: Seq<Answer>,
    i: int,
) -> Path<Result<Seq<char>, Seq<char>>> {
    match flow::heard_done(log, i) {
        Heard::Pending => Path::Do(Act::DeleteWorktree { thread }),
        Heard::Failed(e) => Path::Done(Err(e), i + 1),
        Heard::Value(_) => match flow::heard_done(log, i + 1) {
            Heard::Pending => Path::Do(Act::OpenRuntime { thread, directory: project }),
            Heard::Failed(e) => Path::Done(Err(e), i + 2),
            Heard::Value(_) => match flow::heard_done(log, i + 2) {
                Heard::Pending => Path::Do(Act::ResetSession { thread }),
                Heard::Failed(e) => Path::Done(Err(e), i + 3),
                Heard::Value(_) => match worktree::unmarked_title(title) {
                    Some(name) => if !flow::tried(log, i + 3) {
                        Path::Do(Act::Rename { thread, name })
                    } else {
                        Path::Done(Ok(reply), i + 4)
                    },
                    None => Path::Done(Ok(reply), i + 3),
                },
            },
        },
    }
}

/// After a conflict: the agent is asked, in the thread, to resolve it.
pub open spec fn merge_stopped(
    thread: Seq<char>,
    target: Seq<char>,
    reply: Seq<char>,
    log: Seq<Answer>,
    i: int,
) -> Path<Result<Seq<char>, Seq<char>>> {
    match task_runner::resolving(thread, log, i) {
        Path::Do(a) => Path::Do(a),
        Path::Done(Err(e), n) => Path::Done(Err(e), n),
        Path::Done(Ok(directory), n) => match flow::heard_done(log, n) {
            Heard::Pending => Path::Do(Act::OpenRuntime { thread, directory }),
            Heard::Failed(e) => Path::Done(Err(e), n + 1),
            Heard::Value(_) => if !flow::tried(log, n + 1) {
                Path::Do(
                    Act::Enqueue {
                        thread,
                        message: flow::unsourced(worktree::conflict_prompt(target), "lily"@),
                        wait: false,
                    },
                )
            } else {
                Path::Done(Ok(reply), n + 2)
            },
        },
    }
}

/// What a merge that asks for nothing more is answered.
pub open spec fn refusal_text(m: Merge) -> Seq<char> {
    match m {
        Merge::DirtyWorktree =>
            "The worktree has uncommitted changes. Commit or stash them first."@,
        Merge::TargetDirty(target) => target_dirty_text(target),
        _ => "No commits to merge yet."@,
    }
}

/// Merging a thread's worktree back: planning, merging, and what follows from the
/// outcome. The result is the reply.
pub open spec fn merging_back(
    thread: Seq<char>,
    title: Seq<char>,
    target: Option<Seq<char>>,
    log: Seq<Answer>,
    i: int,
) -> Path<Result<Seq<char>, Seq<char>>> {
    match planning(Wording::Plain, thread, target, log, i) {
        Path::Do(a) => Path::Do(a),
        Path::Done(Err(e), n) => Path::Done(Err(e), n),
        Path::Done(Ok(plan), n) => {
            let job = git::job_of(plan.directory, plan.project, plan.slug, plan.target);
            match git::merging(job, log, n) {
                Path::Do(a) => Path::Do(a),
                Path::Done(Err(e), m) => Path::Done(Err(e), m),
                Path::Done(Ok(Merge::Success { target, branch, commits, sha, warning }), m) => {
                    merge_landed(
                        thread,
                        title,
                        plan.project,
                        merged_text(target, branch, commits, sha, warning),
                        log,
                        m,
                    )
                },
                Path::Done(Ok(Merge::RebaseConflict(t)), m) => merge_stopped(
                    thread,
                    t,
                    conflict_text(Wording::Plain, t),
                    log,
                    m,
                ),
                Path::Done(Ok(outcome), m) => Path::Done(Ok(refusal_text(outcome)), m),
            }
        },
    }
}

/// What a successful merge is answered.
pub fn merged_reply(
    target: &str,
    branch: &str,
    commits: u64,
    sha: &str,
    warning: &Option<String>,
) -> (r: String)
    ensures
        r@ == merged_text(target@, branch@, commits as nat, sha@, text::opt_view(*warning)),
{
    let tail = match warning {
        Some(w) => "\n⚠️ Cleanup needs attention: ".to_owned().concat(w.as_str()),
        None => String::new(),
    };
    assert(tail@ =~= warning_text(text::opt_view(*warning)));
    "Merged ".to_owned().concat(numbers::decimal_u64(commits).as_str()).concat(" commit(s) from `").concat(
        branch,
    ).concat("` into `").concat(target).concat("` (now at `").concat(sha).concat(
        "`). Worktree removed.",
    ).concat(tail.as_str())
}

/// What a merge that stopped on conflicts is answered.
pub fn conflict_reply(w: Wording, target: &str) -> (r: String)
    ensures
        r@ == conflict_text(w, target@),
{
    let head = "Rebase onto `".to_owned().concat(target);
    match w {
        Wording::Plain => head.concat(
            "` hit conflicts. Asking the agent to resolve them; run merge-worktree again once it finishes.",
        ),
        Wording::Discord => head.concat(
            "` hit conflicts. Asking the agent to resolve them; run /merge-worktree again once it finishes.",
        ),
    }
}

/// What a merge that asks for nothing more is answered.
pub fn refusal_reply(outcome: &MergeOutcome) -> (r: String)
    ensures
        r@ == refusal_text(outcome@),
{
    match outcome {
        MergeOutcome::DirtyWorktree =>
            "The worktree has uncommitted changes. Commit or stash them first.".to_owned(),
        MergeOutcome::TargetDirty { target_branch } => "`".to_owned().concat(
            target_branch.as_str(),
        ).concat("` is checked out with uncommitted changes in the main repo. Clean it up first."),
        _ => "No commits to merge yet.".to_owned(),
    }
}

/// The steps after a merge that landed.
pub fn land_merge(
    thread_id: &str,
    thread_name: &str,
    project: &str,
    reply: String,
    log: &Vec<Reply>,
    i: usize,
) -> (r: Flow<Result<String, String>>)
    ensures
        flow::at_text(r) == merge_landed(
            thread_id@,
            thread_name@,
            project@,
            reply@,
            flow::answers(log@),
            i as int,
        ),
        r matches Flow::Done(_, n) ==> n <= log@.len(),
{
    match flow::got_done(log, i) {
        Got::Pending => return Flow::Do(Effect::DeleteWorktree { thread: thread_id.to_owned() }),
        Got::Failed(e) => return Flow::Done(Err(e), i + 1),
        Got::Value(_) => {},
    }
    match flow::got_done(log, i + 1) {
        Got::Pending => return Flow::Do(
            Effect::OpenRuntime { thread: thread_id.to_owned(), directory: project.to_owned() },
        ),
        Got::Failed(e) => return Flow::Done(Err(e), i + 2),
        Got::Value(_) => {},
    }
    match flow::got_done(log, i + 2) {
        Got::Pending => return Flow::Do(Effect::ResetSession { thread: thread_id.to_owned() }),
        Got::Failed(e) => return Flow::Done(Err(e), i + 3),
        Got::Value(_) => {},
    }
    let mut n: usize = i + 3;
    if let Some(name) = worktree::unmark_title(thread_name) {
        if !flow::was_tried(log, n) {
            return Flow::Do(Effect::Rename { thread: thread_id.to_owned(), name });
        }
        n = n + 1;
    }
    Flow::Done(Ok(reply), n)
}

/// The steps after a merge that stopped on conflicts.
pub fn ask_to_resolve(
    thread_id: &str,
    target: &str,
    reply: String,
    log: &Vec<Reply>,
    i: usize,
) -> (r: Flow<Result<String, String>>)
    ensures
        flow::at_text(r) == merge_stopped(
            thread_id@,
            target@,
            reply@,
            flow::answers(log@),
            i as int,
        ),
        r matches Flow::Done(_, n) ==> n <= log@.len(),
{
    let (directory, n) = match task_runner::resolve_thread_directory(thread_id, log, i) {
        Flow::Do(e) => return Flow::Do(e),
        Flow::Done(Err(e), n) => return Flow::Done(Err(e), n),
        Flow::Done(Ok(d), n) => (d, n),
    };
    match flow::got_done(log, n) {
        Got::Pending => return Flow::Do(
            Effect::OpenRuntime { thread: thread_id.to_owned(), directory },
        ),
        Got::Failed(e) => return Flow::Done(Err(e), n + 1),
        Got::Value(_) => {},
    }
    if !flow::was_tried(log, n + 1) {
        let message = flow::plain_message(
            worktree::conflict_resolution_prompt(target),
            "lily",
            None,
        );
        return Flow::Do(Effect::Enqueue { thread: thread_id.to_owned(), message, wait: false });
    }
    Flow::Done(Ok(reply), n + 2)
}

/// Rebase this thread's worktree back onto the target branch. Returns the reply text;
/// on conflicts the agent is asked (in the thread) to resolve them.
pub fn merge_worktree(
    thread_id: &str,
    thread_name: &str,
    target_branch: &Option<String>,
    log: &Vec<Reply>,
    from: usize,
) -> (r: Flow<Result<String, String>>)
    ensures
        flow::at_text(r) == merging_back(
            thread_id@,
            thread_name@,
            text::opt_view(*target_branch),
            flow::answers(log@),
            from as int,
        ),
        r matches Flow::Done(_, n) ==> n <= log@.len(),
{
    let (plan, n) = match plan_merge(Wording::Plain, thread_id, target_branch, log, from) {
        Flow::Do(e) => return Flow::Do(e),
        Flow::Done(Err(e), n) => return Flow::Done(Err(e), n),
        Flow::Done(Ok(p), n) => (p, n),
    };
    match git::merge_worktree(
        plan.directory.as_str(),
        plan.project.as_str(),
        plan.slug.as_str(),
        plan.target.as_str(),
        log,
        n,
    ) {
        Flow::Do(e) => Flow::Do(e),
        Flow::Done(Err(e), m) => Flow::Done(Err(e), m),
        Flow::Done(
            Ok(
                MergeOutcome::Success {
                    target_branch,
                    branch_name,
                    commit_count,
                    short_sha,
                    cleanup_warning,
                },
            ),
            m,
        ) => {
            let reply = merged_reply(
                target_branch.as_str(),
                branch_name.as_str(),
                commit_count,
                short_sha.as_str(),
                &cleanup_warning,
            );
            land_merge(thread_id, thread_name, plan.project.as_str(), reply, log, m)
        },
        Flow::Done(Ok(MergeOutcome::RebaseConflict { target_branch }), m) => {
            let reply = conflict_reply(Wording::Plain, target_branch.as_str());
            ask_to_resolve(thread_id, target_branch.as_str(), reply, log, m)
        },
        Flow::Done(Ok(outcome), m) => Flow::Done(Ok(refusal_reply(&outcome)), m),
    }
}

// ---- lists ----

/// The note behind a worktree that a thread owns.
pub open spec fn owner_text(w: Wording, a: Assignment) -> Seq<char> {
    match w {
        Wording::Plain => " — lily thread "@ + a.thread + " ("@ + a.status + ")"@,
        Wording::Discord => " — lily thread <#"@ + a.thread + "> ("@ + a.status + ")"@,
    }
}

/// The note of the first thread whose worktree lies at `path`.
pub open spec fn owner_of(w: Wording, owners: Seq<Assignment>, path: Seq<char>) -> Seq<char>
    decreases owners.len(),
{
    if owners.len() == 0 {
        Seq::empty()
    } else if owners[0].directory == Some(path) {
        owner_text(w, owners[0])
    } else {
        owner_of(w, owners.drop_first(), path)
    }
}

pub open spec fn worktree_line(
    w: Wording,
    owners: Seq<Assignment>,
    entry: (Seq<char>, Seq<char>),
) -> Seq<char> {
    "- `"@ + entry.0 + "` on `"@ + entry.1 + "`"@ + owner_of(w, owners, entry.0)
}

/// The list of a project's worktrees.
pub open spec fn worktree_list(
    w: Wording,
    project: Seq<char>,
    found: Seq<(Seq<char>, Seq<char>)>,
    owners: Seq<Assignment>,
) -> Seq<char> {
    let head = "Worktrees for `"@ + project + "`:"@;
    let body = if found.len() == 0 {
        seq!["(none)"@]
    } else {
        Seq::new(found.len(), |i: int| worktree_line(w, owners, found[i]))
    };
    text::join(seq![head] + body, "\n"@)
}

fn owner_note(w: Wording, owners: &Vec<ThreadWorktree>, path: &str) -> (r: String)
    ensures
        r@ == owner_of(w, flow::assignments(owners@), path@),
{
    let ghost all = flow::assignments(owners@);
    let mut i: usize = 0;
    proof {
        assert(all.skip(0) =~= all);
    }
    while i < owners.len()
        invariant
            i <= owners@.len(),
            all == flow::assignments(owners@),
            owner_of(w, all.skip(i as int), path@) == owner_of(w, all, path@),
        decreases owners@.len() - i,
    {
        proof {
            assert(all.skip(i as int).drop_first() =~= all.skip(i + 1));
            assert(all.skip(i as int)[0] == owners@[i as int]@);
        }
        let wt = &owners[i];
        let mine = match &wt.worktree_directory {
            Some(dir) => text::same_text(dir.as_str(), path),
            None => false,
        };
        if mine {
            let head = match w {
                Wording::Plain => " — lily thread ".to_owned().concat(wt.thread_id.as_str()).concat(
                    " (",
                ),
                Wording::Discord => " — lily thread <#".to_owned().concat(
                    wt.thread_id.as_str(),
                ).concat("> ("),
            };
            return head.concat(wt.status.as_str()).concat(")");
        }
        i = i + 1;
    }
    let none = String::new();
    assert(none@ =~= Seq::<char>::empty());
    none
}

/// The list of a project's worktrees, lily-created or not.
pub fn describe_worktrees(
    w: Wording,
    project: &str,
    found: &Vec<(String, String)>,
    owners: &Vec<ThreadWorktree>,
) -> (r: String)
    ensures
        r@ == worktree_list(w, project@, git::pairs(found@), flow::assignments(owners@)),
{
    let ghost all = git::pairs(found@);
    let ghost own = flow::assignments(owners@);
    let ghost head = "Worktrees for `"@ + project@ + "`:"@;
    let ghost body = Seq::new(all.len(), |i: int| worktree_line(w, own, all[i]));
    let mut lines: Vec<String> = Vec::new();
    lines.push("Worktrees for `".to_owned().concat(project).concat("`:"));
    let mut i: usize = 0;
    proof {
        assert(text::texts(lines@) =~= seq![head] + body.take(0));
    }
    while i < found.len()
        invariant
            i <= found@.len(),
            all == git::pairs(found@),
            own == flow::assignments(owners@),
            body == Seq::new(all.len(), |i: int| worktree_line(w, own, all[i])),
            text::texts(lines@) == seq![head] + body.take(i as int),
        decreases found@.len() - i,
    {
        let ghost before = text::texts(lines@);
        let path = found[i].0.as_str();
        let note = owner_note(w, owners, path);
        let line = "- `".to_owned().concat(path).concat("` on `").concat(
            found[i].1.as_str(),
        ).concat("`").concat(note.as_str());
        lines.push(line);
        proof {
            assert(line@ == body[i as int]);
            assert(text::texts(lines@) =~= before.push(line@));
            assert(seq![head] + body.take(i + 1) =~= (seq![head] + body.take(i as int)).push(
                body[i as int],
            ));
        }
        i = i + 1;
    }
    proof {
        assert(body.take(all.len() as int) =~= body);
    }
    if found.len() == 0 {
        let ghost before = text::texts(lines@);
        lines.push("(none)".to_owned());
        proof {
            assert(text::texts(lines@) =~= before.push("(none)"@));
            assert(seq![head] + seq!["(none)"@] =~= (seq![head] + body).push("(none)"@));
        }
    }
    text::join_texts(&lines, "\n")
}

/// Listing the worktrees of a channel's project.
pub open spec fn listing_worktrees(w: Wording, channel: Seq<char>, log: Seq<Answer>, i: int) -> Path<
    Result<Seq<char>, Seq<char>>,
> {
    match flow::heard_maybe(log, i) {
        Heard::Pending => Path::Do(Act::GetChannelDirectory { channel }),
        Heard::Failed(e) => Path::Done(Err(e), i + 1),
        Heard::Value(None) => Path::Done(Err("this channel is not linked to a project"@), i + 1),
        Heard::Value(Some(project)) => match git::listing(project, log, i + 1) {
            Path::Do(a) => Path::Do(a),
            Path::Done(Err(e), n) => Path::Done(Err(e), n),
            Path::Done(Ok(found), n) => match flow::heard_worktrees(log, n) {
                Heard::Pending => Path::Do(Act::ListWorktrees { project }),
                Heard::Failed(e) => Path::Done(Err(e), n + 1),
                Heard::Value(owners) => Path::Done(
                    Ok(worktree_list(w, project, found, owners)),
                    n + 1,
                ),
            },
        },
    }
}

/// List the project's worktrees (lily-created or not) for a channel.
pub fn worktrees_text(w: Wording, channel_id: &str, log: &Vec<Reply>, from: usize) -> (r: Flow<
    Result<String, String>,
>)
    ensures
        flow::at_text(r) == listing_worktrees(
            w,
            channel_id@,
            flow::answers(log@),
            from as int,
        ),
        r matches Flow::Done(_, n) ==> n <= log@.len(),
{
    let project = match flow::got_maybe(log, from) {
        Got::Pending => return Flow::Do(
            Effect::GetChannelDirectory { channel: channel_id.to_owned() },
        ),
        Got::Failed(e) => return Flow::Done(Err(e), from + 1),
        Got::Value(None) => return Flow::Done(
            Err("this channel is not linked to a project".to_owned()),
            from + 1,
        ),
        Got::Value(Some(p)) => p,
    };
    let (found, n) = match git::list_worktrees(project.as_str(), log, from + 1) {
        Flow::Do(e) => return Flow::Do(e),
        Flow::Done(Err(e), n) => return Flow::Done(Err(e), n),
        Flow::Done(Ok(v), n) => (v, n),
    };
    match flow::got_worktrees(log, n) {
        Got::Pending => Flow::Do(Effect::ListWorktrees { project }),
        Got::Failed(e) => Flow::Done(Err(e), n + 1),
        Got::Value(owners) => Flow::Done(
            Ok(describe_worktrees(w, project.as_str(), &found, owners)),
            n + 1,
        ),
    }
}

pub open spec fn task_lines(tasks: Seq<ScheduledTask>) -> Seq<Seq<char>> {
    Seq::new(tasks.len(), |i: int| task::task_line(tasks[i]))
}

/// The list of planned and running tasks.
pub open spec fn task_list(tasks: Seq<ScheduledTask>) -> Seq<char> {
    if tasks.len() == 0 {
        "No scheduled tasks. Create one with `lily send --send-at ...`."@
    } else {
        "Scheduled tasks:\n"@ + text::join(task_lines(tasks), "\n"@)
    }
}

/// One line for each task.
pub fn describe_each(tasks: &Vec<ScheduledTask>) -> (r: Vec<String>)
    ensures
        text::texts(r@) == task_lines(tasks@),
{
    let ghost all = task_lines(tasks@);
    let mut lines: Vec<String> = Vec::new();
    let mut i: usize = 0;
    proof {
        assert(text::texts(lines@) =~= all.take(0));
    }
    while i < tasks.len()
        invariant
            i <= tasks@.len(),
            all == task_lines(tasks@),
            text::texts(lines@) == all.take(i as int),
        decreases tasks@.len() - i,
    {
        let ghost before = text::texts(lines@);
        lines.push(task::describe_task(&tasks[i]));
        proof {
            assert(text::texts(lines@) =~= before.push(lines@.last()@));
            assert(all.take(i + 1) =~= all.take(i as int).push(all[i as int]));
        }
        i = i + 1;
    }
    proof {
        assert(all.take(tasks@.len() as int) =~= all);
    }
    lines
}

/// The list of tasks, or a hint that there are none.
pub fn describe_tasks(tasks: &Vec<ScheduledTask>) -> (r: String)
    ensures
        r@ == task_list(tasks@),
{
    if tasks.len() == 0 {
        return "No scheduled tasks. Create one with `lily send --send-at ...`.".to_owned();
    }
    let lines = describe_each(tasks);
    "Scheduled tasks:\n".to_owned().concat(text::join_texts(&lines, "\n").as_str())
}

pub open spec fn listing_tasks(log: Seq<Answer>, i: int) -> Path<Result<Seq<char>, Seq<char>>> {
    match flow::heard_tasks(log, i) {
        Heard::Pending => Path::Do(Act::ListTasks),
        Heard::Failed(e) => Path::Done(Err(e), i + 1),
        Heard::Value(tasks) => Path::Done(Ok(task_list(tasks)), i + 1),
    }
}

/// List planned/running scheduled tasks.
pub fn tasks_text(log: &Vec<Reply>, from: usize) -> (r: Flow<Result<String, String>>)
    ensures
        flow::at_text(r) == listing_tasks(flow::answers(log@), from as int),
        r matches Flow::Done(_, n) ==> n <= log@.len(),
{
    match flow::got_tasks(log, from) {
        Got::Pending => Flow::Do(Effect::ListTasks),
        Got::Failed(e) => Flow::Done(Err(e), from + 1),
        Got::Value(tasks) => Flow::Done(Ok(describe_tasks(tasks)), from + 1),
    }
}

pub open spec fn cancel_text(id: int, done: bool) -> Seq<char> {
    if done {
        "Cancelled task #"@ + numbers::decimal_int(id)
    } else {
        "Task #"@ + numbers::decimal_int(id) + " is not planned or running"@
    }
}

pub open spec fn cancelling(id: int, log: Seq<Answer>, i: int) -> Path<
    Result<Seq<char>, Seq<char>>,
> {
    match flow::heard_flag(log, i) {
        Heard::Pending => Path::Do(Act::CancelTask { id }),
        Heard::Failed(e) => Path::Done(Err(e), i + 1),
        Heard::Value(done) => Path::Done(Ok(cancel_text(id, done)), i + 1),
    }
}

/// Cancel a scheduled task by id.
pub fn cancel_task_text(id: i64, log: &Vec<Reply>, from: usize) -> (r: Flow<Result<String, String>>)
    ensures
        flow::at_text(r) == cancelling(id as int, flow::answers(log@), from as int),
        r matches Flow::Done(_, n) ==> n <= log@.len(),
{
    match flow::got_flag(log, from) {
        Got::Pending => Flow::Do(Effect::CancelTask { id }),
        Got::Failed(e) => Flow::Done(Err(e), from + 1),
        Got::Value(done) => {
            let number = numbers::decimal_i64(id);
            let text = if done {
                "Cancelled task #".to_owned().concat(number.as_str())
            } else {
                "Task #".to_owned().concat(number.as_str()).concat(" is not planned or running")
            };
            Flow::Done(Ok(text), from + 1)
        },
    }
}

// ---- what holds of every worktree flow ----

/// A build only starts for a worktree with a name, in the directory that belongs to
/// it, after it was recorded as pending.
pub proof fn law_build_is_recorded(
    data_dir: Seq<char>,
    scope: Scope,
    name: Option<Seq<char>>,
    base: Option<Seq<char>>,
    log: Seq<Answer>,
    build: Build,
)
    requires
        adding_worktree(data_dir, scope, name, base, log, 0) == Path::<
            Result<Seq<char>, Seq<char>>,
        >::Do(Act::StartBuild { build }),
    ensures
        build.slug.len() > 0,
        build.directory == worktree::directory_of(data_dir, build.project, build.slug),
        build.base == base,
        exists|k: int|
            0 <= k < log.len() && #[trigger] adding_worktree(
                data_dir,
                scope,
                name,
                base,
                log.take(k),
                0,
            ) == Path::<Result<Seq<char>, Seq<char>>>::Do(
                Act::CreatePendingWorktree {
                    thread: build.thread,
                    branch: worktree::branch_of(build.slug),
                    project: build.project,
                },
            ) && log[k] is Done,
{
    let k = match scope {
        Scope::Thread(_, _) => 2int,
        Scope::Channel(_, _) => 3int,
    };
    let pre = log.take(k);
    assert(flow::heard(pre, 0) == flow::heard(log, 0));
    assert(flow::heard(pre, 1) == flow::heard(log, 1));
    assert(k == 3 ==> flow::tried(pre, 2));
    assert(flow::heard(pre, k) is Pending);
    assert(adding_worktree(data_dir, scope, name, base, pre, 0) is Do);
}

/// A thread only moves into a worktree that git has made.
pub proof fn law_moves_after_creation(job: Build, log: Seq<Answer>)
    requires
        building(job, log) matches Path::Do(a) && (a is SetWorktreeReady || a is OpenRuntime || a
            is BindSession || a is Rename),
    ensures
        git::creating(job.project, job.directory, job.slug, job.base, log, 0) matches Path::Done(
            Ok(_),
            _,
        ),
        building(job, log) matches Path::Do(Act::OpenRuntime { thread, directory }) ==> thread
            == job.thread && directory == job.directory,
{
}

/// A thread only gives its worktree up after a merge that landed.
pub proof fn law_kept_until_merged(
    thread: Seq<char>,
    title: Seq<char>,
    target: Option<Seq<char>>,
    log: Seq<Answer>,
)
    requires
        merging_back(thread, title, target, log, 0) matches Path::Do(a) && (a is DeleteWorktree || a
            is ResetSession),
    ensures
        planning(Wording::Plain, thread, target, log, 0) matches Path::Done(Ok(plan), n)
            && git::merging(
            git::job_of(plan.directory, plan.project, plan.slug, plan.target),
            log,
            n,
        ) matches Path::Done(Ok(Merge::Success { .. }), _),
{
}

/// On conflicts the agent gets the instructions in the thread itself; nothing else is
/// ever handed to it by a merge.
pub proof fn law_conflicts_go_to_agent(
    thread: Seq<char>,
    title: Seq<char>,
    target: Option<Seq<char>>,
    log: Seq<Answer>,
)
    ensures
        merging_back(thread, title, target, log, 0) matches Path::Do(
            Act::Enqueue { thread: t, message, wait },
        ) ==> t == thread && !wait && message.username == "lily"@ && exists|branch: Seq<char>|
            message.prompt == #[trigger] worktree::conflict_prompt(branch),
{
}

} // verus!
