//! What holds of the chat commands: which effects they ask for, in which order and with
//! which values, whatever the replies are.

use crate::application::commands;
use crate::application::commands::{Btw, Plan, Scope};
use crate::application::flow::{Act, Answer, Build, Path, Wording};
use crate::connector::git;
use crate::connector::git_laws;
use crate::domain::rendering;
use crate::domain::task;
use crate::domain::task::ScheduledTask;
use crate::domain::worktree;
use crate::domain::worktree::{Assignment, Merge};
use crate::numbers;
use crate::paths;
use crate::text;
use vstd::prelude::*;
use vstd::string::*;

verus! {

/// Where a command with a text as its answer stands.
pub type Saying = Path<Result<Seq<char>, Seq<char>>>;

// ---- side questions ----

/// A side question reaches the agent whole: it is asked in the thread that was made for
/// it, at once, by the user who asked, and behind the instructions stands the question
/// itself, unchanged to its last character. By then that thread has the copy of the
/// session and the directory of the request.
pub proof fn law_side_question_is_whole(w: Wording, req: Btw, log: Seq<Answer>, i: int)
    requires
        0 <= i,
    ensures
        commands::forking(w, req, log, i) matches Path::Do(
            Act::Enqueue { thread, message, wait },
        ) ==> {
            &&& log[i + 2] == Answer::Text(thread)
            &&& !wait
            &&& req.prompt.is_suffix_of(message.prompt)
            &&& message.username == req.username
            &&& message.source is None
            &&& !message.show_marker
            &&& log[i + 3] is Done
            &&& log[i + 6] is Done
        },
{
    let head = "The user asked a side question while you were working on another task.\nThis is a forked session whose ONLY goal is to answer this question.\nDo NOT continue, resume, or reference the previous task. Only answer the question below.\n\n"@;
    assert(req.prompt.is_suffix_of(head + req.prompt)) by {
        let all = head + req.prompt;
        assert(all.subrange(all.len() - req.prompt.len(), all.len() as int) =~= req.prompt);
    }
}

/// A side question goes its way step by step: the session of the thread it was asked in
/// is copied in the directory of the request, a thread named after the question is made
/// in the parent channel, that thread gets the copy and the user, is told the whole
/// question, is opened in the directory and asked. Only then the question counts as
/// asked, and the new thread is what comes back.
pub proof fn law_side_question_steps(
    w: Wording,
    req: Btw,
    session: Seq<char>,
    forked: Seq<char>,
    thread: Seq<char>,
    log: Seq<Answer>,
    i: int,
)
    requires
        0 <= i <= log.len(),
        log.len() > i ==> log[i] == Answer::Maybe(Some(session)),
        log.len() > i + 1 ==> log[i + 1] == Answer::Text(forked),
        log.len() > i + 2 ==> log[i + 2] == Answer::Text(thread),
        log.len() > i + 3 ==> log[i + 3] is Done,
        log.len() > i + 5 ==> log[i + 5] is Done,
        log.len() > i + 6 ==> log[i + 6] is Done,
    ensures
        ({
            let path = commands::forking(w, req, log, i);
            let k = log.len() - i;
            &&& k == 0 ==> path == Saying::Do(Act::GetThreadSession { thread: req.source })
            &&& k == 1 ==> path == Saying::Do(
                Act::ForkSession { directory: req.directory, session },
            )
            &&& k == 2 ==> (path matches Path::Do(Act::CreateThread { channel, from, name })
                && channel == req.parent && from is None && name == "btw: "@ + name.skip("btw: "@.len() as int)
                && {
                let shown = name.skip("btw: "@.len() as int);
                &&& shown.is_prefix_of(rendering::collapsed(req.prompt))
                &&& shown.len() <= 90
                &&& shown.len() < 90 ==> shown == rendering::collapsed(req.prompt)
            })
            &&& k == 3 ==> path == Saying::Do(Act::SetThreadSession { thread, session: forked })
            &&& k == 4 ==> path == Saying::Do(Act::AddMember { thread, user: req.user })
            &&& k == 5 ==> match path {
                Path::Do(Act::Send { thread: t, text }) => w == Wording::Plain && t == thread
                    && req.prompt.is_suffix_of(text),
                Path::Do(Act::Say { channel, text }) => w == Wording::Discord && channel == thread
                    && req.prompt.is_suffix_of(text),
                _ => false,
            }
            &&& k == 6 ==> path == Saying::Do(
                Act::OpenRuntime { thread, directory: req.directory },
            )
            &&& k == 7 ==> (path matches Path::Do(Act::Enqueue { thread: t, message, wait }) && t
                == thread && !wait && req.prompt.is_suffix_of(message.prompt) && message.username
                == req.username)
            &&& k >= 8 ==> path == Saying::Done(Ok(thread), i + 8)
        }),
{
    law_side_question_is_whole(w, req, log, i);
    let name = "btw: "@ + rendering::preview(req.prompt, 90);
    assert(name.skip("btw: "@.len() as int) =~= rendering::preview(req.prompt, 90));
    let shown = commands::btw_preamble(w, req.source, req.prompt);
    assert(shown.subrange(shown.len() - req.prompt.len(), shown.len() as int) =~= req.prompt);
    assert(req.prompt.is_suffix_of(shown));
}

/// A side question in a thread without a session is refused, and nothing is made.
pub proof fn law_side_question_needs_session(w: Wording, req: Btw, log: Seq<Answer>, i: int)
    requires
        0 <= i < log.len(),
        log[i] == Answer::Maybe(None),
    ensures
        commands::forking(w, req, log, i) == Saying::Done(
            Err("no active session in this thread"@),
            i + 1,
        ),
{
}

// ---- links ----

/// A channel is linked in two steps: the path is looked at, then stored for just that
/// channel; only then the link is confirmed, naming the directory. A path that is not
/// absolute, or no directory, is refused by name and never stored.
pub proof fn law_link_steps(channel: Seq<char>, directory: Seq<char>, log: Seq<Answer>, i: int)
    requires
        0 <= i <= log.len(),
    ensures
        ({
            let path = commands::linking(channel, directory, log, i);
            let k = log.len() - i;
            let refusal = "`"@ + directory
                + "` is not an absolute path to an existing directory on the bot's machine"@;
            &&& !paths::is_absolute(directory) ==> path == Saying::Done(Err(refusal), i)
            &&& paths::is_absolute(directory) ==> {
                &&& k == 0 ==> path == Saying::Do(Act::IsDirectory { path: directory })
                &&& k >= 1 && log[i] == Answer::Flag(false) ==> path == Saying::Done(
                    Err(refusal),
                    i + 1,
                )
                &&& k == 1 && log[i] == Answer::Flag(true) ==> path == Saying::Do(
                    Act::SetChannelDirectory { channel, directory },
                )
                &&& k >= 2 && log[i] == Answer::Flag(true) && log[i + 1] is Done ==> path
                    == Saying::Done(
                    Ok(
                        "Linked this channel to `"@ + directory
                            + "`. Send a message to start a session."@,
                    ),
                    i + 2,
                )
                &&& k >= 2 && log[i] == Answer::Flag(true) ==> (log[i + 1] matches Answer::Failed(e)
                    ==> path == Saying::Done(Err(e), i + 2))
            }
        }),
{
}

// ---- new worktrees ----

/// What is built for a request is what was asked for: on a branch of its own name, in
/// the project, from the base that was given, for the thread and its title.
pub open spec fn is_build_of(
    build: Build,
    w: Wording,
    data_dir: Seq<char>,
    project: Seq<char>,
    thread: Seq<char>,
    slug: Seq<char>,
    base: Option<Seq<char>>,
    title: Option<Seq<char>>,
) -> bool {
    &&& build.project == project
    &&& build.slug == slug
    &&& build.base == base
    &&& build.thread == thread
    &&& build.title == title
    &&& build.wording == w
    &&& build.directory == worktree::directory_of(data_dir, project, slug)
}

/// A worktree for a thread: the project of the parent channel is looked up, the
/// worktree is recorded as pending for the thread, and its build starts with just what
/// was asked for. Without a name the thread's title serves. On Discord the user is
/// answered before the build starts, elsewhere with the result.
pub proof fn law_thread_worktree_steps(
    w: Wording,
    data_dir: Seq<char>,
    thread: Seq<char>,
    title: Seq<char>,
    parent: Seq<char>,
    name: Option<Seq<char>>,
    base: Option<Seq<char>>,
    project: Seq<char>,
    log: Seq<Answer>,
    i: int,
)
    requires
        0 <= i <= log.len(),
        log.len() > i ==> log[i] == Answer::Maybe(Some(project)),
        log.len() > i + 1 ==> log[i + 1] is Done,
        w == Wording::Discord && log.len() > i + 2 ==> log[i + 2] is Done,
    ensures
        ({
            let path = commands::for_thread(
                w,
                data_dir,
                thread,
                title,
                parent,
                name,
                base,
                log,
                i,
            );
            let slug = match name {
                Some(n) => worktree::slug_for(n),
                None => worktree::compressed(worktree::slug_for(title)),
            };
            let dir = worktree::directory_of(data_dir, project, slug);
            let reply = "Creating worktree `"@ + dir + "` on branch `"@ + ("lily/"@ + slug)
                + "`..."@;
            let k = log.len() - i;
            let last = if w == Wording::Plain {
                2int
            } else {
                3int
            };
            &&& k == 0 ==> path == Saying::Do(Act::GetChannelDirectory { channel: parent })
            &&& k >= 1 && slug.len() == 0 ==> path == Saying::Done(
                Err("could not derive a worktree name; pass one explicitly"@),
                i + 1,
            )
            &&& k >= 1 && slug.len() > 0 ==> {
                &&& k == 1 ==> path == Saying::Do(
                    Act::CreatePendingWorktree { thread, branch: "lily/"@ + slug, project },
                )
                &&& k == 2 && w == Wording::Discord ==> path == Saying::Do(
                    Act::Respond { text: reply },
                )
                &&& k == last ==> (path matches Path::Do(Act::StartBuild { build }) && is_build_of(
                    build,
                    w,
                    data_dir,
                    project,
                    thread,
                    slug,
                    base,
                    Some(title),
                ))
                &&& k > last ==> path == Saying::Done(Ok(reply), i + last + 1)
            }
        }),
{
}

/// A worktree from a channel: it needs a name, a thread that carries that name behind
/// the worktree mark is made, the user joins it, and the rest is as for a thread,
/// for the thread that was made.
pub proof fn law_channel_worktree_steps(
    w: Wording,
    data_dir: Seq<char>,
    channel: Seq<char>,
    user: Seq<char>,
    name: Seq<char>,
    base: Option<Seq<char>>,
    project: Seq<char>,
    thread: Seq<char>,
    log: Seq<Answer>,
    i: int,
)
    requires
        0 <= i <= log.len(),
        log.len() > i ==> log[i] == Answer::Maybe(Some(project)),
        log.len() > i + 1 ==> log[i + 1] == Answer::Text(thread),
        log.len() > i + 3 ==> log[i + 3] is Done,
        w == Wording::Discord && log.len() > i + 4 ==> log[i + 4] is Done,
        worktree::slug_for(name).len() > 0,
    ensures
        ({
            let path = commands::for_channel(
                w,
                data_dir,
                channel,
                user,
                Some(name),
                base,
                log,
                i,
            );
            let slug = worktree::slug_for(name);
            let dir = worktree::directory_of(data_dir, project, slug);
            let reply = "Creating worktree `"@ + dir + "` on branch `"@ + ("lily/"@ + slug)
                + "`..."@;
            let k = log.len() - i;
            let last = if w == Wording::Plain {
                4int
            } else {
                5int
            };
            &&& k == 0 ==> path == Saying::Do(Act::GetChannelDirectory { channel })
            &&& k == 1 ==> path == Saying::Do(
                Act::CreateThread { channel, from: None, name: "⬦ worktree: "@ + slug },
            )
            &&& k == 2 ==> path == Saying::Do(Act::AddMember { thread, user })
            &&& k == 3 ==> path == Saying::Do(
                Act::CreatePendingWorktree { thread, branch: "lily/"@ + slug, project },
            )
            &&& k == 4 && w == Wording::Discord ==> path == Saying::Do(Act::Respond { text: reply })
            &&& k == last ==> (path matches Path::Do(Act::StartBuild { build }) && is_build_of(
                build,
                w,
                data_dir,
                project,
                thread,
                slug,
                base,
                None,
            ))
            &&& k > last ==> path == Saying::Done(Ok(reply), i + last + 1)
        }),
{
}

/// Without a name no worktree is made from a channel, and neither from a place that is
/// not linked to a project: nothing but the link is asked for.
pub proof fn law_worktree_needs(
    w: Wording,
    data_dir: Seq<char>,
    place: Seq<char>,
    other: Seq<char>,
    name: Option<Seq<char>>,
    base: Option<Seq<char>>,
    log: Seq<Answer>,
    i: int,
)
    requires
        0 <= i < log.len(),
    ensures
        log[i] is Maybe && name is None ==> (commands::for_channel(
            w,
            data_dir,
            place,
            other,
            name,
            base,
            log,
            i,
        ) matches Path::Done(Err(_), n) && n == i + 1),
        log[i] == Answer::Maybe(None) ==> (commands::for_channel(
            w,
            data_dir,
            place,
            other,
            name,
            base,
            log,
            i,
        ) matches Path::Done(Err(_), n) && n == i + 1),
        log[i] == Answer::Maybe(None) ==> (commands::for_thread(
            w,
            data_dir,
            place,
            other,
            other,
            name,
            base,
            log,
            i,
        ) matches Path::Done(Err(_), n) && n == i + 1),
{
}

/// Inside a thread the project is that of the thread's parent; in a channel it is the
/// channel's own.
pub proof fn law_worktree_scope(
    data_dir: Seq<char>,
    scope: Scope,
    name: Option<Seq<char>>,
    base: Option<Seq<char>>,
    log: Seq<Answer>,
    i: int,
)
    requires
        0 <= i <= log.len(),
    ensures
        ({
            let path = commands::adding_worktree(data_dir, scope, name, base, log, i);
            match scope {
                Scope::Thread(thread, title) => {
                    &&& log.len() == i ==> path == Saying::Do(Act::ThreadParent { thread })
                    &&& log.len() > i ==> match log[i] {
                        Answer::Maybe(Some(parent)) => path == commands::for_thread(
                            Wording::Plain,
                            data_dir,
                            thread,
                            title,
                            parent,
                            name,
                            base,
                            log,
                            i + 1,
                        ),
                        Answer::Failed(e) => path == Saying::Done(Err(e), i + 1),
                        _ => path matches Path::Done(Err(_), n) && n == i + 1,
                    }
                },
                Scope::Channel(channel, user) => path == commands::for_channel(
                    Wording::Plain,
                    data_dir,
                    channel,
                    user,
                    name,
                    base,
                    log,
                    i,
                ),
            }
        }),
{
}

/// What is said when a build has ended: in the words of the platform, in the thread.
pub open spec fn says(job: Build, p: Path<Result<(), Seq<char>>>, text: Seq<char>) -> bool {
    p == match job.wording {
        Wording::Plain => Path::<Result<(), Seq<char>>>::Do(
            Act::Send { thread: job.thread, text },
        ),
        Wording::Discord => Path::<Result<(), Seq<char>>>::Do(
            Act::Say { channel: job.thread, text },
        ),
    }
}

/// Once git has made the worktree, the thread moves into it: the worktree is recorded
/// as ready, the thread is opened in its directory, and the session the thread had is
/// copied there and bound, so that the conversation goes on in the worktree. Then the
/// title is marked, unless it is already or there is none, and the thread is told the
/// directory, which ends the build.
pub proof fn law_built_worktree_is_moved_into(
    job: Build,
    session: Option<Seq<char>>,
    forked: Seq<char>,
    log: Seq<Answer>,
    n: int,
)
    requires
        git::creating(job.project, job.directory, job.slug, job.base, log, 0) == Path::<
            Result<(), Seq<char>>,
        >::Done(Ok(()), n),
        0 <= n <= log.len(),
        log.len() > n + 1 ==> log[n + 1] == Answer::Maybe(session),
        log.len() > n + 2 ==> log[n + 2] is Done,
        session is Some && log.len() > n + 3 ==> log[n + 3] == Answer::Text(forked),
    ensures
        ({
            let path = commands::building(job, log);
            let k = log.len() - n;
            let moved = if session is Some {
                5int
            } else {
                3int
            };
            let renamed = job.title matches Some(t) && !text::starts_with(t, "⬦ worktree: "@);
            let told = if renamed {
                moved + 1
            } else {
                moved
            };
            &&& k == 0 ==> path == Path::<Result<(), Seq<char>>>::Do(
                Act::SetWorktreeReady { thread: job.thread, directory: job.directory },
            )
            &&& k == 1 ==> path == Path::<Result<(), Seq<char>>>::Do(
                Act::GetThreadSession { thread: job.thread },
            )
            &&& k == 2 ==> path == Path::<Result<(), Seq<char>>>::Do(
                Act::OpenRuntime { thread: job.thread, directory: job.directory },
            )
            &&& k == 3 ==> (session matches Some(old) ==> path == Path::<
                Result<(), Seq<char>>,
            >::Do(Act::ForkSession { directory: job.directory, session: old }))
            &&& k == 4 && session is Some ==> path == Path::<Result<(), Seq<char>>>::Do(
                Act::BindSession { thread: job.thread, session: forked },
            )
            &&& k == moved && renamed ==> path == Path::<Result<(), Seq<char>>>::Do(
                Act::Rename { thread: job.thread, name: "⬦ worktree: "@ + job.title->0 },
            )
            &&& k == told ==> says(
                job,
                path,
                "🌳 Worktree ready at `"@ + job.directory
                    + "`. New messages run in the worktree."@,
            )
            &&& k > told ==> path == Path::<Result<(), Seq<char>>>::Done(Ok(()), n + told + 1)
        }),
{
}

/// A worktree that git could not make is recorded as broken for its thread, with the
/// cause, and the thread is told the same cause; nothing moves.
pub proof fn law_failed_build_is_told(job: Build, cause: Seq<char>, log: Seq<Answer>, n: int)
    requires
        git::creating(job.project, job.directory, job.slug, job.base, log, 0) == Path::<
            Result<(), Seq<char>>,
        >::Done(Err(cause), n),
        0 <= n <= log.len(),
    ensures
        ({
            let path = commands::building(job, log);
            let k = log.len() - n;
            &&& k == 0 ==> path == Path::<Result<(), Seq<char>>>::Do(
                Act::SetWorktreeError { thread: job.thread, error: cause },
            )
            &&& k == 1 ==> says(job, path, "⚠️ Worktree creation failed: "@ + cause)
            &&& k >= 2 ==> path == Path::<Result<(), Seq<char>>>::Done(Ok(()), n + 2)
        }),
{
}

// ---- merging ----

/// What a merge works on is what the thread was given: its own worktree and project,
/// its own branch, and the target that was asked for. Only a worktree that is ready
/// can be merged, and to refuse one nothing is asked of git.
pub proof fn law_plan_is_the_assignment(
    w: Wording,
    thread: Seq<char>,
    target: Option<Seq<char>>,
    wt: Assignment,
    log: Seq<Answer>,
    i: int,
)
    requires
        0 <= i < log.len(),
        log[i] == Answer::Worktree(Some(wt)),
    ensures
        ({
            let path = commands::planning(w, thread, target, log, i);
            &&& commands::planning(w, thread, target, log.take(i), i) == Path::<
                Result<Plan, Seq<char>>,
            >::Do(Act::GetWorktree { thread })
            &&& path matches Path::Done(Ok(plan), n) ==> {
                &&& wt.status == "ready"@
                &&& wt.directory == Some(plan.directory)
                &&& plan.project == wt.project
                &&& target matches Some(t) ==> plan.target == t && n == i + 1
                &&& (forall|slug: Seq<char>|
                    wt.name == "lily/"@ + slug ==> plan.slug == slug)
            }
            &&& wt.status != "ready"@ || wt.directory is None ==> (path matches Path::Done(
                Err(_),
                n,
            ) && n == i + 1)
            &&& wt.status == "ready"@ && wt.directory is Some && target is Some ==> (path matches Path::Done(
                Ok(_),
                _,
            ))
            &&& path matches Path::Do(a) ==> target is None && (a matches Act::Git {
                directory,
                args,
            } && directory == wt.project)
        }),
{
    git_laws::lemma_prefix(log, i);
    if let Path::Done(Ok(plan), n) = commands::planning(w, thread, target, log, i) {
        assert forall|slug: Seq<char>| wt.name == "lily/"@ + slug implies plan.slug == slug by {
            let whole = "lily/"@ + slug;
            assert(whole.take("lily/"@.len() as int) =~= "lily/"@);
            assert(whole.skip("lily/"@.len() as int) =~= slug);
        }
    }
}

/// A thread without a worktree has nothing to merge.
pub proof fn law_no_worktree_no_merge(
    w: Wording,
    thread: Seq<char>,
    target: Option<Seq<char>>,
    log: Seq<Answer>,
    i: int,
)
    requires
        0 <= i < log.len(),
        log[i] == Answer::Worktree(None),
    ensures
        commands::planning(w, thread, target, log, i) matches Path::Done(Err(_), n) && n == i + 1,
{
}

/// The path of a plan is stable: later replies do not change it.
pub proof fn lemma_plan_stays(
    w: Wording,
    thread: Seq<char>,
    target: Option<Seq<char>>,
    log: Seq<Answer>,
    i: int,
    k: int,
)
    requires
        0 <= i <= log.len(),
        0 <= k <= log.len(),
    ensures
        commands::planning(w, thread, target, log, i) matches Path::Done(r, n) ==> i <= n
            <= log.len() && (n <= k ==> commands::planning(w, thread, target, log.take(k), i)
            == Path::<Result<Plan, Seq<char>>>::Done(r, n)),
{
    git_laws::lemma_prefix(log, k);
}

/// Whether a title is the mark of a worktree and `name`, with the spaces and colons
/// between them.
pub open spec fn is_marked(title: Seq<char>, name: Seq<char>) -> bool {
    exists|gap: Seq<char>|
        title == #[trigger] ("⬦ worktree:"@ + gap) + name && (forall|i: int|
            0 <= i < gap.len() ==> #[trigger] gap[i] == ' ' || gap[i] == ':') && (name.len() > 0
            ==> name[0] != ' ' && name[0] != ':')
}

/// What has to be done once a merge has landed, and that it was done: from reply `m` on
/// the worktree was given up, the thread was opened in the project and its session was
/// reset, each with success and in this order, and a marked title was taken back.
pub open spec fn was_given_up(
    asked: spec_fn(int) -> Option<Act>,
    thread: Seq<char>,
    title: Seq<char>,
    project: Seq<char>,
    log: Seq<Answer>,
    m: int,
) -> bool {
    &&& 0 <= m
    &&& m + 2 < log.len()
    &&& asked(m) == Some(Act::DeleteWorktree { thread })
    &&& log[m] is Done
    &&& asked(m + 1) == Some(Act::OpenRuntime { thread, directory: project })
    &&& log[m + 1] is Done
    &&& asked(m + 2) == Some(Act::ResetSession { thread })
    &&& log[m + 2] is Done
    &&& worktree::unmarked_title(title) matches Some(name) ==> m + 3 < log.len() && asked(m + 3)
        == Some(Act::Rename { thread, name })
}

/// The effect that a path asks for.
pub open spec fn effect_of<T>(p: Path<T>) -> Option<Act> {
    match p {
        Path::Do(a) => Some(a),
        Path::Done(_, _) => None,
    }
}

/// A merge that landed is only reported once the thread has given its worktree up: it
/// was deleted from the records, the thread runs in the project again, its session was
/// reset and its title unmarked. The report names the branch and the target.
pub proof fn law_landed_merge_is_settled(
    thread: Seq<char>,
    title: Seq<char>,
    target: Option<Seq<char>>,
    log: Seq<Answer>,
    plan: Plan,
    n: int,
    outcome: Merge,
    m: int,
)
    requires
        commands::planning(Wording::Plain, thread, target, log, 0) == Path::<
            Result<Plan, Seq<char>>,
        >::Done(Ok(plan), n),
        git::merging(
            git::job_of(plan.directory, plan.project, plan.slug, plan.target),
            log,
            n,
        ) == Path::<Result<Merge, Seq<char>>>::Done(Ok(outcome), m),
        outcome is Success,
        commands::merging_back(thread, title, target, log, 0) matches Path::Done(Ok(_), _),
    ensures
        was_given_up(
            |k: int| effect_of(commands::merging_back(thread, title, target, log.take(k), 0)),
            thread,
            title,
            plan.project,
            log,
            m,
        ),
{
    let job = git::job_of(plan.directory, plan.project, plan.slug, plan.target);
    lemma_plan_stays(Wording::Plain, thread, target, log, 0, m);
    git_laws::lemma_merge_stays(job, log, n, m);
    let asked = |k: int|
        effect_of(commands::merging_back(thread, title, target, log.take(k), 0));
    assert forall|k: int| m <= k <= log.len() && k <= m + 3 implies #[trigger] asked(k) == effect_of(
        commands::merge_landed(
            thread,
            title,
            plan.project,
            commands::merged_text(
                outcome->target,
                outcome->branch,
                outcome->commits,
                outcome->sha,
                outcome->warning,
            ),
            log.take(k),
            m,
        ),
    ) by {
        lemma_plan_stays(Wording::Plain, thread, target, log, 0, k);
        git_laws::lemma_merge_stays(job, log, n, k);
    }
    lemma_landing(
        thread,
        title,
        plan.project,
        commands::merged_text(
            outcome->target,
            outcome->branch,
            outcome->commits,
            outcome->sha,
            outcome->warning,
        ),
        log,
        m,
    );
    assert(asked(m) == Some(Act::DeleteWorktree { thread }));
    assert(asked(m + 1) == Some(Act::OpenRuntime { thread, directory: plan.project }));
    assert(asked(m + 2) == Some(Act::ResetSession { thread }));
    if let Some(name) = worktree::unmarked_title(title) {
        assert(asked(m + 3) == Some(Act::Rename { thread, name }));
    }
}

/// The steps after a merge has landed, one by one.
pub proof fn lemma_landing(
    thread: Seq<char>,
    title: Seq<char>,
    project: Seq<char>,
    reply: Seq<char>,
    log: Seq<Answer>,
    m: int,
)
    requires
        0 <= m <= log.len(),
        commands::merge_landed(thread, title, project, reply, log, m) matches Path::Done(Ok(_), _),
    ensures
        m + 2 < log.len(),
        log[m] is Done && log[m + 1] is Done && log[m + 2] is Done,
        commands::merge_landed(thread, title, project, reply, log.take(m), m) == Saying::Do(
            Act::DeleteWorktree { thread },
        ),
        commands::merge_landed(thread, title, project, reply, log.take(m + 1), m) == Saying::Do(
            Act::OpenRuntime { thread, directory: project },
        ),
        commands::merge_landed(thread, title, project, reply, log.take(m + 2), m) == Saying::Do(
            Act::ResetSession { thread },
        ),
        worktree::unmarked_title(title) matches Some(name) ==> m + 3 < log.len()
            && commands::merge_landed(thread, title, project, reply, log.take(m + 3), m)
            == Saying::Do(Act::Rename { thread, name }),
{
    git_laws::lemma_prefix(log, m);
    git_laws::lemma_prefix(log, m + 1);
    git_laws::lemma_prefix(log, m + 2);
    if m + 3 <= log.len() {
        git_laws::lemma_prefix(log, m + 3);
    }
}

/// A marked title is unmarked to the name behind the mark.
pub proof fn law_unmarked_title_is_the_name(title: Seq<char>, name: Seq<char>)
    requires
        is_marked(title, name),
    ensures
        worktree::unmarked_title(title) == Some(name),
{
    reveal_strlit("⬦ worktree: ");
    reveal_strlit("⬦ worktree:");
    let prefix = "⬦ worktree: "@;
    let mark = "⬦ worktree:"@;
    assert(prefix.drop_last() =~= mark);
    assert(text::is_whitespace(prefix.last()));
    assert(!text::is_whitespace(mark.last()));
    assert(text::trim_end(mark) == mark);
    assert(text::trim_end(prefix) == mark);
    let gap = choose|gap: Seq<char>|
        title == #[trigger] ("⬦ worktree:"@ + gap) + name && (forall|i: int|
            0 <= i < gap.len() ==> #[trigger] gap[i] == ' ' || gap[i] == ':') && (name.len() > 0
            ==> name[0] != ' ' && name[0] != ':');
    assert(title.take(mark.len() as int) =~= mark);
    assert(title.skip(mark.len() as int) =~= gap + name);
    lemma_gap(gap, name);
}

proof fn lemma_gap(gap: Seq<char>, name: Seq<char>)
    requires
        forall|i: int| 0 <= i < gap.len() ==> #[trigger] gap[i] == ' ' || gap[i] == ':',
        name.len() > 0 ==> name[0] != ' ' && name[0] != ':',
    ensures
        text::trim_start_of(gap + name, set![' ', ':']) == name,
    decreases gap.len(),
{
    if gap.len() == 0 {
        assert(gap + name =~= name);
    } else {
        assert((gap + name)[0] == gap[0]);
        assert((gap + name).drop_first() =~= gap.drop_first() + name);
        lemma_gap(gap.drop_first(), name);
    }
}

/// On conflicts the thread is opened where it runs, and the agent is asked there, at
/// once and in the name of the bot, with instructions that name the target and how to
/// go on; only then the conflict is reported.
pub proof fn law_conflict_steps(
    thread: Seq<char>,
    target: Seq<char>,
    reply: Seq<char>,
    log: Seq<Answer>,
    i: int,
    directory: Seq<char>,
    n: int,
)
    requires
        crate::application::task_runner::resolving(thread, log, i) == Saying::Done(
            Ok(directory),
            n,
        ),
        0 <= n <= log.len(),
        log.len() > n ==> log[n] is Done,
    ensures
        ({
            let path = commands::merge_stopped(thread, target, reply, log, i);
            let k = log.len() - n;
            &&& k == 0 ==> path == Saying::Do(Act::OpenRuntime { thread, directory })
            &&& k == 1 ==> (path matches Path::Do(Act::Enqueue { thread: t, message, wait }) && t
                == thread && !wait && message.username == "lily"@ && message.source is None
                && exists|rest: Seq<char>|
                message.prompt == #[trigger] ("The rebase onto `"@ + target + "`"@ + rest))
            &&& k >= 2 ==> path == Saying::Done(Ok(reply), n + 2)
        }),
{
    reveal_strlit("` stopped on conflicts. Resolve them: run `git status` to find conflicted files, understand both sides using the merge base and commit messages, edit the files to resolve every conflict marker, `git add` them, then `git rebase --continue`. Repeat until the rebase completes. Do not abort the rebase. When it is done, tell the user to run /merge-worktree again to complete the merge.");
    reveal_strlit("`");
    let tail = "` stopped on conflicts. Resolve them: run `git status` to find conflicted files, understand both sides using the merge base and commit messages, edit the files to resolve every conflict marker, `git add` them, then `git rebase --continue`. Repeat until the rebase completes. Do not abort the rebase. When it is done, tell the user to run /merge-worktree again to complete the merge."@;
    let rest = tail.skip(1);
    assert(tail =~= "`"@ + rest);
    let whole = worktree::conflict_prompt(target);
    assert(whole =~= "The rebase onto `"@ + target + "`"@ + rest);
}

// ---- lists ----

/// Every line that is joined stands in the result, between what comes before and after.
pub proof fn lemma_line_is_in_join(parts: Seq<Seq<char>>, sep: Seq<char>, j: int)
    requires
        0 <= j < parts.len(),
    ensures
        exists|a: Seq<char>, b: Seq<char>| text::join(parts, sep) == #[trigger] (a + parts[j] + b),
    decreases parts.len(),
{
    let whole = text::join(parts, sep);
    let init = parts.drop_last();
    if parts.len() == 1 {
        assert(whole =~= Seq::<char>::empty() + parts[0] + Seq::<char>::empty());
    } else if j == parts.len() - 1 {
        let a = text::join(init, sep) + sep;
        assert(whole =~= a + parts[j] + Seq::<char>::empty());
    } else {
        lemma_line_is_in_join(init, sep, j);
        let (a, b) = choose|a: Seq<char>, b: Seq<char>|
            text::join(init, sep) == #[trigger] (a + init[j] + b);
        let c = b + sep + parts.last();
        assert(whole =~= a + parts[j] + c);
    }
}

/// The thread a worktree belongs to, as it is shown: the first whose directory it is.
pub proof fn law_owner_is_shown(
    w: Wording,
    owners: Seq<Assignment>,
    path: Seq<char>,
    j: int,
)
    requires
        0 <= j < owners.len(),
        owners[j].directory == Some(path),
        forall|i: int| 0 <= i < j ==> (#[trigger] owners[i]).directory != Some(path),
    ensures
        commands::owner_of(w, owners, path) == match w {
            Wording::Plain => " — lily thread "@ + owners[j].thread + " ("@ + owners[j].status
                + ")"@,
            Wording::Discord => " — lily thread <#"@ + owners[j].thread + "> ("@ + owners[j].status
                + ")"@,
        },
    decreases owners.len(),
{
    if j > 0 {
        let rest = owners.drop_first();
        assert forall|i: int| 0 <= i < j - 1 implies (#[trigger] rest[i]).directory != Some(path) by {
            assert(rest[i] == owners[i + 1]);
        }
        law_owner_is_shown(w, rest, path, j - 1);
    }
}

/// A list of worktrees leaves none out: each stands in it with its path and its branch,
/// under the project's name.
pub proof fn law_every_worktree_is_listed(
    w: Wording,
    project: Seq<char>,
    found: Seq<(Seq<char>, Seq<char>)>,
    owners: Seq<Assignment>,
    j: int,
)
    requires
        0 <= j < found.len(),
    ensures
        exists|a: Seq<char>, b: Seq<char>|
            commands::worktree_list(w, project, found, owners) == #[trigger] (a + ("- `"@
                + found[j].0 + "` on `"@ + found[j].1 + "`"@ + commands::owner_of(
                w,
                owners,
                found[j].0,
            )) + b),
        exists|a: Seq<char>, b: Seq<char>|
            commands::worktree_list(w, project, found, owners) == #[trigger] (a + ("Worktrees for `"@
                + project + "`:"@) + b),
{
    let head = "Worktrees for `"@ + project + "`:"@;
    let body = Seq::new(found.len(), |i: int| commands::worktree_line(w, owners, found[i]));
    let parts = seq![head] + body;
    assert(parts[j + 1] == commands::worktree_line(w, owners, found[j]));
    assert(parts[0] == head);
    lemma_line_is_in_join(parts, "\n"@, j + 1);
    lemma_line_is_in_join(parts, "\n"@, 0);
}

/// A list of worktrees is that of the channel's own project: git is asked there, the
/// threads of that project are looked up, and what git found is what is listed.
pub proof fn law_worktree_list_steps(
    w: Wording,
    channel: Seq<char>,
    project: Seq<char>,
    owners: Seq<Assignment>,
    log: Seq<Answer>,
    i: int,
)
    requires
        0 <= i <= log.len(),
        log.len() > i ==> log[i] == Answer::Maybe(Some(project)),
        log.len() > i + 1 ==> (log[i + 1] matches Answer::Output(o) && o.success),
        log.len() > i + 2 ==> log[i + 2] == Answer::Worktrees(owners),
    ensures
        ({
            let path = commands::listing_worktrees(w, channel, log, i);
            let k = log.len() - i;
            &&& k == 0 ==> path == Saying::Do(Act::GetChannelDirectory { channel })
            &&& k == 1 ==> path == Saying::Do(
                Act::Git {
                    directory: project,
                    args: seq!["worktree"@, "list"@, "--porcelain"@],
                },
            )
            &&& k == 2 ==> path == Saying::Do(Act::ListWorktrees { project })
            &&& k >= 3 ==> path == Saying::Done(
                Ok(
                    commands::worktree_list(
                        w,
                        project,
                        git::listed(text::trim(log[i + 1]->Output_0.stdout)),
                        owners,
                    ),
                ),
                i + 3,
            )
        }),
{
}

/// A list of tasks leaves none out: the line of each stands in it.
pub proof fn law_every_task_is_listed(tasks: Seq<ScheduledTask>, j: int)
    requires
        0 <= j < tasks.len(),
    ensures
        exists|a: Seq<char>, b: Seq<char>|
            commands::task_list(tasks) == #[trigger] (a + task::task_line(tasks[j]) + b),
{
    let parts = commands::task_lines(tasks);
    lemma_line_is_in_join(parts, "\n"@, j);
    let (a, b) = choose|a: Seq<char>, b: Seq<char>|
        text::join(parts, "\n"@) == #[trigger] (a + parts[j] + b);
    let c = "Scheduled tasks:\n"@ + a;
    assert(commands::task_list(tasks) =~= c + task::task_line(tasks[j]) + b);
}

/// Tasks are listed from one look at the records, and a task is cancelled by its own
/// number; what is told is what was found.
pub proof fn law_task_command_steps(id: int, tasks: Seq<ScheduledTask>, log: Seq<Answer>, i: int)
    requires
        0 <= i <= log.len(),
    ensures
        log.len() == i ==> commands::listing_tasks(log, i) == Saying::Do(Act::ListTasks),
        log.len() > i && log[i] == Answer::Tasks(tasks) ==> commands::listing_tasks(log, i)
            == Saying::Done(Ok(commands::task_list(tasks)), i + 1),
        log.len() == i ==> commands::cancelling(id, log, i) == Saying::Do(Act::CancelTask { id }),
        log.len() > i && log[i] == Answer::Flag(true) ==> commands::cancelling(id, log, i)
            == Saying::Done(Ok("Cancelled task #"@ + numbers::decimal_int(id)), i + 1),
        log.len() > i && log[i] == Answer::Flag(false) ==> commands::cancelling(id, log, i)
            == Saying::Done(
            Ok("Task #"@ + numbers::decimal_int(id) + " is not planned or running"@),
            i + 1,
        ),
        log.len() > i ==> (log[i] matches Answer::Failed(e) ==> commands::cancelling(id, log, i)
            == Saying::Done(Err(e), i + 1) && commands::listing_tasks(log, i) == Saying::Done(
            Err(e),
            i + 1,
        )),
{
}

// ---- what a good end means ----

/// A side question only counts as asked where the session was copied, the thread made,
/// bound and opened, and the question handed to the agent; what comes back is that
/// thread.
pub proof fn law_side_question_ends_well(w: Wording, req: Btw, log: Seq<Answer>, i: int)
    requires
        0 <= i,
    ensures
        commands::forking(w, req, log, i) matches Path::Done(Ok(thread), n) ==> {
            &&& n == i + 8 && n <= log.len()
            &&& log[i] matches Answer::Maybe(Some(_))
            &&& log[i + 1] is Text
            &&& log[i + 2] == Answer::Text(thread)
            &&& log[i + 3] is Done
            &&& log[i + 6] is Done
        },
{
}

/// A side question that fails says why: what the platform or the backend complained
/// about is the end of what is told.
pub proof fn law_side_question_failure_is_told(
    w: Wording,
    req: Btw,
    e: Seq<char>,
    log: Seq<Answer>,
    i: int,
)
    requires
        0 <= i < log.len(),
    ensures
        log[i] == Answer::Failed(e) ==> commands::forking(w, req, log, i) == Saying::Done(
            Err(e),
            i + 1,
        ),
        log[i] matches Answer::Maybe(Some(_)) ==> i + 1 < log.len() ==> log[i + 1]
            == Answer::Failed(e) ==> (commands::forking(w, req, log, i) matches Path::Done(
            Err(told),
            n,
        ) && n == i + 2 && e.is_suffix_of(told)),
        log[i] matches Answer::Maybe(Some(_)) ==> i + 2 < log.len() ==> log[i + 1] is Text
            ==> log[i + 2] == Answer::Failed(e) ==> (commands::forking(w, req, log, i) matches Path::Done(
            Err(told),
            n,
        ) && n == i + 3 && e.is_suffix_of(told)),
{
    let a = "failed to fork session"@ + ": "@ + e;
    let b = "failed to create btw thread"@ + ": "@ + e;
    assert(a.subrange(a.len() - e.len(), a.len() as int) =~= e);
    assert(b.subrange(b.len() - e.len(), b.len() as int) =~= e);
}

/// What a merge outside Discord comes to: git works on the plan of the thread, and what
/// came out of it is what is told, or what stands in the way.
pub proof fn law_merge_back_answer(
    thread: Seq<char>,
    title: Seq<char>,
    target: Option<Seq<char>>,
    log: Seq<Answer>,
    plan: Plan,
    n: int,
    outcome: Merge,
    m: int,
)
    requires
        commands::planning(Wording::Plain, thread, target, log, 0) == Path::<
            Result<Plan, Seq<char>>,
        >::Done(Ok(plan), n),
        git::merging(
            git::job_of(plan.directory, plan.project, plan.slug, plan.target),
            log,
            n,
        ) == Path::<Result<Merge, Seq<char>>>::Done(Ok(outcome), m),
    ensures
        ({
            let path = commands::merging_back(thread, title, target, log, 0);
            match outcome {
                Merge::Success { target: t, branch, commits, sha, warning } => {
                    let head = "Merged "@ + numbers::decimal(commits) + " commit(s) from `"@
                        + branch + "` into `"@ + t + "` (now at `"@ + sha
                        + "`). Worktree removed."@;
                    path matches Path::Done(Ok(text), _) ==> text == match warning {
                        None => head,
                        Some(w) => head + ("\n⚠️ Cleanup needs attention: "@ + w),
                    }
                },
                Merge::RebaseConflict(t) => path matches Path::Done(Ok(text), _) ==> text
                    == "Rebase onto `"@ + t
                    + "` hit conflicts. Asking the agent to resolve them; run merge-worktree again once it finishes."@,
                Merge::DirtyWorktree => path == Saying::Done(
                    Ok("The worktree has uncommitted changes. Commit or stash them first."@),
                    m,
                ),
                Merge::TargetDirty(t) => path == Saying::Done(
                    Ok(
                        "`"@ + t
                            + "` is checked out with uncommitted changes in the main repo. Clean it up first."@,
                    ),
                    m,
                ),
                Merge::NothingToMerge => path == Saying::Done(Ok("No commits to merge yet."@), m),
            }
        }),
{
    if let Merge::Success { target: t, branch, commits, sha, warning } = outcome {
        let head = "Merged "@ + numbers::decimal(commits) + " commit(s) from `"@ + branch
            + "` into `"@ + t + "` (now at `"@ + sha + "`). Worktree removed."@;
        assert(head + Seq::<char>::empty() =~= head);
        let reply = commands::merged_text(t, branch, commits, sha, warning);
        assert(commands::merging_back(thread, title, target, log, 0) == commands::merge_landed(
            thread,
            title,
            plan.project,
            reply,
            log,
            m,
        ));
    }
}

/// A conflict outside Discord is only told once the agent was asked to resolve it.
pub proof fn law_conflict_ends_well(
    thread: Seq<char>,
    target: Seq<char>,
    reply: Seq<char>,
    log: Seq<Answer>,
    i: int,
)
    ensures
        commands::merge_stopped(thread, target, reply, log, i) matches Path::Done(Ok(text), e)
            ==> text == reply && (crate::application::task_runner::resolving(thread, log, i) matches Path::Done(
            Ok(_),
            n,
        ) && e == n + 2 && 0 <= n && n + 1 < log.len() && log[n] is Done),
{
}

/// A worktree is only reported as being created where it was recorded as pending and
/// its build was started.
pub proof fn law_worktree_request_ends_well(
    w: Wording,
    data_dir: Seq<char>,
    project: Seq<char>,
    thread: Seq<char>,
    slug: Seq<char>,
    base: Option<Seq<char>>,
    title: Option<Seq<char>>,
    log: Seq<Answer>,
    i: int,
)
    requires
        0 <= i,
    ensures
        commands::recording(w, data_dir, project, thread, slug, base, title, log, i) matches Path::Done(
            Ok(_),
            n,
        ) ==> {
            &&& slug.len() > 0
            &&& n <= log.len()
            &&& log[i] is Done
            &&& w == Wording::Plain ==> n == i + 2
            &&& w == Wording::Discord ==> n == i + 3 && log[i + 1] is Done
        },
{
}

} // verus!
