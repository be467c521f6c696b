//! What holds of Discord messages and slash commands: what each hands to the agent, and
//! what has happened before it is answered, whatever the replies are.

use crate::application::command_laws;
use crate::application::command_laws::Saying;
use crate::application::commands;
use crate::application::commands::{Btw, Plan};
use crate::application::flow;
use crate::application::flow::{Act, Answer, Channel, Path, Wording};
use crate::application::task_laws::Running;
use crate::application::task_runner;
use crate::connector::discord;
use crate::connector::discord::ChatMessage;
use crate::connector::git;
use crate::connector::git_laws;
use crate::connector::slash;
use crate::connector::slash::{GivenOption, SlashCommand};
use crate::domain::delivery;
use crate::domain::delivery::Delivery;
use crate::domain::rendering;
use crate::domain::session::QueueEditOutcome;
use crate::domain::worktree;
use crate::domain::worktree::Merge;
use crate::numbers;
use crate::paths;
use crate::text;
use vstd::prelude::*;
use vstd::string::*;

verus! {

/// Whether a path without an answer asks for all that another one asks for, and fails
/// where that fails.
pub open spec fn goes_along(outer: Running, inner: Saying) -> bool {
    match inner {
        Path::Do(a) => outer == Running::Do(a),
        Path::Done(Err(e), n) => outer == Running::Done(Err(e), n),
        Path::Done(Ok(_), _) => true,
    }
}

// ---- messages ----

/// A message in a thread reaches the agent of just that thread as it was written, but
/// for its suffix: with its author and its own id, so that an edit finds it, and it
/// waits for the current run exactly where it asked to be queued.
pub proof fn law_thread_message_reaches_agent(m: ChatMessage, c: Channel, log: Seq<Answer>)
    requires
        log.len() > 0,
        log[0] == Answer::Channel(c),
        c.in_guild && c.is_thread,
        delivery::parsed(m.content@).0 != Delivery::Btw,
    ensures
        discord::receiving(m, log) matches Path::Do(Act::Enqueue { thread, message, wait }) ==> {
            &&& thread == m.channel_id@
            &&& message.prompt == delivery::parsed(m.content@).1
            &&& message.username == m.author_name@
            &&& message.source == Some(m.message_id@)
            &&& !message.show_marker
            &&& wait <==> delivery::parsed(m.content@).0 == Delivery::Queue
        },
{
}

/// A message in a thread goes its way step by step: the thread is opened where it runs,
/// the agent gets the message, and one that has to wait is told its position in the
/// thread. It only ends well behind that.
pub proof fn law_thread_message_steps(
    m: ChatMessage,
    c: Channel,
    directory: Seq<char>,
    position: Option<usize>,
    log: Seq<Answer>,
    n: int,
)
    requires
        log.len() > 0,
        log[0] == Answer::Channel(c),
        c.in_guild && c.is_thread,
        task_runner::resolving(m.channel_id@, log, 1) == Saying::Done(Ok(directory), n),
        1 <= n <= log.len(),
        log.len() > n ==> log[n] is Done,
        log.len() > n + 1 ==> log[n + 1] == Answer::Position(position),
        log.len() > n + 2 ==> log[n + 2] is Done,
        delivery::parsed(m.content@).0 != Delivery::Btw,
    ensures
        ({
            let path = discord::receiving(m, log);
            let k = log.len() - n;
            let queued = delivery::parsed(m.content@).0 == Delivery::Queue;
            &&& k == 0 ==> path == Running::Do(
                Act::OpenRuntime { thread: m.channel_id@, directory },
            )
            &&& k == 1 ==> (path matches Path::Do(Act::Enqueue { thread, message, wait }) && thread
                == m.channel_id@ && message.prompt == delivery::parsed(m.content@).1 && wait
                == queued)
            &&& k == 2 ==> match position {
                Some(p) => if queued {
                    path == Running::Do(
                        Act::Say {
                            channel: m.channel_id@,
                            text: "Queued at position "@ + numbers::decimal(p as nat)
                                + ". Edit your message to update it in the queue."@,
                        },
                    )
                } else {
                    path == Running::Done(Ok(()), n + 2)
                },
                None => path == Running::Done(Ok(()), n + 2),
            }
            &&& k >= 3 ==> (path matches Path::Done(Ok(_), _))
        }),
{
}

/// A side question in a thread is asked with the whole of its prompt, for its author,
/// in the directory of the thread; the thread itself gets nothing of it.
pub proof fn law_thread_side_question(
    m: ChatMessage,
    c: Channel,
    parent: Seq<char>,
    directory: Seq<char>,
    log: Seq<Answer>,
    n: int,
)
    requires
        log.len() > 0,
        log[0] == Answer::Channel(c),
        c.in_guild && c.is_thread,
        c.parent == Some(parent),
        task_runner::resolving(m.channel_id@, log, 1) == Saying::Done(Ok(directory), n),
        1 <= n < log.len(),
        log[n] is Done,
        delivery::parsed(m.content@).0 == Delivery::Btw,
    ensures
        ({
            let path = discord::receiving(m, log);
            let asked = commands::forking(
                Wording::Discord,
                Btw {
                    source: m.channel_id@,
                    parent,
                    directory,
                    prompt: delivery::parsed(m.content@).1,
                    user: m.author_id@,
                    username: m.author_name@,
                },
                log,
                n + 1,
            );
            &&& goes_along(path, asked)
            &&& asked matches Path::Done(Ok(_), e) ==> path == Running::Done(Ok(()), e)
            &&& path matches Path::Do(Act::Enqueue { thread, message, wait }) ==> {
                &&& log[n + 3] == Answer::Text(thread)
                &&& !wait
                &&& delivery::parsed(m.content@).1.is_suffix_of(message.prompt)
                &&& message.username == m.author_name@
            }
        }),
{
    command_laws::law_side_question_is_whole(
        Wording::Discord,
        Btw {
            source: m.channel_id@,
            parent,
            directory,
            prompt: delivery::parsed(m.content@).1,
            user: m.author_id@,
            username: m.author_name@,
        },
        log,
        n + 1,
    );
}

/// A message in a linked channel starts a session of its own: a thread is made from the
/// message, named as the message begins, its author joins it, it is opened in the
/// channel's project and the agent gets the message there at once. In a channel that is
/// not linked nothing happens.
pub proof fn law_channel_message_steps(
    m: ChatMessage,
    c: Channel,
    directory: Seq<char>,
    thread: Seq<char>,
    log: Seq<Answer>,
)
    requires
        log.len() > 0 ==> log[0] == Answer::Channel(c),
        c.in_guild && !c.is_thread,
        log.len() > 1 ==> log[1] == Answer::Maybe(Some(directory)),
        log.len() > 2 ==> log[2] == Answer::Text(thread),
        log.len() > 4 ==> log[4] is Done,
    ensures
        ({
            let path = discord::receiving(m, log);
            let prompt = delivery::parsed(m.content@).1;
            &&& log.len() == 0 ==> path == Running::Do(Act::FetchChannel { channel: m.channel_id@ })
            &&& log.len() == 1 ==> path == Running::Do(
                Act::GetChannelDirectory { channel: m.channel_id@ },
            )
            &&& log.len() == 2 ==> (path matches Path::Do(Act::CreateThread { channel, from, name })
                && channel == m.channel_id@ && from == Some(m.message_id@) && if rendering::collapsed(
                prompt,
            ).len() == 0 {
                name == "session"@
            } else {
                name.len() > 0 && name.len() <= 80 && name.is_prefix_of(rendering::collapsed(prompt))
                    && (name.len() < 80 ==> name == rendering::collapsed(prompt))
            })
            &&& log.len() == 3 ==> path == Running::Do(
                Act::AddMember { thread, user: m.author_id@ },
            )
            &&& log.len() == 4 ==> path == Running::Do(Act::OpenRuntime { thread, directory })
            &&& log.len() == 5 ==> (path matches Path::Do(Act::Enqueue { thread: t, message, wait })
                && t == thread && !wait && message.prompt == prompt && message.username
                == m.author_name@ && message.source == Some(m.message_id@) && !message.show_marker)
            &&& log.len() >= 6 ==> path == Running::Done(Ok(()), 6)
        }),
{
}

/// A message in a channel that is not linked is left alone.
pub proof fn law_unlinked_channel_is_quiet(m: ChatMessage, c: Channel, log: Seq<Answer>)
    requires
        log.len() > 1,
        log[0] == Answer::Channel(c),
        c.in_guild && !c.is_thread,
        log[1] == Answer::Maybe(None),
    ensures
        discord::receiving(m, log) == Running::Done(Ok(()), 2),
{
}

/// An edited message in a thread is looked up in just that thread's queue, by its own id
/// and with its new text as it is; where it was found, the thread is told who changed
/// what.
pub proof fn law_edit_steps(
    channel: Seq<char>,
    message: Seq<char>,
    username: Seq<char>,
    content: Seq<char>,
    c: Channel,
    directory: Seq<char>,
    outcome: QueueEditOutcome,
    log: Seq<Answer>,
    n: int,
)
    requires
        log.len() > 0,
        log[0] == Answer::Channel(c),
        c.in_guild && c.is_thread,
        task_runner::resolving(channel, log, 1) == Saying::Done(Ok(directory), n),
        1 <= n <= log.len(),
        log.len() > n ==> log[n] is Done,
        log.len() > n + 1 ==> log[n + 1] == Answer::Edited(outcome),
    ensures
        ({
            let path = discord::editing(channel, message, username, content, log);
            let k = log.len() - n;
            &&& k == 0 ==> path == Running::Do(Act::OpenRuntime { thread: channel, directory })
            &&& k == 1 ==> path == Running::Do(
                Act::EditQueued { thread: channel, source: message, content },
            )
            &&& k >= 2 && outcome == QueueEditOutcome::NotFound ==> path == Running::Done(
                Ok(()),
                n + 2,
            )
            &&& k == 2 && outcome == QueueEditOutcome::Updated ==> path == Running::Do(
                Act::Say {
                    channel,
                    text: "⬦ **"@ + username + "** "@ + "edited queued message"@,
                },
            )
            &&& k == 2 && outcome == QueueEditOutcome::Removed ==> path == Running::Do(
                Act::Say {
                    channel,
                    text: "⬦ **"@ + username + "** "@ + "removed message from queue"@,
                },
            )
        }),
{
}

// ---- slash commands ----

/// The names of the commands are told apart.
proof fn lemma_names()
    ensures
        "queue"@ != "add-project"@,
        "clear-queue"@ != "add-project"@ && "clear-queue"@ != "queue"@,
        "btw"@ != "add-project"@ && "btw"@ != "queue"@ && "btw"@ != "clear-queue"@,
        "new-worktree"@ != "add-project"@ && "new-worktree"@ != "queue"@ && "new-worktree"@
            != "clear-queue"@ && "new-worktree"@ != "btw"@,
        "merge-worktree"@ != "add-project"@ && "merge-worktree"@ != "queue"@ && "merge-worktree"@
            != "clear-queue"@ && "merge-worktree"@ != "btw"@ && "merge-worktree"@
            != "new-worktree"@,
        "worktrees"@ != "add-project"@ && "worktrees"@ != "queue"@ && "worktrees"@
            != "clear-queue"@ && "worktrees"@ != "btw"@ && "worktrees"@ != "new-worktree"@
            && "worktrees"@ != "merge-worktree"@,
        "tasks"@ != "add-project"@ && "tasks"@ != "queue"@ && "tasks"@ != "clear-queue"@
            && "tasks"@ != "btw"@ && "tasks"@ != "new-worktree"@ && "tasks"@ != "merge-worktree"@
            && "tasks"@ != "worktrees"@,
        "cancel-task"@ != "add-project"@ && "cancel-task"@ != "queue"@ && "cancel-task"@
            != "clear-queue"@ && "cancel-task"@ != "btw"@ && "cancel-task"@ != "new-worktree"@
            && "cancel-task"@ != "merge-worktree"@ && "cancel-task"@ != "worktrees"@
            && "cancel-task"@ != "tasks"@,
{
    reveal_strlit("add-project");
    reveal_strlit("queue");
    reveal_strlit("clear-queue");
    reveal_strlit("btw");
    reveal_strlit("new-worktree");
    reveal_strlit("merge-worktree");
    reveal_strlit("worktrees");
    reveal_strlit("tasks");
    reveal_strlit("cancel-task");
    assert("add-project"@.len() == 11 && "add-project"@[0] == 'a');
    assert("clear-queue"@.len() == 11 && "clear-queue"@[0] == 'c' && "clear-queue"@[1] == 'l');
    assert("cancel-task"@.len() == 11 && "cancel-task"@[0] == 'c' && "cancel-task"@[1] == 'a');
    assert("queue"@.len() == 5 && "queue"@[0] == 'q');
    assert("tasks"@.len() == 5 && "tasks"@[0] == 't');
    assert("btw"@.len() == 3 && "new-worktree"@.len() == 12 && "merge-worktree"@.len() == 14
        && "worktrees"@.len() == 9);
}

/// Whether an option is the first with its name among those that hold a text.
pub open spec fn is_first_text(options: Seq<GivenOption>, name: Seq<char>, j: int) -> bool {
    &&& 0 <= j < options.len()
    &&& options[j].name@ == name && options[j].value is Text
    &&& forall|i: int|
        0 <= i < j ==> !((#[trigger] options[i]).name@ == name && options[i].value is Text)
}

/// An option is found by its name and its kind, and its value is taken as it is.
pub proof fn law_option_is_found(c: SlashCommand, name: Seq<char>)
    ensures
        forall|j: int|
            is_first_text(c.options@, name, j) ==> c.text_of(name) == Some(
                (#[trigger] c.options@[j]).value->Text_0@,
            ),
        (forall|i: int|
            0 <= i < c.options@.len() ==> !((#[trigger] c.options@[i]).name@ == name
                && c.options@[i].value is Text)) ==> c.text_of(name) is None,
        c.integer_of(name) matches Some(v) ==> exists|j: int|
            0 <= j < c.options@.len() && (#[trigger] c.options@[j]).name@ == name
                && c.options@[j].value is Integer && c.options@[j].value->Integer_0 == v,
        c.integer_of(name) is None ==> forall|j: int|
            0 <= j < c.options@.len() ==> !((#[trigger] c.options@[j]).name@ == name
                && c.options@[j].value is Integer),
{
    assert forall|j: int| is_first_text(c.options@, name, j) implies c.text_of(name) == Some(
        (#[trigger] c.options@[j]).value->Text_0@,
    ) by {
        lemma_text_option(c.options@, name, 0, j);
    }
    lemma_no_text_option(c.options@, name, 0);
    lemma_integer_option(c.options@, name, 0);
}

proof fn lemma_text_option(options: Seq<GivenOption>, name: Seq<char>, i: int, j: int)
    requires
        is_first_text(options, name, j),
        0 <= i <= j,
    ensures
        slash::text_option(options, name, i) == Some(options[j].value->Text_0@),
    decreases j - i,
{
    if i < j {
        assert(!(options[i].name@ == name && options[i].value is Text));
        lemma_text_option(options, name, i + 1, j);
    }
}

proof fn lemma_no_text_option(options: Seq<GivenOption>, name: Seq<char>, i: int)
    requires
        0 <= i,
    ensures
        (forall|j: int|
            0 <= j < options.len() ==> !((#[trigger] options[j]).name@ == name
                && options[j].value is Text)) ==> slash::text_option(options, name, i) is None,
    decreases options.len() - i,
{
    if i < options.len() {
        lemma_no_text_option(options, name, i + 1);
    }
}

proof fn lemma_integer_option(options: Seq<GivenOption>, name: Seq<char>, i: int)
    requires
        0 <= i,
    ensures
        slash::integer_option(options, name, i) matches Some(v) ==> exists|j: int|
            i <= j < options.len() && (#[trigger] options[j]).name@ == name
                && options[j].value is Integer && options[j].value->Integer_0 == v,
        slash::integer_option(options, name, i) is None ==> forall|j: int|
            i <= j < options.len() ==> !((#[trigger] options[j]).name@ == name
                && options[j].value is Integer),
    decreases options.len() - i,
{
    if i < options.len() && !(options[i].name@ == name && options[i].value is Integer) {
        lemma_integer_option(options, name, i + 1);
    }
}

/// `/queue` hands its message to the thread it was given in, whole and behind the
/// current run, in the name of its user, and answers with the position, or that nothing
/// was going on. Without a message, or outside a thread, nothing is queued.
pub proof fn law_queue_command(
    c: SlashCommand,
    data_dir: Seq<char>,
    message: Seq<char>,
    here: Channel,
    directory: Seq<char>,
    position: Option<usize>,
    log: Seq<Answer>,
    n: int,
)
    requires
        c.name@ == "queue"@,
        c.text_of("message"@) == Some(message),
        log.len() > 0,
        log[0] == Answer::Channel(here),
        here.in_guild && here.is_thread,
        task_runner::resolving(c.channel_id@, log, 1) == Saying::Done(Ok(directory), n),
        1 <= n <= log.len(),
        log.len() > n ==> log[n] is Done,
        log.len() > n + 1 ==> log[n + 1] == Answer::Position(position),
        log.len() > n + 2 ==> log[n + 2] is Done,
    ensures
        ({
            let path = slash::commanding(c, data_dir, log);
            let k = log.len() - n;
            &&& k == 0 ==> path == Running::Do(
                Act::OpenRuntime { thread: c.channel_id@, directory },
            )
            &&& k == 1 ==> (path matches Path::Do(Act::Enqueue { thread, message: q, wait })
                && thread == c.channel_id@ && wait && q.prompt == message && q.username
                == c.username@ && q.source is None && !q.show_marker)
            &&& k == 2 ==> path == Running::Do(
                Act::Respond {
                    text: match position {
                        Some(p) => "Queued message (position "@ + numbers::decimal(p as nat) + ")"@,
                        None => "Session was idle; message sent immediately."@,
                    },
                },
            )
            &&& k >= 3 ==> path == Running::Done(Ok(()), n + 3)
        }),
{
    lemma_names();
}

/// `/clear-queue` clears the queue of the thread it was given in: all of it, or the
/// position that was named, and answers with what is gone.
pub proof fn law_clear_command(
    c: SlashCommand,
    data_dir: Seq<char>,
    here: Channel,
    directory: Seq<char>,
    removed: usize,
    log: Seq<Answer>,
    n: int,
)
    requires
        c.name@ == "clear-queue"@,
        log.len() > 0,
        log[0] == Answer::Channel(here),
        here.in_guild && here.is_thread,
        task_runner::resolving(c.channel_id@, log, 1) == Saying::Done(Ok(directory), n),
        1 <= n <= log.len(),
        log.len() > n ==> log[n] is Done,
        log.len() > n + 1 ==> log[n + 1] == Answer::Count(removed),
        log.len() > n + 2 ==> log[n + 2] is Done,
    ensures
        ({
            let path = slash::commanding(c, data_dir, log);
            let k = log.len() - n;
            let given = c.integer_of("position"@);
            &&& k == 0 ==> path == Running::Do(
                Act::OpenRuntime { thread: c.channel_id@, directory },
            )
            &&& k == 1 ==> (path matches Path::Do(Act::ClearQueue { thread, position }) && thread
                == c.channel_id@ && match given {
                None => position is None,
                Some(v) => position is Some && (0 <= v <= usize::MAX ==> position == Some(
                    v as usize,
                )) && (v < 0 ==> position == Some(0usize)),
            })
            &&& k == 2 && given is None ==> path == Running::Do(
                Act::Respond {
                    text: "Cleared "@ + numbers::decimal(removed as nat) + " queued message(s)"@,
                },
            )
            &&& k == 2 ==> (given matches Some(v) ==> (0 <= v <= usize::MAX ==> path == Running::Do(
                Act::Respond {
                    text: "Cleared queued message at position "@ + numbers::decimal(v as nat),
                },
            )))
            &&& k >= 3 ==> path == Running::Done(Ok(()), n + 3)
        }),
{
    lemma_names();
}

/// A command for a thread does nothing elsewhere, and a command that needs a value does
/// nothing without it.
pub proof fn law_misplaced_command_does_nothing(
    c: SlashCommand,
    data_dir: Seq<char>,
    here: Channel,
    log: Seq<Answer>,
)
    requires
        log.len() > 0,
        log[0] == Answer::Channel(here),
        here.in_guild && !here.is_thread,
    ensures
        c.name@ == "queue"@ || c.name@ == "clear-queue"@ || c.name@ == "btw"@ || c.name@
            == "merge-worktree"@ ==> (slash::commanding(c, data_dir, log) matches Path::Done(
            Err(_),
            n,
        ) && n <= 1),
        c.name@ == "queue"@ && c.text_of("message"@) is None ==> slash::commanding(c, data_dir, log)
            == Running::Done(Err("message is required"@), 0),
        c.name@ == "btw"@ && c.text_of("prompt"@) is None ==> slash::commanding(c, data_dir, log)
            == Running::Done(Err("prompt is required"@), 0),
        c.name@ == "add-project"@ && c.text_of("directory"@) is None ==> slash::commanding(
            c,
            data_dir,
            log,
        ) == Running::Done(Err("directory is required"@), 0),
        c.name@ == "cancel-task"@ && c.integer_of("id"@) is None ==> slash::commanding(
            c,
            data_dir,
            log,
        ) == Running::Done(Err("id is required"@), 0),
{
    lemma_names();
}

/// `/btw` asks its prompt as a side question of the thread it was given in, for its
/// user and in the thread's directory, and then points to the new thread.
pub proof fn law_btw_command(
    c: SlashCommand,
    data_dir: Seq<char>,
    prompt: Seq<char>,
    here: Channel,
    parent: Seq<char>,
    directory: Seq<char>,
    log: Seq<Answer>,
    n: int,
)
    requires
        c.name@ == "btw"@,
        c.text_of("prompt"@) == Some(prompt),
        log.len() > 0,
        log[0] == Answer::Channel(here),
        here.in_guild && here.is_thread,
        here.parent == Some(parent),
        task_runner::resolving(c.channel_id@, log, 1) == Saying::Done(Ok(directory), n),
        1 <= n <= log.len(),
        log.len() > n ==> log[n] is Done,
    ensures
        ({
            let path = slash::commanding(c, data_dir, log);
            let asked = commands::forking(
                Wording::Discord,
                Btw {
                    source: c.channel_id@,
                    parent,
                    directory,
                    prompt,
                    user: c.user_id@,
                    username: c.username@,
                },
                log,
                n + 1,
            );
            &&& log.len() == n ==> path == Running::Do(Act::Defer)
            &&& log.len() > n ==> {
                &&& goes_along(path, asked)
                &&& asked matches Path::Done(Ok(thread), e) ==> {
                    &&& log.len() == e ==> path == Running::Do(
                        Act::Followup {
                            text: "Session forked! Continue in <#"@ + thread + ">"@,
                        },
                    )
                    &&& 0 <= e < log.len() && log[e] is Done ==> path == Running::Done(
                        Ok(()),
                        e + 1,
                    )
                }
                &&& path matches Path::Do(Act::Enqueue { thread, message, wait }) ==> {
                    &&& log[n + 3] == Answer::Text(thread)
                    &&& !wait
                    &&& prompt.is_suffix_of(message.prompt)
                    &&& message.username == c.username@
                }
            }
        }),
{
    lemma_names();
    command_laws::law_side_question_is_whole(
        Wording::Discord,
        Btw {
            source: c.channel_id@,
            parent,
            directory,
            prompt,
            user: c.user_id@,
            username: c.username@,
        },
        log,
        n + 1,
    );
}

/// `/add-project` links just the channel it was given in to the directory that was
/// named, once that was found on the machine; the topic names it too, and then the link
/// is confirmed. A thread is never linked.
pub proof fn law_add_project_command(
    c: SlashCommand,
    data_dir: Seq<char>,
    directory: Seq<char>,
    here: Channel,
    log: Seq<Answer>,
)
    requires
        c.name@ == "add-project"@,
        c.text_of("directory"@) == Some(directory),
        paths::is_absolute(directory),
        log.len() > 0 ==> log[0] == Answer::Flag(true),
        log.len() > 1 ==> log[1] == Answer::Channel(here),
        log.len() > 2 ==> log[2] is Done,
        log.len() > 4 ==> log[4] is Done,
        here.in_guild,
    ensures
        ({
            let path = slash::commanding(c, data_dir, log);
            &&& log.len() == 0 ==> path == Running::Do(Act::IsDirectory { path: directory })
            &&& log.len() == 1 ==> path == Running::Do(Act::FetchChannel { channel: c.channel_id@ })
            &&& log.len() >= 2 && here.is_thread ==> (path matches Path::Done(Err(_), n) && n == 2)
            &&& !here.is_thread ==> {
                &&& log.len() == 2 ==> path == Running::Do(
                    Act::SetChannelDirectory { channel: c.channel_id@, directory },
                )
                &&& log.len() == 3 ==> path == Running::Do(
                    Act::SetTopic {
                        channel: c.channel_id@,
                        topic: "<lily><directory>"@ + directory + "</directory></lily>"@,
                    },
                )
                &&& log.len() == 4 ==> path == Running::Do(
                    Act::Respond {
                        text: "Linked this channel to `"@ + directory
                            + "`. Send a message to start a session."@,
                    },
                )
                &&& log.len() >= 5 ==> path == Running::Done(Ok(()), 5)
            }
        }),
{
    lemma_names();
}

/// A directory that was not found on the machine is not linked.
pub proof fn law_add_project_is_checked(c: SlashCommand, data_dir: Seq<char>, log: Seq<Answer>)
    requires
        c.name@ == "add-project"@,
    ensures
        slash::commanding(c, data_dir, log) matches Path::Do(
            Act::SetChannelDirectory { channel, directory },
        ) ==> {
            &&& channel == c.channel_id@
            &&& c.text_of("directory"@) == Some(directory)
            &&& paths::is_absolute(directory)
            &&& log[0] == Answer::Flag(true)
            &&& log[1] matches Answer::Channel(here) && here.in_guild && !here.is_thread
        },
{
    lemma_names();
}

/// `/new-worktree` makes a worktree with the name and the base that were given: in a
/// thread for that thread and under its title, in a channel for a new thread of its
/// user.
pub proof fn law_new_worktree_command(
    c: SlashCommand,
    data_dir: Seq<char>,
    here: Channel,
    log: Seq<Answer>,
)
    requires
        c.name@ == "new-worktree"@,
        log.len() > 0,
        log[0] == Answer::Channel(here),
        here.in_guild,
    ensures
        !here.is_thread ==> ({
            let made = commands::for_channel(
                Wording::Discord,
                data_dir,
                c.channel_id@,
                c.user_id@,
                c.text_of("name"@),
                c.text_of("base-branch"@),
                log,
                1,
            );
            let path = slash::commanding(c, data_dir, log);
            goes_along(path, made) && (made matches Path::Done(Ok(_), e) ==> path == Running::Done(
                Ok(()),
                e,
            ))
        }),
        here.is_thread ==> (here.parent matches Some(parent) ==> ({
            let made = commands::for_thread(
                Wording::Discord,
                data_dir,
                c.channel_id@,
                here.name,
                parent,
                c.text_of("name"@),
                c.text_of("base-branch"@),
                log,
                1,
            );
            let path = slash::commanding(c, data_dir, log);
            goes_along(path, made) && (made matches Path::Done(Ok(_), e) ==> path == Running::Done(
                Ok(()),
                e,
            ))
        })),
{
    lemma_names();
}

/// `/worktrees` answers with the list of the channel's project, of the parent channel's
/// in a thread; `/tasks` and `/cancel-task` answer with what was found.
pub proof fn law_list_commands(
    c: SlashCommand,
    data_dir: Seq<char>,
    here: Channel,
    place: Seq<char>,
    log: Seq<Answer>,
)
    requires
        log.len() > 0,
    ensures
        c.name@ == "worktrees"@ && log[0] == Answer::Channel(here) && here.in_guild && (
        if here.is_thread {
            here.parent == Some(place)
        } else {
            place == c.channel_id@
        }) ==> answers(
            slash::commanding(c, data_dir, log),
            commands::listing_worktrees(Wording::Discord, place, log, 1),
            log,
        ),
        c.name@ == "tasks"@ ==> answers(
            slash::commanding(c, data_dir, log),
            commands::listing_tasks(log, 0),
            log,
        ),
        c.name@ == "cancel-task"@ ==> (c.integer_of("id"@) matches Some(id) ==> answers(
            slash::commanding(c, data_dir, log),
            commands::cancelling(id as int, log, 0),
            log,
        )),
{
    lemma_names();
}

/// Whether a command asks for what another path asks for, and then answers the user
/// with just the text that comes out of it.
pub open spec fn answers(outer: Running, inner: Saying, log: Seq<Answer>) -> bool {
    &&& goes_along(outer, inner)
    &&& inner matches Path::Done(Ok(text), n) ==> {
        &&& log.len() == n ==> outer == Running::Do(Act::Respond { text })
        &&& 0 <= n < log.len() && log[n] is Done ==> outer == Running::Done(Ok(()), n + 1)
        &&& 0 <= n < log.len() ==> (log[n] matches Answer::Failed(e) ==> outer == Running::Done(
            Err(e),
            n + 1,
        ))
    }
}

// ---- merging ----

/// What `/merge-worktree` works on: the thread it was given in, under its title, with
/// the target that was named; it is announced once there is something to merge, and
/// then git gets to work on the thread's own worktree.
pub proof fn law_merge_command_steps(
    c: SlashCommand,
    data_dir: Seq<char>,
    here: Channel,
    plan: Plan,
    log: Seq<Answer>,
    n: int,
)
    requires
        c.name@ == "merge-worktree"@,
        log.len() > 0,
        log[0] == Answer::Channel(here),
        here.in_guild && here.is_thread,
        commands::planning(
            Wording::Discord,
            c.channel_id@,
            c.text_of("target-branch"@),
            log,
            1,
        ) == Path::<Result<Plan, Seq<char>>>::Done(Ok(plan), n),
        1 <= n <= log.len(),
    ensures
        ({
            let path = slash::commanding(c, data_dir, log);
            let merged = git::merging(
                git::job_of(plan.directory, plan.project, plan.slug, plan.target),
                log,
                n + 1,
            );
            &&& log.len() == n ==> path == Running::Do(Act::Defer)
            &&& log.len() > n && log[n] is Done ==> match merged {
                Path::Do(a) => path == Running::Do(a),
                Path::Done(Err(e), m) => path == Running::Done(Err(e), m),
                Path::Done(Ok(_), _) => true,
            }
        }),
{
    lemma_names();
}

/// The effect that a merge asks for after `k` replies.
pub open spec fn merge_asks(
    c: SlashCommand,
    data_dir: Seq<char>,
    log: Seq<Answer>,
) -> spec_fn(int) -> Option<Act> {
    |k: int| command_laws::effect_of(slash::commanding(c, data_dir, log.take(k)))
}

/// A merge that landed is only answered once the thread has given its worktree up: the
/// worktree was deleted from the records, the thread was opened in the project, its
/// session was reset and a marked title was taken back, in this order and with success.
pub proof fn law_landed_merge_is_settled(
    c: SlashCommand,
    data_dir: Seq<char>,
    here: Channel,
    plan: Plan,
    log: Seq<Answer>,
    n: int,
    outcome: Merge,
    m: int,
)
    requires
        c.name@ == "merge-worktree"@,
        log.len() > 0,
        log[0] == Answer::Channel(here),
        here.in_guild && here.is_thread,
        commands::planning(
            Wording::Discord,
            c.channel_id@,
            c.text_of("target-branch"@),
            log,
            1,
        ) == Path::<Result<Plan, Seq<char>>>::Done(Ok(plan), n),
        0 <= n < log.len() && log[n] is Done,
        git::merging(
            git::job_of(plan.directory, plan.project, plan.slug, plan.target),
            log,
            n + 1,
        ) == Path::<Result<Merge, Seq<char>>>::Done(Ok(outcome), m),
        outcome is Success,
        (slash::commanding(c, data_dir, log) matches Path::Do(Act::Followup { text })) || (
        slash::commanding(c, data_dir, log) matches Path::Done(Ok(_), _)),
    ensures
        command_laws::was_given_up(
            merge_asks(c, data_dir, log),
            c.channel_id@,
            here.name,
            plan.project,
            log,
            m,
        ),
{
    lemma_names();
    let thread = c.channel_id@;
    let target = c.text_of("target-branch"@);
    let job = git::job_of(plan.directory, plan.project, plan.slug, plan.target);
    let reply = commands::merged_text(
        outcome->target,
        outcome->branch,
        outcome->commits,
        outcome->sha,
        outcome->warning,
    );
    command_laws::lemma_plan_stays(Wording::Discord, thread, target, log, 1, m);
    git_laws::lemma_merge_stays(job, log, n + 1, m);
    let landed = commands::merge_landed(thread, here.name, plan.project, reply, log, m);
    assert(slash::commanding(c, data_dir, log) == slash::following_up(landed, log));
    assert(landed matches Path::Done(Ok(_), _));
    command_laws::lemma_landing(thread, here.name, plan.project, reply, log, m);
    let asked = merge_asks(c, data_dir, log);
    assert forall|k: int| m <= k <= log.len() && k <= m + 3 && (commands::merge_landed(
        thread,
        here.name,
        plan.project,
        reply,
        log.take(k),
        m,
    ) is Do) implies #[trigger] asked(k) == command_laws::effect_of(
        commands::merge_landed(thread, here.name, plan.project, reply, log.take(k), m),
    ) by {
        git_laws::lemma_prefix(log, k);
        command_laws::lemma_plan_stays(Wording::Discord, thread, target, log, 1, k);
        git_laws::lemma_merge_stays(job, log, n + 1, k);
        assert(flow::heard(log.take(k), 0) == flow::heard(log, 0));
        assert(flow::heard(log.take(k), n) == flow::heard(log, n));
    }
    assert(asked(m) == Some(Act::DeleteWorktree { thread }));
    assert(asked(m + 1) == Some(Act::OpenRuntime { thread, directory: plan.project }));
    assert(asked(m + 2) == Some(Act::ResetSession { thread }));
    if let Some(name) = worktree::unmarked_title(here.name) {
        assert(asked(m + 3) == Some(Act::Rename { thread, name }));
    }
}

/// Whenever the user is told that something was merged, the thread has given its
/// worktree up by then, and runs in the project that the worktree was made for.
pub proof fn law_merged_is_told_last(c: SlashCommand, data_dir: Seq<char>, log: Seq<Answer>)
    requires
        c.name@ == "merge-worktree"@,
        slash::commanding(c, data_dir, log) matches Path::Do(Act::Followup { text }) && text.len()
            > 0 && text[0] == 'M',
    ensures
        log[0] is Channel,
        log[1] matches Answer::Worktree(Some(wt)) && exists|m: int|
            #[trigger] command_laws::was_given_up(
                merge_asks(c, data_dir, log),
                c.channel_id@,
                log[0]->Channel_0.name,
                wt.project,
                log,
                m,
            ),
{
    lemma_names();
    let thread = c.channel_id@;
    let target = c.text_of("target-branch"@);
    let here = log[0]->Channel_0;
    let planned = commands::planning(Wording::Discord, thread, target, log, 1);
    command_laws::lemma_plan_stays(Wording::Discord, thread, target, log, 1, log.len() as int);
    assert(planned matches Path::Done(Ok(_), _));
    let plan = planned->Done_0->Ok_0;
    let n = planned->Done_1;
    let job = git::job_of(plan.directory, plan.project, plan.slug, plan.target);
    if n < log.len() {
        git_laws::lemma_merge_stays(job, log, n + 1, log.len() as int);
    }
    assert(git::merging(job, log, n + 1) matches Path::Done(Ok(_), _));
    let outcome = git::merging(job, log, n + 1)->Done_0->Ok_0;
    let m = git::merging(job, log, n + 1)->Done_1;
    lemma_only_success_says_merged(thread, here.name, plan.project, outcome, log, m);
    law_landed_merge_is_settled(c, data_dir, here, plan, log, n, outcome, m);
}

/// Only a merge that landed is told with the word for it.
proof fn lemma_only_success_says_merged(
    thread: Seq<char>,
    title: Seq<char>,
    project: Seq<char>,
    outcome: Merge,
    log: Seq<Answer>,
    m: int,
)
    requires
        slash::merge_told(thread, title, project, outcome, log, m) matches Path::Do(
            Act::Followup { text },
        ) && text.len() > 0 && text[0] == 'M',
    ensures
        outcome is Success,
{
    reveal_strlit("Rebase onto `");
    reveal_strlit("The worktree has uncommitted changes. Commit or stash them first.");
    reveal_strlit("`");
    reveal_strlit("No commits to merge yet.");
    match outcome {
        Merge::RebaseConflict(target) => {
            assert(commands::conflict_text(Wording::Discord, target)[0] == 'R');
        },
        Merge::TargetDirty(target) => {
            assert(commands::target_dirty_text(target)[0] == '`');
        },
        _ => {},
    }
}

/// What a merge is answered with is what came out of it: how many commits went from the
/// branch to the target and where that is now, with what could not be cleaned up; that
/// the agent is asked about conflicts; or what stands in the way.
pub proof fn law_merge_answer(
    thread: Seq<char>,
    title: Seq<char>,
    project: Seq<char>,
    outcome: Merge,
    log: Seq<Answer>,
    m: int,
)
    requires
        0 <= m <= log.len(),
    ensures
        slash::merge_told(thread, title, project, outcome, log, m) matches Path::Do(
            Act::Followup { text },
        ) ==> match outcome {
            Merge::Success { target, branch, commits, sha, warning } => {
                let head = "Merged "@ + numbers::decimal(commits) + " commit(s) from `"@ + branch
                    + "` into `"@ + target + "` (now at `"@ + sha + "`). Worktree removed."@;
                text == match warning {
                    None => head,
                    Some(w) => head + ("\n⚠️ Cleanup needs attention: "@ + w),
                }
            },
            Merge::RebaseConflict(target) => text == "Rebase onto `"@ + target
                + "` hit conflicts. Asking the agent to resolve them; run /merge-worktree again once it finishes."@,
            Merge::DirtyWorktree => text
                == "The worktree has uncommitted changes. Commit or stash them first."@,
            Merge::TargetDirty(target) => text == "`"@ + target
                + "` is checked out with uncommitted changes in the main repo. Clean it up first."@,
            Merge::NothingToMerge => text == "No commits to merge yet."@,
        },
        !(outcome is Success) && log.len() == m ==> (slash::merge_told(
            thread,
            title,
            project,
            outcome,
            log,
            m,
        ) matches Path::Do(Act::Followup { text })),
        !(outcome is Success) && !(outcome is RebaseConflict) ==> (slash::merge_told(
            thread,
            title,
            project,
            outcome,
            log,
            m,
        ) matches Path::Do(a) ==> a is Followup),
{
    if let Merge::Success { target, branch, commits, sha, warning } = outcome {
        let head = "Merged "@ + numbers::decimal(commits) + " commit(s) from `"@ + branch
            + "` into `"@ + target + "` (now at `"@ + sha + "`). Worktree removed."@;
        assert(head + Seq::<char>::empty() =~= head);
    }
}

/// After conflicts were told, the agent gets to resolve them in the thread: it is
/// opened where it runs, and gets the instructions at once.
pub proof fn law_conflict_command_steps(
    thread: Seq<char>,
    title: Seq<char>,
    project: Seq<char>,
    target: Seq<char>,
    directory: Seq<char>,
    log: Seq<Answer>,
    m: int,
    n: int,
)
    requires
        0 <= m < log.len(),
        log[m] is Done,
        task_runner::resolving(thread, log, m + 1) == Saying::Done(Ok(directory), n),
        m < n <= log.len(),
        log.len() > n ==> log[n] is Done,
    ensures
        ({
            let path = slash::merge_told(
                thread,
                title,
                project,
                Merge::RebaseConflict(target),
                log,
                m,
            );
            let k = log.len() - n;
            &&& k == 0 ==> path == Running::Do(Act::OpenRuntime { thread, directory })
            &&& k == 1 ==> (path matches Path::Do(Act::Enqueue { thread: t, message, wait }) && t
                == thread && !wait && message.username == "lily"@ && message.prompt
                == worktree::conflict_prompt(target))
            &&& k >= 2 ==> path == Running::Done(Ok(()), n + 2)
        }),
{
}

/// Once a merge has landed, step by step: the worktree is given up in the records, the
/// thread is opened in the project, its session is reset, a marked title is taken back,
/// and only then the user is told.
pub proof fn law_landed_merge_steps(
    thread: Seq<char>,
    title: Seq<char>,
    project: Seq<char>,
    outcome: Merge,
    log: Seq<Answer>,
    m: int,
)
    requires
        outcome is Success,
        0 <= m <= log.len(),
        log.len() > m ==> log[m] is Done,
        log.len() > m + 1 ==> log[m + 1] is Done,
        log.len() > m + 2 ==> log[m + 2] is Done,
    ensures
        ({
            let path = slash::merge_told(thread, title, project, outcome, log, m);
            let k = log.len() - m;
            let told = if worktree::unmarked_title(title) is Some {
                4int
            } else {
                3int
            };
            &&& k == 0 ==> path == Running::Do(Act::DeleteWorktree { thread })
            &&& k == 1 ==> path == Running::Do(Act::OpenRuntime { thread, directory: project })
            &&& k == 2 ==> path == Running::Do(Act::ResetSession { thread })
            &&& k == 3 ==> (worktree::unmarked_title(title) matches Some(name) ==> path
                == Running::Do(Act::Rename { thread, name }))
            &&& k == told ==> (path matches Path::Do(Act::Followup { text }))
            &&& k > told && log[m + told] is Done ==> path == Running::Done(Ok(()), m + told + 1)
        }),
{
}

/// A merge that landed is not told where one of the steps after it failed: the failure
/// is what comes out.
pub proof fn law_failed_landing_is_told(
    thread: Seq<char>,
    title: Seq<char>,
    project: Seq<char>,
    outcome: Merge,
    e: Seq<char>,
    log: Seq<Answer>,
    m: int,
    j: int,
)
    requires
        outcome is Success,
        0 <= m <= j <= m + 2,
        j < log.len(),
        forall|i: int| m <= i < j ==> (#[trigger] log[i]) is Done,
        log[j] == Answer::Failed(e),
    ensures
        slash::merge_told(thread, title, project, outcome, log, m) == Running::Done(Err(e), j + 1),
{
    if m < j {
        assert(log[m] is Done);
    }
    if m + 1 < j {
        assert(log[m + 1] is Done);
    }
}

// ---- what a good end means ----

/// A message in a thread only ends well where the thread could be opened where it runs,
/// and the message was handed to the agent: no failure on the way passes for success.
pub proof fn law_thread_message_ends_well(m: ChatMessage, c: Channel, log: Seq<Answer>)
    requires
        log.len() > 0,
        log[0] == Answer::Channel(c),
        c.in_guild && c.is_thread,
        discord::receiving(m, log) matches Path::Done(Ok(_), _),
    ensures
        task_runner::resolving(m.channel_id@, log, 1) matches Path::Done(Ok(_), n) && n + 1
            < log.len() && log[n] is Done && (delivery::parsed(m.content@).0 == Delivery::Queue
            ==> log[n + 1] is Position),
{
}

/// A message in a channel ends well where the channel is not linked, or else only where
/// its thread was made and opened and the message was handed to the agent there.
pub proof fn law_channel_message_ends_well(m: ChatMessage, c: Channel, log: Seq<Answer>)
    requires
        log.len() > 0,
        log[0] == Answer::Channel(c),
        c.in_guild && !c.is_thread,
        discord::receiving(m, log) matches Path::Done(Ok(_), _),
    ensures
        log.len() > 1 && log[1] is Maybe,
        log[1] != Answer::Maybe(None) ==> log.len() >= 6 && log[2] is Text && log[4] is Done,
{
}

/// A command only ends well behind an answer that reached the user, and `/queue`,
/// `/clear-queue` and `/add-project` only where what they are for was done.
pub proof fn law_command_ends_well(c: SlashCommand, data_dir: Seq<char>, log: Seq<Answer>)
    requires
        slash::commanding(c, data_dir, log) matches Path::Done(Ok(_), _),
    ensures
        c.name@ == "queue"@ ==> (task_runner::resolving(c.channel_id@, log, 1) matches Path::Done(
            Ok(_),
            n,
        ) && n + 2 < log.len() && log[n] is Done && log[n + 1] is Position && log[n + 2] is Done),
        c.name@ == "clear-queue"@ ==> (task_runner::resolving(c.channel_id@, log, 1) matches Path::Done(
            Ok(_),
            n,
        ) && n + 2 < log.len() && log[n] is Done && log[n + 1] is Count && log[n + 2] is Done),
        c.name@ == "add-project"@ ==> log.len() >= 5 && log[0] == Answer::Flag(true)
            && log[1] is Channel && log[2] is Done && log[4] is Done,
        c.name@ == "tasks"@ ==> log.len() >= 2 && log[0] is Tasks && log[1] is Done,
        c.name@ == "cancel-task"@ ==> log.len() >= 2 && log[0] is Flag && log[1] is Done,
{
    lemma_names();
}

/// A place that cannot be looked up, or that is not on a server, is an error for every
/// message, and the cause is told.
pub proof fn law_unknown_place_is_an_error(m: ChatMessage, log: Seq<Answer>)
    requires
        log.len() > 0,
    ensures
        log[0] matches Answer::Failed(e) ==> discord::receiving(m, log) == Running::Done(
            Err("failed to fetch channel"@ + ": "@ + e),
            1,
        ),
        log[0] matches Answer::Channel(c) ==> !c.in_guild ==> discord::receiving(m, log)
            == Running::Done(Err("not a guild channel"@), 1),
{
}

} // verus!
