//! What holds of Matrix messages and commands: what each hands to the agent and where
//! it is answered, whatever the replies are.

use crate::application::command_laws;
use crate::application::command_laws::Saying;
use crate::application::commands;
use crate::application::commands::{Btw, Scope};
use crate::application::flow::{Act, Answer, Path, Wording};
use crate::application::task_laws::Running;
use crate::application::task_runner;
use crate::connector::discord_laws;
use crate::connector::matrix;
use crate::connector::matrix::{Origin, Relation, RoomMessage};
use crate::domain::delivery;
use crate::domain::delivery::Delivery;
use crate::domain::session::QueueEditOutcome;
use crate::numbers;
use crate::text;
use vstd::prelude::*;
use vstd::string::*;

verus! {

// ---- messages ----

/// A message in a thread reaches the agent of just that thread as it was written, but
/// for its suffix: with its author and its own event, so that an edit finds it, and it
/// waits for the current run exactly where it asked to be queued.
pub proof fn law_thread_message_reaches_agent(
    m: RoomMessage,
    data_dir: Seq<char>,
    root: String,
    body: String,
    log: Seq<Answer>,
)
    requires
        m.relation == (Relation::Thread { root, body: Some(body) }),
        body@.len() == 0 || body@[0] != '!',
        delivery::parsed(body@).0 != Delivery::Btw,
    ensures
        matrix::receiving(m, data_dir, log) matches Path::Do(
            Act::Enqueue { thread, message, wait },
        ) ==> {
            &&& thread == m.room_id@.push('|') + root@
            &&& message.prompt == delivery::parsed(body@).1
            &&& message.username == m.username@
            &&& message.source == Some(m.event_id@)
            &&& !message.show_marker
            &&& wait <==> delivery::parsed(body@).0 == Delivery::Queue
        },
{
    lemma_no_command(body@);
}

/// A text is a command exactly where it starts with an exclamation mark.
proof fn lemma_no_command(body: Seq<char>)
    ensures
        body.len() == 0 || body[0] != '!' ==> text::after_prefix(body, "!"@) is None,
        body.len() > 0 && body[0] == '!' ==> text::after_prefix(body, "!"@) == Some(
            body.drop_first(),
        ),
{
    reveal_strlit("!");
    if body.len() > 0 {
        assert(body.take(1) =~= seq![body[0]]);
        assert("!"@ =~= seq!['!']);
        assert(body.skip(1) =~= body.drop_first());
        if body[0] != '!' {
            assert(body.take(1)[0] != "!"@[0]);
        }
    }
}

/// A message in a thread goes its way step by step: the thread is opened where it runs,
/// the agent gets the message, and one that has to wait is told its position in the
/// thread.
pub proof fn law_thread_message_steps(
    m: RoomMessage,
    data_dir: Seq<char>,
    root: String,
    body: String,
    directory: Seq<char>,
    position: Option<usize>,
    log: Seq<Answer>,
    n: int,
)
    requires
        m.relation == (Relation::Thread { root, body: Some(body) }),
        body@.len() == 0 || body@[0] != '!',
        delivery::parsed(body@).0 != Delivery::Btw,
        task_runner::resolving(m.room_id@.push('|') + root@, log, 0) == Saying::Done(
            Ok(directory),
            n,
        ),
        0 <= n <= log.len(),
        log.len() > n ==> log[n] is Done,
        log.len() > n + 1 ==> log[n + 1] == Answer::Position(position),
        log.len() > n + 2 ==> log[n + 2] is Done,
    ensures
        ({
            let path = matrix::receiving(m, data_dir, log);
            let thread = m.room_id@.push('|') + root@;
            let queued = delivery::parsed(body@).0 == Delivery::Queue;
            let k = log.len() - n;
            &&& k == 0 ==> path == Running::Do(Act::OpenRuntime { thread, directory })
            &&& k == 1 ==> (path matches Path::Do(Act::Enqueue { thread: t, message, wait }) && t
                == thread && wait == queued && message.prompt == delivery::parsed(body@).1)
            &&& k == 2 ==> match position {
                Some(p) => if queued {
                    path == Running::Do(
                        Act::Send {
                            thread,
                            text: "Queued at position "@ + numbers::decimal(p as nat)
                                + ". Edit your message to update it in the queue."@,
                        },
                    )
                } else {
                    path == Running::Done(Ok(()), n + 2)
                },
                None => path == Running::Done(Ok(()), n + 2),
            }
            &&& k >= 3 ==> (path matches Path::Done(Ok(_), _))
        }),
{
    lemma_no_command(body@);
}

/// A side question in a thread is asked with the whole of its prompt, for its author,
/// in the directory of the thread and in a new thread of the room.
pub proof fn law_thread_side_question(
    m: RoomMessage,
    data_dir: Seq<char>,
    root: String,
    body: String,
    directory: Seq<char>,
    log: Seq<Answer>,
    n: int,
)
    requires
        m.relation == (Relation::Thread { root, body: Some(body) }),
        body@.len() == 0 || body@[0] != '!',
        delivery::parsed(body@).0 == Delivery::Btw,
        task_runner::resolving(m.room_id@.push('|') + root@, log, 0) == Saying::Done(
            Ok(directory),
            n,
        ),
        0 <= n < log.len(),
        log[n] is Done,
    ensures
        ({
            let path = matrix::receiving(m, data_dir, log);
            let asked = commands::forking(
                Wording::Plain,
                Btw {
                    source: m.room_id@.push('|') + root@,
                    parent: m.room_id@,
                    directory,
                    prompt: delivery::parsed(body@).1,
                    user: m.sender@,
                    username: m.username@,
                },
                log,
                n + 1,
            );
            &&& discord_laws::goes_along(path, asked)
            &&& asked matches Path::Done(Ok(_), e) ==> path == Running::Done(Ok(()), e)
            &&& path matches Path::Do(Act::Enqueue { thread, message, wait }) ==> {
                &&& log[n + 3] == Answer::Text(thread)
                &&& !wait
                &&& delivery::parsed(body@).1.is_suffix_of(message.prompt)
                &&& message.username == m.username@
            }
        }),
{
    lemma_no_command(body@);
    command_laws::law_side_question_is_whole(
        Wording::Plain,
        Btw {
            source: m.room_id@.push('|') + root@,
            parent: m.room_id@,
            directory,
            prompt: delivery::parsed(body@).1,
            user: m.sender@,
            username: m.username@,
        },
        log,
        n + 1,
    );
}

/// A message in a linked room starts a session of its own, in the thread under just that
/// message: it is opened in the room's project, and the agent gets the message at once.
pub proof fn law_room_message_steps(
    m: RoomMessage,
    data_dir: Seq<char>,
    body: String,
    directory: Seq<char>,
    log: Seq<Answer>,
)
    requires
        m.relation == (Relation::Room { body: Some(body) }),
        body@.len() == 0 || body@[0] != '!',
        log.len() > 0 ==> log[0] == Answer::Maybe(Some(directory)),
        log.len() > 1 ==> log[1] is Done,
    ensures
        ({
            let path = matrix::receiving(m, data_dir, log);
            let thread = m.room_id@.push('|') + m.event_id@;
            &&& log.len() == 0 ==> path == Running::Do(
                Act::GetChannelDirectory { channel: m.room_id@ },
            )
            &&& log.len() == 1 ==> path == Running::Do(Act::OpenRuntime { thread, directory })
            &&& log.len() == 2 ==> (path matches Path::Do(Act::Enqueue { thread: t, message, wait })
                && t == thread && !wait && message.prompt == delivery::parsed(body@).1
                && message.username == m.username@ && message.source == Some(m.event_id@)
                && !message.show_marker)
            &&& log.len() >= 3 ==> path == Running::Done(Ok(()), 3)
        }),
{
    lemma_no_command(body@);
}

/// An edit is looked up among all that waits, by the message it replaces and with its
/// new text as it is; where it was found, that thread is told who changed what.
pub proof fn law_edit_steps(
    m: RoomMessage,
    data_dir: Seq<char>,
    original: String,
    body: String,
    found: Option<(Seq<char>, QueueEditOutcome)>,
    log: Seq<Answer>,
)
    requires
        m.relation == (Relation::Replacement { original, body: Some(body) }),
        log.len() > 0 ==> log[0] == Answer::EditedIn(found),
        log.len() > 1 ==> log[1] is Done,
    ensures
        ({
            let path = matrix::receiving(m, data_dir, log);
            &&& log.len() == 0 ==> path == Running::Do(
                Act::EditAnyQueued { source: original@, content: body@ },
            )
            &&& log.len() >= 1 ==> match found {
                None => path == Running::Done(Ok(()), 1),
                Some((thread, QueueEditOutcome::NotFound)) => path == Running::Done(Ok(()), 1),
                Some((thread, QueueEditOutcome::Updated)) => log.len() == 1 ==> path
                    == Running::Do(
                    Act::Send {
                        thread,
                        text: "⬦ **"@ + m.username@ + "** "@ + "edited queued message"@,
                    },
                ),
                Some((thread, QueueEditOutcome::Removed)) => log.len() == 1 ==> path
                    == Running::Do(
                    Act::Send {
                        thread,
                        text: "⬦ **"@ + m.username@ + "** "@ + "removed message from queue"@,
                    },
                ),
            }
            &&& log.len() >= 2 ==> (path matches Path::Done(Ok(_), _))
        }),
{
}

/// A message without text does nothing, wherever it is.
pub proof fn law_empty_message_does_nothing(
    m: RoomMessage,
    data_dir: Seq<char>,
    log: Seq<Answer>,
)
    requires
        match m.relation {
            Relation::Replacement { original, body } => body is None,
            Relation::Thread { root, body } => body is None,
            Relation::Room { body } => body is None,
        },
    ensures
        matrix::receiving(m, data_dir, log) == Running::Done(Ok(()), 0),
{
}

// ---- commands ----

/// Where a command was given: by whom, in which room, and in which thread of it.
pub open spec fn given_in(
    m: RoomMessage,
    thread: Option<Seq<char>>,
    data_dir: Seq<char>,
) -> Origin {
    Origin {
        room: m.room_id@,
        thread,
        sender: m.sender@,
        username: m.username@,
        data_dir,
    }
}

/// A text behind an exclamation mark is a command, never a message for the agent; it is
/// answered where it was given, with just what comes out of it: in the thread, or in the
/// room itself.
pub proof fn law_command_is_answered_in_place(
    m: RoomMessage,
    data_dir: Seq<char>,
    root: String,
    body: String,
    log: Seq<Answer>,
)
    requires
        body@.len() > 0 && body@[0] == '!',
        m.relation == (Relation::Thread { root, body: Some(body) }) || m.relation == (
        Relation::Room { body: Some(body) }),
    ensures
        ({
            let path = matrix::receiving(m, data_dir, log);
            let thread = if m.relation is Room {
                None
            } else {
                Some(m.room_id@.push('|') + root@)
            };
            let place = match thread {
                Some(t) => t,
                None => m.room_id@,
            };
            let made = matrix::commanding(
                given_in(m, thread, data_dir),
                body@.drop_first(),
                log,
                0,
            );
            &&& discord_laws::goes_along(path, made)
            &&& made matches Path::Done(Ok(text), n) ==> {
                &&& log.len() == n ==> path == Running::Do(Act::Send { thread: place, text })
                &&& 0 <= n < log.len() && log[n] is Done ==> path == Running::Done(Ok(()), n + 1)
            }
        }),
{
    lemma_no_command(body@);
}

/// A command is its first word, and what stands behind it is taken whole, but for the
/// whitespace around it.
pub proof fn law_command_is_its_first_word(cmd: Seq<char>, gap: char, rest: Seq<char>)
    requires
        text::is_whitespace(gap),
        forall|i: int| 0 <= i < cmd.len() ==> !text::is_whitespace(#[trigger] cmd[i]),
    ensures
        matrix::command_parts(cmd.push(gap) + rest) == (cmd, text::trim(rest)),
        matrix::command_parts(cmd).0 == text::trim(cmd) && matrix::command_parts(cmd).1.len() == 0,
{
    let input = cmd.push(gap) + rest;
    lemma_gap(input, 0, cmd.len() as int);
    assert(input.take(cmd.len() as int) =~= cmd);
    assert(input.skip(cmd.len() as int + 1) =~= rest);
    lemma_no_gap(cmd, 0);
}

proof fn lemma_gap(s: Seq<char>, i: int, p: int)
    requires
        0 <= i <= p < s.len(),
        text::is_whitespace(s[p]),
        forall|j: int| i <= j < p ==> !text::is_whitespace(#[trigger] s[j]),
    ensures
        matrix::gap_from(s, i) == Some(p),
    decreases p - i,
{
    if i < p {
        lemma_gap(s, i + 1, p);
    }
}

proof fn lemma_no_gap(s: Seq<char>, i: int)
    requires
        0 <= i,
        forall|j: int| i <= j < s.len() ==> !text::is_whitespace(#[trigger] s[j]),
    ensures
        matrix::gap_from(s, i) is None,
    decreases s.len() - i,
{
    if i < s.len() {
        lemma_no_gap(s, i + 1);
    }
}

/// The names of the commands are told apart.
proof fn lemma_names()
    ensures
        "queue"@ != "add-project"@,
        "clear"@ != "add-project"@ && "clear"@ != "queue"@,
        "btw"@ != "add-project"@ && "btw"@ != "queue"@ && "btw"@ != "clear"@,
        "worktree"@ != "add-project"@ && "worktree"@ != "queue"@ && "worktree"@ != "clear"@
            && "worktree"@ != "btw"@,
        "list-worktrees"@ != "add-project"@ && "list-worktrees"@ != "queue"@ && "list-worktrees"@
            != "clear"@ && "list-worktrees"@ != "btw"@ && "list-worktrees"@ != "worktree"@,
        "tasks"@ != "add-project"@ && "tasks"@ != "queue"@ && "tasks"@ != "clear"@ && "tasks"@
            != "btw"@ && "tasks"@ != "worktree"@ && "tasks"@ != "list-worktrees"@,
        "delete-task"@ != "add-project"@ && "delete-task"@ != "queue"@ && "delete-task"@
            != "clear"@ && "delete-task"@ != "btw"@ && "delete-task"@ != "worktree"@
            && "delete-task"@ != "list-worktrees"@ && "delete-task"@ != "tasks"@,
{
    reveal_strlit("add-project");
    reveal_strlit("queue");
    reveal_strlit("clear");
    reveal_strlit("btw");
    reveal_strlit("worktree");
    reveal_strlit("list-worktrees");
    reveal_strlit("tasks");
    reveal_strlit("delete-task");
    assert("add-project"@.len() == 11 && "add-project"@[0] == 'a');
    assert("delete-task"@.len() == 11 && "delete-task"@[0] == 'd');
    assert("queue"@.len() == 5 && "queue"@[0] == 'q');
    assert("clear"@.len() == 5 && "clear"@[0] == 'c');
    assert("tasks"@.len() == 5 && "tasks"@[0] == 't');
    assert("btw"@.len() == 3 && "worktree"@.len() == 8 && "list-worktrees"@.len() == 14);
}

/// `!queue` hands all that stands behind it to the thread, behind the current run and in
/// the name of its sender, and answers with the position, or that nothing was going on.
pub proof fn law_queue_command(
    o: Origin,
    input: Seq<char>,
    message: Seq<char>,
    thread: Seq<char>,
    directory: Seq<char>,
    position: Option<usize>,
    log: Seq<Answer>,
    n: int,
)
    requires
        matrix::command_parts(input) == ("queue"@, message),
        message.len() > 0,
        o.thread == Some(thread),
        task_runner::resolving(thread, log, 0) == Saying::Done(Ok(directory), n),
        0 <= n <= log.len(),
        log.len() > n ==> log[n] is Done,
        log.len() > n + 1 ==> log[n + 1] == Answer::Position(position),
    ensures
        ({
            let path = matrix::commanding(o, input, log, 0);
            let k = log.len() - n;
            &&& k == 0 ==> path == Saying::Do(Act::OpenRuntime { thread, directory })
            &&& k == 1 ==> (path matches Path::Do(Act::Enqueue { thread: t, message: q, wait })
                && t == thread && wait && q.prompt == message && q.username == o.username
                && q.source is None && !q.show_marker)
            &&& k >= 2 ==> path == Saying::Done(
                Ok(
                    match position {
                        Some(p) => "Queued message (position "@ + numbers::decimal(p as nat) + ")"@,
                        None => "Session was idle; message sent immediately."@,
                    },
                ),
                n + 2,
            )
        }),
{
    lemma_names();
}

/// `!clear` clears the queue of the thread: all of it, or the position that stands
/// behind it, and answers with what is gone. What is no position clears nothing.
pub proof fn law_clear_command(
    o: Origin,
    input: Seq<char>,
    args: Seq<char>,
    thread: Seq<char>,
    directory: Seq<char>,
    removed: usize,
    log: Seq<Answer>,
    n: int,
)
    requires
        matrix::command_parts(input) == ("clear"@, args),
        o.thread == Some(thread),
        task_runner::resolving(thread, log, 0) == Saying::Done(Ok(directory), n),
        0 <= n <= log.len(),
        log.len() > n ==> log[n] is Done,
        log.len() > n + 1 ==> log[n + 1] == Answer::Count(removed),
    ensures
        ({
            let path = matrix::commanding(o, input, log, 0);
            let k = log.len() - n;
            &&& args.len() == 0 ==> {
                &&& k == 0 ==> path == Saying::Do(Act::OpenRuntime { thread, directory })
                &&& k == 1 ==> path == Saying::Do(Act::ClearQueue { thread, position: None })
                &&& k >= 2 ==> path == Saying::Done(
                    Ok("Cleared "@ + numbers::decimal(removed as nat) + " queued message(s)"@),
                    n + 2,
                )
            }
            &&& args.len() > 0 ==> match numbers::unsigned_value(args, usize::MAX as nat) {
                Ok(p) => {
                    &&& k == 0 ==> path == Saying::Do(Act::OpenRuntime { thread, directory })
                    &&& k == 1 ==> path == Saying::Do(
                        Act::ClearQueue { thread, position: Some(p as usize) },
                    )
                },
                Err(e) => path == Saying::Done(Err(e.text()), 0),
            }
        }),
{
    lemma_names();
}

/// `!btw` asks all that stands behind it as a side question of the thread, for its
/// sender, in the thread's directory and in a new thread of the room.
pub proof fn law_btw_command(
    o: Origin,
    input: Seq<char>,
    prompt: Seq<char>,
    thread: Seq<char>,
    directory: Seq<char>,
    log: Seq<Answer>,
    n: int,
)
    requires
        matrix::command_parts(input) == ("btw"@, prompt),
        prompt.len() > 0,
        o.thread == Some(thread),
        task_runner::resolving(thread, log, 0) == Saying::Done(Ok(directory), n),
        0 <= n <= log.len(),
    ensures
        ({
            let path = matrix::commanding(o, input, log, 0);
            let asked = commands::forking(
                Wording::Plain,
                Btw {
                    source: thread,
                    parent: o.room,
                    directory,
                    prompt,
                    user: o.sender,
                    username: o.username,
                },
                log,
                n,
            );
            &&& asked matches Path::Do(a) ==> path == Saying::Do(a)
            &&& asked matches Path::Done(Err(e), k) ==> path == Saying::Done(Err(e), k)
            &&& asked matches Path::Done(Ok(_), k) ==> path == Saying::Done(
                Ok("Session forked! Continue in the new btw thread."@),
                k,
            )
            &&& path matches Path::Do(Act::Enqueue { thread: t, message, wait }) ==> {
                &&& log[n + 2] == Answer::Text(t)
                &&& !wait
                &&& prompt.is_suffix_of(message.prompt)
                &&& message.username == o.username
            }
        }),
{
    lemma_names();
    command_laws::law_side_question_is_whole(
        Wording::Plain,
        Btw {
            source: thread,
            parent: o.room,
            directory,
            prompt,
            user: o.sender,
            username: o.username,
        },
        log,
        n,
    );
}

/// The other commands do for the place they were given in what they do everywhere:
/// link the room, make a worktree with the name and the base that stand behind the
/// command, list the room's worktrees or the tasks, or cancel the task with that number.
pub proof fn law_other_commands(o: Origin, input: Seq<char>, args: Seq<char>, log: Seq<Answer>)
    ensures
        matrix::command_parts(input) == ("add-project"@, args) && args.len() > 0
            ==> matrix::commanding(o, input, log, 0) == commands::linking(o.room, args, log, 0),
        matrix::command_parts(input) == ("worktree"@, args) ==> ({
            let words = text::words(args);
            let name = if words.len() > 0 {
                Some(words[0])
            } else {
                None
            };
            let base = if words.len() > 1 {
                Some(words[1])
            } else {
                None
            };
            let scope = match o.thread {
                Some(t) => Scope::Thread(
                    t,
                    match name {
                        Some(n) => n,
                        None => "worktree"@,
                    },
                ),
                None => Scope::Channel(o.room, o.sender),
            };
            matrix::commanding(o, input, log, 0) == commands::adding_worktree(
                o.data_dir,
                scope,
                name,
                base,
                log,
                0,
            )
        }),
        matrix::command_parts(input) == ("list-worktrees"@, args) ==> matrix::commanding(
            o,
            input,
            log,
            0,
        ) == commands::listing_worktrees(Wording::Plain, o.room, log, 0),
        matrix::command_parts(input) == ("tasks"@, args) ==> matrix::commanding(o, input, log, 0)
            == commands::listing_tasks(log, 0),
        matrix::command_parts(input) == ("delete-task"@, args) ==> match numbers::signed_value(
            args,
        ) {
            Ok(id) => matrix::commanding(o, input, log, 0) == commands::cancelling(id, log, 0),
            Err(_) => matrix::commanding(o, input, log, 0) matches Path::Done(Err(_), n) && n == 0,
        },
{
    lemma_names();
}

/// A command that needs a value, or a thread, does nothing without it.
pub proof fn law_misplaced_command_does_nothing(o: Origin, input: Seq<char>, log: Seq<Answer>)
    ensures
        ({
            let (cmd, args) = matrix::command_parts(input);
            let needs_value = cmd == "add-project"@ || cmd == "queue"@ || cmd == "btw"@;
            let needs_thread = cmd == "queue"@ || cmd == "clear"@ || cmd == "btw"@;
            (needs_value && args.len() == 0) || (needs_thread && o.thread is None)
                ==> (matrix::commanding(o, input, log, 0) matches Path::Done(Err(_), n) && n == 0)
        }),
{
    lemma_names();
}

// ---- what a good end means ----

/// A message in a thread only ends well where the thread could be opened where it runs
/// and the message was handed to the agent.
pub proof fn law_thread_message_ends_well(
    m: RoomMessage,
    data_dir: Seq<char>,
    root: String,
    body: String,
    log: Seq<Answer>,
)
    requires
        m.relation == (Relation::Thread { root, body: Some(body) }),
        body@.len() == 0 || body@[0] != '!',
        matrix::receiving(m, data_dir, log) matches Path::Done(Ok(_), _),
    ensures
        task_runner::resolving(m.room_id@.push('|') + root@, log, 0) matches Path::Done(Ok(_), n)
            && n + 1 < log.len() && log[n] is Done && (delivery::parsed(body@).0 == Delivery::Queue
            ==> log[n + 1] is Position),
{
    lemma_no_command(body@);
}

/// A message in a room ends well where the room is not linked, or else only where its
/// thread was opened and the message was handed to the agent there.
pub proof fn law_room_message_ends_well(
    m: RoomMessage,
    data_dir: Seq<char>,
    body: String,
    log: Seq<Answer>,
)
    requires
        m.relation == (Relation::Room { body: Some(body) }),
        body@.len() == 0 || body@[0] != '!',
        matrix::receiving(m, data_dir, log) matches Path::Done(Ok(_), _),
    ensures
        log.len() > 0 && log[0] is Maybe,
        log[0] != Answer::Maybe(None) ==> log.len() >= 3 && log[1] is Done,
{
    lemma_no_command(body@);
}

} // verus!
