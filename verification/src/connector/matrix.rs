//! The Matrix side: rooms are projects, Matrix threads are sessions. Matrix has no
//! slash commands, so commands are plain text starting with `!` (e.g.
//! `!add-project /code/app`, `!queue fix the tests`).
//!
//! Id mapping: a channel id is a room id (`!room:server`); a thread id is
//! `room|root-event` since a Matrix thread is identified by its root event.

use crate::application::commands;
use crate::application::commands::{Btw, BtwRequest, Scope, WorktreeScope};
use crate::application::flow;
use crate::application::flow::{Act, Answer, Effect, Flow, Got, Heard, Path, Reply, Wording};
use crate::application::task_runner;
use crate::domain::delivery;
use crate::domain::delivery::Delivery;
use crate::domain::session::{Message, QueueEditOutcome};
use crate::numbers;
use crate::text;
use vstd::prelude::*;
use vstd::string::*;

verus! {

// ---- ids ----

/// Separator between room id and thread-root event id in thread ids.
pub const THREAD_SEP: char = '|';

/// Why a text is not a room id, if it is not.
pub uninterp spec fn room_id_error(s: Seq<char>) -> Option<Seq<char>>;

/// Why a text is not an event id, if it is not.
pub uninterp spec fn event_id_error(s: Seq<char>) -> Option<Seq<char>>;

/// `ruma::RoomId::parse`: the text of the error, where it fails. A room id starts with
/// `!` and holds no NUL; such a text of at most 255 bytes is one. A parsed id keeps its
/// text.
#[verifier::external_body]
fn check_room_id(s: &str) -> (r: Option<String>)
    ensures
        text::opt_view(r) == room_id_error(s@),
        r is None ==> text::starts_with(s@, seq!['!']) && !s@.contains('\0'),
        text::starts_with(s@, seq!['!']) && text::utf8_len(s@) <= 255 && !s@.contains('\0') ==> r is None,
{
    matrix_sdk::ruma::RoomId::parse(s).err().map(|e| e.to_string())
}

/// `ruma::EventId::parse`: the text of the error, where it fails. An event id starts
/// with `$`; a text that does and holds no colon is one. A parsed id keeps its text.
#[verifier::external_body]
fn check_event_id(s: &str) -> (r: Option<String>)
    ensures
        text::opt_view(r) == event_id_error(s@),
        r is None ==> text::starts_with(s@, seq!['$']),
        text::starts_with(s@, seq!['$']) && !s@.contains(':') ==> r is None,
{
    matrix_sdk::ruma::EventId::parse(s).err().map(|e| e.to_string())
}

/// The id of the thread that hangs off `root`.
pub open spec fn thread_of(room: Seq<char>, root: Seq<char>) -> Seq<char> {
    room.push(THREAD_SEP) + root
}

pub fn make_thread_id(room: &str, root: &str) -> (r: String)
    ensures
        r@ == thread_of(room@, root@),
{
    let mut id = room.to_owned();
    id.push(THREAD_SEP);
    id.concat(root)
}

/// The first separator of `s`, from `i` on.
pub open spec fn separator_from(s: Seq<char>, i: int) -> Option<int>
    decreases s.len() - i,
{
    if i >= s.len() {
        None
    } else if s[i] == THREAD_SEP {
        Some(i)
    } else {
        separator_from(s, i + 1)
    }
}

/// The room of an id.
pub open spec fn room_part(id: Seq<char>) -> Seq<char> {
    match separator_from(id, 0) {
        Some(i) => id.take(i),
        None => id,
    }
}

/// The root event of an id, if it is that of a thread.
pub open spec fn root_part(id: Seq<char>) -> Option<Seq<char>> {
    match separator_from(id, 0) {
        Some(i) => Some(id.skip(i + 1)),
        None => None,
    }
}

/// The room and the root event of an id, or why it is none.
pub open spec fn split_id(id: Seq<char>) -> Result<(Seq<char>, Option<Seq<char>>), Seq<char>> {
    match room_id_error(room_part(id)) {
        Some(e) => Err(flow::context("bad matrix room id"@, e)),
        None => match root_part(id) {
            None => Ok((id, None)),
            Some(root) => match event_id_error(root) {
                Some(e) => Err(flow::context("bad matrix event id"@, e)),
                None => Ok((room_part(id), Some(root))),
            },
        },
    }
}

fn find_separator(v: &Vec<char>) -> (r: Option<usize>)
    ensures
        match r {
            Some(i) => separator_from(v@, 0) == Some(i as int) && i < v.len(),
            None => separator_from(v@, 0) is None,
        },
{
    let mut i: usize = 0;
    while i < v.len()
        invariant
            i <= v@.len(),
            separator_from(v@, 0) == separator_from(v@, i as int),
        decreases v@.len() - i,
    {
        if v[i] == THREAD_SEP {
            return Some(i);
        }
        i = i + 1;
    }
    None
}

pub fn split_thread_id(thread_id: &str) -> (r: Result<(String, Option<String>), String>)
    ensures
        match r {
            Ok(p) => split_id(thread_id@) == Ok::<(Seq<char>, Option<Seq<char>>), Seq<char>>(
                (p.0@, text::opt_view(p.1)),
            ),
            Err(e) => split_id(thread_id@) == Err::<(Seq<char>, Option<Seq<char>>), Seq<char>>(e@),
        },
{
    let v = text::chars_of(thread_id);
    match find_separator(&v) {
        None => match check_room_id(thread_id) {
            Some(e) => Err(flow::with_context("bad matrix room id", e.as_str())),
            None => Ok((thread_id.to_owned(), None)),
        },
        Some(i) => {
            let room = text::text_of(&v, 0, i);
            let root = text::text_of(&v, i + 1, v.len());
            proof {
                assert(room@ =~= thread_id@.take(i as int));
                assert(root@ =~= thread_id@.skip(i + 1));
            }
            if let Some(e) = check_room_id(room.as_str()) {
                return Err(flow::with_context("bad matrix room id", e.as_str()));
            }
            if let Some(e) = check_event_id(root.as_str()) {
                return Err(flow::with_context("bad matrix event id", e.as_str()));
            }
            Ok((room, Some(root)))
        },
    }
}

proof fn lemma_separator_absent(s: Seq<char>, i: int)
    requires
        0 <= i,
        forall|j: int| i <= j < s.len() ==> #[trigger] s[j] != THREAD_SEP,
    ensures
        separator_from(s, i) is None,
    decreases s.len() - i,
{
    if i < s.len() {
        lemma_separator_absent(s, i + 1);
    }
}

proof fn lemma_separator_at(s: Seq<char>, i: int, p: int)
    requires
        0 <= i <= p < s.len(),
        s[p] == THREAD_SEP,
        forall|j: int| i <= j < p ==> #[trigger] s[j] != THREAD_SEP,
    ensures
        separator_from(s, i) == Some(p),
    decreases p - i,
{
    if i < p {
        lemma_separator_at(s, i + 1, p);
    }
}

/// Splitting the id of a thread gives back the room and the root event that it was
/// made of, as long as the room's own id holds no separator.
pub proof fn law_thread_id_round_trip(room: Seq<char>, root: Seq<char>)
    requires
        room_id_error(room) is None,
        event_id_error(root) is None,
        !room.contains(THREAD_SEP),
    ensures
        split_id(thread_of(room, root)) == Ok::<(Seq<char>, Option<Seq<char>>), Seq<char>>(
            (room, Some(root)),
        ),
{
    let id = thread_of(room, root);
    let n = room.len() as int;
    assert(id[n] == THREAD_SEP);
    assert forall|j: int| 0 <= j < n implies #[trigger] id[j] != THREAD_SEP by {
        assert(id[j] == room[j]);
        assert(room.contains(room[j]));
    }
    lemma_separator_at(id, 0, n);
    assert(id.take(n) =~= room);
    assert(id.skip(n + 1) =~= root);
}

/// The id of a room is its own, and has no root event.
pub proof fn law_bare_room_has_no_root(room: Seq<char>)
    requires
        room_id_error(room) is None,
        !room.contains(THREAD_SEP),
    ensures
        split_id(room) == Ok::<(Seq<char>, Option<Seq<char>>), Seq<char>>((room, None)),
{
    assert forall|j: int| 0 <= j < room.len() implies #[trigger] room[j] != THREAD_SEP by {
        assert(room.contains(room[j]));
    }
    lemma_separator_absent(room, 0);
}

/// The channel of a thread: the room that it hangs in. A room is no thread.
pub fn thread_parent(thread_id: &str) -> (r: Result<Option<String>, String>)
    ensures
        match r {
            Ok(parent) => split_id(thread_id@) matches Ok(p) && text::opt_view(parent) == match p.1 {
                Some(_) => Some(p.0),
                None => None,
            },
            Err(e) => split_id(thread_id@) == Err::<(Seq<char>, Option<Seq<char>>), Seq<char>>(e@),
        },
{
    match split_thread_id(thread_id) {
        Ok((room, Some(_))) => Ok(Some(room)),
        Ok((_, None)) => Ok(None),
        Err(e) => Err(e),
    }
}

/// The id of a new thread. It hangs off an existing event, or else off a message that
/// carries its name.
pub open spec fn rooting(
    channel: Seq<char>,
    from: Option<Seq<char>>,
    name: Seq<char>,
    log: Seq<Answer>,
) -> Path<Result<Seq<char>, Seq<char>>> {
    match split_id(channel) {
        Err(e) => Path::Done(Err(e), 0),
        Ok((room, _)) => match from {
            Some(root) => Path::Done(thread_on(room, root), 0),
            None => match flow::heard_text(log, 0) {
                Heard::Pending => Path::Do(Act::Post { channel: room, text: name }),
                Heard::Failed(e) => Path::Done(Err(e), 1),
                Heard::Value(root) => Path::Done(thread_on(room, root), 1),
            },
        },
    }
}

/// The thread that hangs off an event.
pub open spec fn thread_on(room: Seq<char>, root: Seq<char>) -> Result<Seq<char>, Seq<char>> {
    match event_id_error(root) {
        Some(e) => Err(flow::context("bad matrix event id"@, e)),
        None => Ok(thread_of(room, root)),
    }
}

fn hang_thread(room: &str, root: &str) -> (r: Result<String, String>)
    ensures
        flow::res_text(r) == thread_on(room@, root@),
{
    match check_event_id(root) {
        Some(e) => Err(flow::with_context("bad matrix event id", e.as_str())),
        None => Ok(make_thread_id(room, root)),
    }
}

/// A thread in a room: off the event `from_message`, or off a message with its name.
pub fn create_thread(
    channel_id: &str,
    from_message: &Option<String>,
    name: &str,
    log: &Vec<Reply>,
) -> (r: Flow<Result<String, String>>)
    ensures
        flow::at_text(r) == rooting(
            channel_id@,
            text::opt_view(*from_message),
            name@,
            flow::answers(log@),
        ),
{
    let room = match split_thread_id(channel_id) {
        Err(e) => return Flow::Done(Err(e), 0),
        Ok((room, _)) => room,
    };
    match from_message {
        Some(root) => Flow::Done(hang_thread(room.as_str(), root.as_str()), 0),
        None => match flow::got_text(log, 0) {
            Got::Pending => Flow::Do(Effect::Post { channel: room, text: name.to_owned() }),
            Got::Failed(e) => Flow::Done(Err(e), 1),
            Got::Value(root) => Flow::Done(hang_thread(room.as_str(), root.as_str()), 1),
        },
    }
}

/// Whether a message is looked at: one in a joined room, of someone else, from someone
/// who is listened to.
pub fn is_relevant(joined: bool, own: bool, allowed: bool) -> (r: bool)
    ensures
        r == (joined && !own && allowed),
{
    joined && !own && allowed
}

// ---- commands ----

/// Who sent a command, and where.
#[derive(Debug)]
pub struct CommandContext {
    pub room_id: String,
    /// Set when the command was sent inside a thread.
    pub thread_id: Option<String>,
    pub sender: String,
    pub username: String,
    pub data_dir: String,
}

/// The value of a command's context.
pub struct Origin {
    pub room: Seq<char>,
    pub thread: Option<Seq<char>>,
    pub sender: Seq<char>,
    pub username: Seq<char>,
    pub data_dir: Seq<char>,
}

impl View for CommandContext {
    type V = Origin;

    open spec fn view(&self) -> Origin {
        Origin {
            room: self.room_id@,
            thread: text::opt_view(self.thread_id),
            sender: self.sender@,
            username: self.username@,
            data_dir: self.data_dir@,
        }
    }
}

/// The first whitespace of `s`, from `i` on.
pub open spec fn gap_from(s: Seq<char>, i: int) -> Option<int>
    decreases s.len() - i,
{
    if i >= s.len() {
        None
    } else if text::is_whitespace(s[i]) {
        Some(i)
    } else {
        gap_from(s, i + 1)
    }
}

/// The name and the arguments of a command.
pub open spec fn command_parts(input: Seq<char>) -> (Seq<char>, Seq<char>) {
    match gap_from(input, 0) {
        Some(i) => (input.take(i), text::trim(input.skip(i + 1))),
        None => (text::trim(input), Seq::empty()),
    }
}

fn split_command(input: &str) -> (r: (String, String))
    ensures
        (r.0@, r.1@) == command_parts(input@),
{
    let v = text::chars_of(input);
    let mut i: usize = 0;
    while i < v.len()
        invariant
            i <= v@.len(),
            v@ == input@,
            gap_from(v@, 0) == gap_from(v@, i as int),
        decreases v@.len() - i,
    {
        if text::char_is_whitespace(v[i]) {
            let name = text::text_of(&v, 0, i);
            let rest = text::text_of(&v, i + 1, v.len());
            proof {
                assert(name@ =~= input@.take(i as int));
                assert(rest@ =~= input@.skip(i + 1));
            }
            return (name, text::trimmed(rest.as_str()));
        }
        i = i + 1;
    }
    let none = String::new();
    proof {
        assert(none@ =~= Seq::<char>::empty());
    }
    (text::trimmed(input), none)
}

pub open spec fn needs_thread(cmd: Seq<char>) -> Seq<char> {
    "!"@ + cmd + " only works inside a session thread"@
}

/// The position that an enqueued message is told.
pub open spec fn queued_text(position: Option<usize>) -> Seq<char> {
    match position {
        Some(p) => "Queued message (position "@ + numbers::decimal(p as nat) + ")"@,
        None => "Session was idle; message sent immediately."@,
    }
}

pub fn queued_reply(position: Option<usize>) -> (r: String)
    ensures
        r@ == queued_text(position),
{
    match position {
        Some(p) => "Queued message (position ".to_owned().concat(
            numbers::decimal_u64(p as u64).as_str(),
        ).concat(")"),
        None => "Session was idle; message sent immediately.".to_owned(),
    }
}

pub open spec fn cleared_text(position: Option<usize>, removed: usize) -> Seq<char> {
    match position {
        Some(p) => "Cleared queued message at position "@ + numbers::decimal(p as nat),
        None => "Cleared "@ + numbers::decimal(removed as nat) + " queued message(s)"@,
    }
}

pub fn cleared_reply(position: Option<usize>, removed: usize) -> (r: String)
    ensures
        r@ == cleared_text(position, removed),
{
    match position {
        Some(p) => "Cleared queued message at position ".to_owned().concat(
            numbers::decimal_u64(p as u64).as_str(),
        ),
        None => "Cleared ".to_owned().concat(numbers::decimal_u64(removed as u64).as_str()).concat(
            " queued message(s)",
        ),
    }
}

/// Opens the runtime of a thread in the directory that is resolved for it.
pub open spec fn reaching(thread: Seq<char>, log: Seq<Answer>, i: int) -> Path<
    Result<Seq<char>, Seq<char>>,
> {
    match task_runner::resolving(thread, log, i) {
        Path::Done(Ok(directory), n) => match flow::heard_done(log, n) {
            Heard::Pending => Path::Do(Act::OpenRuntime { thread, directory }),
            Heard::Failed(e) => Path::Done(Err(e), n + 1),
            Heard::Value(_) => Path::Done(Ok(directory), n + 1),
        },
        p => p,
    }
}

/// Opens the runtime of a thread in the directory that is resolved for it. Returns the
/// directory.
pub fn reach_runtime(thread_id: &str, log: &Vec<Reply>, from: usize) -> (r: Flow<
    Result<String, String>,
>)
    ensures
        flow::at_text(r) == reaching(thread_id@, flow::answers(log@), from as int),
        r matches Flow::Done(_, n) ==> n <= log@.len(),
{
    match task_runner::resolve_thread_directory(thread_id, log, from) {
        Flow::Done(Ok(directory), n) => match flow::got_done(log, n) {
            Got::Pending => Flow::Do(
                Effect::OpenRuntime { thread: thread_id.to_owned(), directory },
            ),
            Got::Failed(e) => Flow::Done(Err(e), n + 1),
            Got::Value(_) => Flow::Done(Ok(directory), n + 1),
        },
        f => f,
    }
}

/// Queueing a message in a thread.
pub open spec fn queueing(
    thread: Seq<char>,
    prompt: Seq<char>,
    username: Seq<char>,
    log: Seq<Answer>,
    i: int,
) -> Path<Result<Seq<char>, Seq<char>>> {
    match reaching(thread, log, i) {
        Path::Do(a) => Path::Do(a),
        Path::Done(Err(e), n) => Path::Done(Err(e), n),
        Path::Done(Ok(_), n) => match flow::heard_position(log, n) {
            Heard::Pending => Path::Do(
                Act::Enqueue { thread, message: flow::unsourced(prompt, username), wait: true },
            ),
            Heard::Failed(e) => Path::Done(Err(e), n + 1),
            Heard::Value(position) => Path::Done(Ok(queued_text(position)), n + 1),
        },
    }
}

/// Queue a message in a thread. Returns what the sender is told.
pub fn queue_in_thread(
    thread_id: &str,
    prompt: &str,
    username: &str,
    log: &Vec<Reply>,
    from: usize,
) -> (r: Flow<Result<String, String>>)
    ensures
        flow::at_text(r) == queueing(
            thread_id@,
            prompt@,
            username@,
            flow::answers(log@),
            from as int,
        ),
        r matches Flow::Done(_, n) ==> n <= log@.len(),
{
    let n: usize = match reach_runtime(thread_id, log, from) {
        Flow::Do(e) => return Flow::Do(e),
        Flow::Done(Err(e), n) => return Flow::Done(Err(e), n),
        Flow::Done(Ok(_), n) => n,
    };
    match flow::got_position(log, n) {
        Got::Pending => Flow::Do(
            Effect::Enqueue {
                thread: thread_id.to_owned(),
                message: flow::plain_message(prompt.to_owned(), username, None),
                wait: true,
            },
        ),
        Got::Failed(e) => Flow::Done(Err(e), n + 1),
        Got::Value(position) => Flow::Done(Ok(queued_reply(position)), n + 1),
    }
}

/// Clearing the queue of a thread, or one position of it.
pub open spec fn clearing(
    thread: Seq<char>,
    position: Option<usize>,
    log: Seq<Answer>,
    i: int,
) -> Path<Result<Seq<char>, Seq<char>>> {
    match reaching(thread, log, i) {
        Path::Do(a) => Path::Do(a),
        Path::Done(Err(e), n) => Path::Done(Err(e), n),
        Path::Done(Ok(_), n) => match flow::heard_count(log, n) {
            Heard::Pending => Path::Do(Act::ClearQueue { thread, position }),
            Heard::Failed(e) => Path::Done(Err(e), n + 1),
            Heard::Value(removed) => Path::Done(Ok(cleared_text(position, removed)), n + 1),
        },
    }
}

/// Clear the queue of a thread, or one position of it. Returns what the sender is
/// told.
pub fn clear_in_thread(
    thread_id: &str,
    position: Option<usize>,
    log: &Vec<Reply>,
    from: usize,
) -> (r: Flow<Result<String, String>>)
    ensures
        flow::at_text(r) == clearing(
            thread_id@,
            position,
            flow::answers(log@),
            from as int,
        ),
        r matches Flow::Done(_, n) ==> n <= log@.len(),
{
    let n: usize = match reach_runtime(thread_id, log, from) {
        Flow::Do(e) => return Flow::Do(e),
        Flow::Done(Err(e), n) => return Flow::Done(Err(e), n),
        Flow::Done(Ok(_), n) => n,
    };
    match flow::got_count(log, n) {
        Got::Pending => Flow::Do(
            Effect::ClearQueue { thread: thread_id.to_owned(), position },
        ),
        Got::Failed(e) => Flow::Done(Err(e), n + 1),
        Got::Value(removed) => Flow::Done(Ok(cleared_reply(position, removed)), n + 1),
    }
}

pub open spec fn help_text() -> Seq<char> {
    "Commands: !add-project <dir>, !queue <msg>, !clear [n], !btw <prompt>, !worktree [name] [base], !list-worktrees, !tasks, !delete-task <id>. Suffixes: end a message with `. queue` or `. btw`."@
}

/// The position that `!clear` is given, if any.
pub open spec fn clear_position(args: Seq<char>) -> Result<Option<usize>, Seq<char>> {
    if args.len() == 0 {
        Ok(None)
    } else {
        match numbers::unsigned_value(args, usize::MAX as nat) {
            Ok(n) => Ok(Some(n as usize)),
            Err(e) => Err(e.text()),
        }
    }
}

pub open spec fn nth_word(args: Seq<char>, i: int) -> Option<Seq<char>> {
    if 0 <= i < text::words(args).len() {
        Some(text::words(args)[i])
    } else {
        None
    }
}

/// Where a `!worktree` command applies: its thread, named after the worktree, or the
/// room.
pub open spec fn worktree_scope(o: Origin, name: Option<Seq<char>>) -> Scope {
    match o.thread {
        Some(t) => Scope::Thread(
            t,
            match name {
                Some(n) => n,
                None => "worktree"@,
            },
        ),
        None => Scope::Channel(o.room, o.sender),
    }
}

pub open spec fn btw_in_thread(
    o: Origin,
    thread: Seq<char>,
    prompt: Seq<char>,
    log: Seq<Answer>,
    i: int,
) -> Path<Result<Seq<char>, Seq<char>>> {
    match task_runner::resolving(thread, log, i) {
        Path::Do(a) => Path::Do(a),
        Path::Done(Err(e), n) => Path::Done(Err(e), n),
        Path::Done(Ok(directory), n) => {
            let req = Btw {
                source: thread,
                parent: o.room,
                directory,
                prompt,
                user: o.sender,
                username: o.username,
            };
            match commands::forking(Wording::Plain, req, log, n) {
                Path::Do(a) => Path::Do(a),
                Path::Done(Err(e), m) => Path::Done(Err(e), m),
                Path::Done(Ok(_), m) => Path::Done(
                    Ok("Session forked! Continue in the new btw thread."@),
                    m,
                ),
            }
        },
    }
}

/// A command that only makes sense inside a thread, and with arguments.
pub open spec fn thread_command(
    cmd: Seq<char>,
    args: Seq<char>,
    o: Origin,
    log: Seq<Answer>,
    i: int,
) -> Path<Result<Seq<char>, Seq<char>>> {
    match o.thread {
        None => Path::Done(Err(needs_thread(cmd)), i),
        Some(thread) => if cmd == "queue"@ {
            queueing(thread, args, o.username, log, i)
        } else if cmd == "clear"@ {
            match clear_position(args) {
                Err(e) => Path::Done(Err(e), i),
                Ok(position) => clearing(thread, position, log, i),
            }
        } else {
            btw_in_thread(o, thread, args, log, i)
        },
    }
}

/// A text command, without its `!`.
pub open spec fn commanding(o: Origin, input: Seq<char>, log: Seq<Answer>, i: int) -> Path<
    Result<Seq<char>, Seq<char>>,
> {
    let (cmd, args) = command_parts(input);
    if cmd == "add-project"@ {
        if args.len() == 0 {
            Path::Done(Err("usage: !add-project /absolute/path"@), i)
        } else {
            commands::linking(o.room, args, log, i)
        }
    } else if cmd == "queue"@ {
        if args.len() == 0 {
            Path::Done(Err("usage: !queue <message>"@), i)
        } else {
            thread_command(cmd, args, o, log, i)
        }
    } else if cmd == "clear"@ {
        thread_command(cmd, args, o, log, i)
    } else if cmd == "btw"@ {
        if args.len() == 0 {
            Path::Done(Err("usage: !btw <prompt>"@), i)
        } else {
            thread_command(cmd, args, o, log, i)
        }
    } else if cmd == "worktree"@ {
        let name = nth_word(args, 0);
        commands::adding_worktree(
            o.data_dir,
            worktree_scope(o, name),
            name,
            nth_word(args, 1),
            log,
            i,
        )
    } else if cmd == "list-worktrees"@ {
        commands::listing_worktrees(Wording::Plain, o.room, log, i)
    } else if cmd == "tasks"@ {
        commands::listing_tasks(log, i)
    } else if cmd == "delete-task"@ {
        match numbers::signed_value(args) {
            Ok(id) => commands::cancelling(id, log, i),
            Err(e) => Path::Done(
                Err(flow::context("usage: !delete-task <id>"@, e.text())),
                i,
            ),
        }
    } else if cmd == "help"@ {
        Path::Done(Ok(help_text()), i)
    } else {
        Path::Done(Err("unknown command !"@ + cmd + " (try !help)"@), i)
    }
}

fn fork_in_thread(
    ctx: &CommandContext,
    thread: &str,
    prompt: &str,
    log: &Vec<Reply>,
    from: usize,
) -> (r: Flow<Result<String, String>>)
    ensures
        flow::at_text(r) == btw_in_thread(
            ctx@,
            thread@,
            prompt@,
            flow::answers(log@),
            from as int,
        ),
        r matches Flow::Done(_, n) ==> n <= log@.len(),
{
    let (directory, n) = match task_runner::resolve_thread_directory(thread, log, from) {
        Flow::Do(e) => return Flow::Do(e),
        Flow::Done(Err(e), n) => return Flow::Done(Err(e), n),
        Flow::Done(Ok(d), n) => (d, n),
    };
    let req = BtwRequest {
        source_thread: thread.to_owned(),
        parent_channel: ctx.room_id.clone(),
        directory,
        prompt: prompt.to_owned(),
        user_id: ctx.sender.clone(),
        username: ctx.username.clone(),
    };
    match commands::fork_btw(Wording::Plain, &req, log, n) {
        Flow::Do(e) => Flow::Do(e),
        Flow::Done(Err(e), m) => Flow::Done(Err(e), m),
        Flow::Done(Ok(_), m) => Flow::Done(
            Ok("Session forked! Continue in the new btw thread.".to_owned()),
            m,
        ),
    }
}

fn usage(text: &str, i: usize) -> (r: Flow<Result<String, String>>)
    ensures
        flow::at_text(r) == Path::<Result<Seq<char>, Seq<char>>>::Done(Err(text@), i as int),
        r matches Flow::Done(_, n) && n == i,
{
    Flow::Done(Err(text.to_owned()), i)
}

/// Text commands, the Matrix counterpart of slash commands. `input` comes without the
/// `!`.
pub fn handle_command(ctx: &CommandContext, input: &str, log: &Vec<Reply>, from: usize) -> (r: Flow<
    Result<String, String>,
>)
    ensures
        flow::at_text(r) == commanding(ctx@, input@, flow::answers(log@), from as int),
        r matches Flow::Done(_, n) ==> n <= log@.len() || n == from,
{
    let (cmd, args) = split_command(input);
    let cmd = cmd.as_str();
    let args = args.as_str();
    if text::same_text(cmd, "add-project") {
        if args.is_empty() {
            return usage("usage: !add-project /absolute/path", from);
        }
        return commands::add_project(ctx.room_id.as_str(), args, log, from);
    }
    let queue = text::same_text(cmd, "queue");
    let clear = text::same_text(cmd, "clear");
    let btw = text::same_text(cmd, "btw");
    if queue && args.is_empty() {
        return usage("usage: !queue <message>", from);
    }
    if btw && !queue && !clear && args.is_empty() {
        return usage("usage: !btw <prompt>", from);
    }
    if queue || clear || btw {
        let thread = match &ctx.thread_id {
            Some(t) => t.as_str(),
            None => return Flow::Done(
                Err("!".to_owned().concat(cmd).concat(" only works inside a session thread")),
                from,
            ),
        };
        if queue {
            return queue_in_thread(thread, args, ctx.username.as_str(), log, from);
        }
        if clear {
            let position: Option<usize> = if args.is_empty() {
                None
            } else {
                match numbers::parse_usize(args) {
                    Ok(n) => Some(n),
                    Err(e) => return Flow::Done(Err(e.message().to_owned()), from),
                }
            };
            return clear_in_thread(thread, position, log, from);
        }
        return fork_in_thread(ctx, thread, args, log, from);
    }
    if text::same_text(cmd, "worktree") {
        let parts = text::split_words(args);
        proof {
            assert(parts@.len() == text::words(args@).len());
        }
        let name: Option<String> = if parts.len() > 0 {
            proof {
                assert(text::texts(parts@)[0] == parts@[0]@);
            }
            Some(parts[0].clone())
        } else {
            None
        };
        let base: Option<String> = if parts.len() > 1 {
            proof {
                assert(text::texts(parts@)[1] == parts@[1]@);
            }
            Some(parts[1].clone())
        } else {
            None
        };
        let scope = match &ctx.thread_id {
            Some(t) => WorktreeScope::Thread {
                thread_id: t.clone(),
                name_hint: match &name {
                    Some(n) => n.clone(),
                    None => "worktree".to_owned(),
                },
            },
            None => WorktreeScope::Channel {
                channel_id: ctx.room_id.clone(),
                user_id: ctx.sender.clone(),
            },
        };
        return commands::new_worktree(ctx.data_dir.as_str(), &scope, &name, &base, log, from);
    }
    if text::same_text(cmd, "list-worktrees") {
        return commands::worktrees_text(Wording::Plain, ctx.room_id.as_str(), log, from);
    }
    if text::same_text(cmd, "tasks") {
        return commands::tasks_text(log, from);
    }
    if text::same_text(cmd, "delete-task") {
        return match numbers::parse_i64(args) {
            Ok(id) => commands::cancel_task_text(id, log, from),
            Err(e) => Flow::Done(
                Err(flow::with_context("usage: !delete-task <id>", e.message())),
                from,
            ),
        };
    }
    if text::same_text(cmd, "help") {
        return Flow::Done(
            Ok(
                "Commands: !add-project <dir>, !queue <msg>, !clear [n], !btw <prompt>, !worktree [name] [base], !list-worktrees, !tasks, !delete-task <id>. Suffixes: end a message with `. queue` or `. btw`.".to_owned(),
            ),
            from,
        );
    }
    Flow::Done(Err("unknown command !".to_owned().concat(cmd).concat(" (try !help)")), from)
}

// ---- messages ----

/// What a message relates to. A body is only there where the message is text.
#[derive(Debug)]
pub enum Relation {
    /// An edit of an earlier message.
    Replacement { original: String, body: Option<String> },
    /// A message inside the thread of a root event.
    Thread { root: String, body: Option<String> },
    /// A message in the room itself.
    Room { body: Option<String> },
}

/// A message in a room.
#[derive(Debug)]
pub struct RoomMessage {
    pub room_id: String,
    pub event_id: String,
    pub sender: String,
    pub username: String,
    pub relation: Relation,
}

/// The message that a chat message hands to the agent.
pub open spec fn sourced(prompt: Seq<char>, username: Seq<char>, source: Seq<char>) -> Message {
    Message { prompt, username, source: Some(source), show_marker: false }
}

/// The `!` and what follows it, in the sender's thread or room, and the reply to it.
pub open spec fn answering(o: Origin, place: Seq<char>, input: Seq<char>, log: Seq<Answer>, i: int) -> Path<
    Result<(), Seq<char>>,
> {
    match commanding(o, input, log, i) {
        Path::Do(a) => Path::Do(a),
        Path::Done(Err(e), n) => Path::Done(Err(e), n),
        Path::Done(Ok(reply), n) => match flow::heard_done(log, n) {
            Heard::Pending => Path::Do(Act::Send { thread: place, text: reply }),
            Heard::Failed(e) => Path::Done(Err(e), n + 1),
            Heard::Value(_) => Path::Done(Ok(()), n + 1),
        },
    }
}

pub open spec fn waiting_text(position: usize) -> Seq<char> {
    "Queued at position "@ + numbers::decimal(position as nat)
        + ". Edit your message to update it in the queue."@
}

/// What the sender of a queued message is told.
pub fn waiting_reply(position: usize) -> (r: String)
    ensures
        r@ == waiting_text(position),
{
    "Queued at position ".to_owned().concat(numbers::decimal_u64(position as u64).as_str()).concat(
        ". Edit your message to update it in the queue.",
    )
}

/// A message is handed to the runtime of its thread; one that waits is told where.
pub open spec fn delivering(thread: Seq<char>, message: Message, wait: bool, log: Seq<Answer>, i: int) -> Path<
    Result<(), Seq<char>>,
> {
    if !wait {
        if !flow::tried(log, i) {
            Path::Do(Act::Enqueue { thread, message, wait })
        } else {
            Path::Done(Ok(()), i + 1)
        }
    } else {
        match flow::heard_position(log, i) {
            Heard::Pending => Path::Do(Act::Enqueue { thread, message, wait }),
            Heard::Failed(e) => Path::Done(Err(e), i + 1),
            Heard::Value(None) => Path::Done(Ok(()), i + 1),
            Heard::Value(Some(p)) => match flow::heard_done(log, i + 1) {
                Heard::Pending => Path::Do(Act::Send { thread, text: waiting_text(p) }),
                Heard::Failed(e) => Path::Done(Err(e), i + 2),
                Heard::Value(_) => Path::Done(Ok(()), i + 2),
            },
        }
    }
}

/// A message inside a thread: a command, a side question, or the next prompt of the
/// session.
pub open spec fn in_thread(o: Origin, thread: Seq<char>, body: Seq<char>, event: Seq<char>, log: Seq<Answer>) -> Path<
    Result<(), Seq<char>>,
> {
    match text::after_prefix(body, "!"@) {
        Some(rest) => answering(o, thread, rest, log, 0),
        None => {
            let (kind, prompt) = delivery::parsed(body);
            match reaching(thread, log, 0) {
                Path::Do(a) => Path::Do(a),
                Path::Done(Err(e), n) => Path::Done(Err(e), n),
                Path::Done(Ok(directory), n) => match kind {
                    Delivery::Btw => {
                        let req = Btw {
                            source: thread,
                            parent: o.room,
                            directory,
                            prompt,
                            user: o.sender,
                            username: o.username,
                        };
                        match commands::forking(Wording::Plain, req, log, n) {
                            Path::Do(a) => Path::Do(a),
                            Path::Done(Err(e), m) => Path::Done(Err(e), m),
                            Path::Done(Ok(_), m) => Path::Done(Ok(()), m),
                        }
                    },
                    Delivery::Queue => delivering(
                        thread,
                        sourced(prompt, o.username, event),
                        true,
                        log,
                        n,
                    ),
                    Delivery::Normal => delivering(
                        thread,
                        sourced(prompt, o.username, event),
                        false,
                        log,
                        n,
                    ),
                },
            }
        },
    }
}

/// A message in the room itself: a command, or, in a linked room, the start of a new
/// session whose thread hangs off the message.
pub open spec fn in_room(o: Origin, body: Seq<char>, event: Seq<char>, log: Seq<Answer>) -> Path<
    Result<(), Seq<char>>,
> {
    match text::after_prefix(body, "!"@) {
        Some(rest) => answering(o, o.room, rest, log, 0),
        None => match flow::heard_maybe(log, 0) {
            Heard::Pending => Path::Do(Act::GetChannelDirectory { channel: o.room }),
            Heard::Failed(e) => Path::Done(Err(e), 1),
            Heard::Value(None) => Path::Done(Ok(()), 1),
            Heard::Value(Some(directory)) => {
                let thread = thread_of(o.room, event);
                match flow::heard_done(log, 1) {
                    Heard::Pending => Path::Do(Act::OpenRuntime { thread, directory }),
                    Heard::Failed(e) => Path::Done(Err(e), 2),
                    Heard::Value(_) => delivering(
                        thread,
                        sourced(delivery::parsed(body).1, o.username, event),
                        false,
                        log,
                        2,
                    ),
                }
            },
        },
    }
}

pub open spec fn edit_text(username: Seq<char>, outcome: QueueEditOutcome) -> Seq<char> {
    let verb = match outcome {
        QueueEditOutcome::Updated => "edited queued message"@,
        _ => "removed message from queue"@,
    };
    "⬦ **"@ + username + "** "@ + verb
}

/// How an edit of a queued message is told.
pub fn edit_notice(username: &str, outcome: QueueEditOutcome) -> (r: String)
    ensures
        r@ == edit_text(username@, outcome),
{
    let verb = match outcome {
        QueueEditOutcome::Updated => "edited queued message",
        _ => "removed message from queue",
    };
    "⬦ **".to_owned().concat(username).concat("** ").concat(verb)
}

/// An edit: the queued entry is updated or dropped, wherever it is.
pub open spec fn editing(username: Seq<char>, original: Seq<char>, body: Seq<char>, log: Seq<Answer>) -> Path<
    Result<(), Seq<char>>,
> {
    match flow::heard_edited_in(log, 0) {
        Heard::Pending => Path::Do(Act::EditAnyQueued { source: original, content: body }),
        Heard::Failed(e) => Path::Done(Err(e), 1),
        Heard::Value(None) => Path::Done(Ok(()), 1),
        Heard::Value(Some((thread, outcome))) => if outcome == QueueEditOutcome::NotFound {
            Path::Done(Ok(()), 1)
        } else {
            match flow::heard_done(log, 1) {
                Heard::Pending => Path::Do(
                    Act::Send { thread, text: edit_text(username, outcome) },
                ),
                Heard::Failed(e) => Path::Done(Err(e), 2),
                Heard::Value(_) => Path::Done(Ok(()), 2),
            }
        },
    }
}

pub open spec fn origin_of(m: RoomMessage, thread: Option<Seq<char>>, data_dir: Seq<char>) -> Origin {
    Origin {
        room: m.room_id@,
        thread,
        sender: m.sender@,
        username: m.username@,
        data_dir,
    }
}

/// A message in a room. Messages that are not text are ignored.
pub open spec fn receiving(m: RoomMessage, data_dir: Seq<char>, log: Seq<Answer>) -> Path<
    Result<(), Seq<char>>,
> {
    match m.relation {
        Relation::Replacement { original, body } => match body {
            Some(b) => editing(m.username@, original@, b@, log),
            None => Path::Done(Ok(()), 0),
        },
        Relation::Thread { root, body } => match body {
            Some(b) => {
                let thread = thread_of(m.room_id@, root@);
                in_thread(origin_of(m, Some(thread), data_dir), thread, b@, m.event_id@, log)
            },
            None => Path::Done(Ok(()), 0),
        },
        Relation::Room { body } => match body {
            Some(b) => in_room(origin_of(m, None, data_dir), b@, m.event_id@, log),
            None => Path::Done(Ok(()), 0),
        },
    }
}

fn answer(ctx: &CommandContext, place: &str, input: &str, log: &Vec<Reply>) -> (r: Flow<
    Result<(), String>,
>)
    ensures
        flow::at_unit(r) == answering(ctx@, place@, input@, flow::answers(log@), 0),
{
    let (reply, n) = match handle_command(ctx, input, log, 0) {
        Flow::Do(e) => return Flow::Do(e),
        Flow::Done(Err(e), n) => return Flow::Done(Err(e), n),
        Flow::Done(Ok(s), n) => (s, n),
    };
    match flow::got_done(log, n) {
        Got::Pending => Flow::Do(Effect::Send { thread: place.to_owned(), text: reply }),
        Got::Failed(e) => Flow::Done(Err(e), n + 1),
        Got::Value(_) => Flow::Done(Ok(()), n + 1),
    }
}

/// Hand a message to the runtime of its thread; tell the sender of one that waits
/// where.
fn deliver(
    thread: &str,
    prompt: String,
    username: &str,
    source: &str,
    wait: bool,
    log: &Vec<Reply>,
    i: usize,
) -> (r: Flow<Result<(), String>>)
    ensures
        flow::at_unit(r) == delivering(
            thread@,
            sourced(prompt@, username@, source@),
            wait,
            flow::answers(log@),
            i as int,
        ),
{
    if !flow::was_tried(log, i) {
        return Flow::Do(
            Effect::Enqueue {
                thread: thread.to_owned(),
                message: flow::plain_message(prompt, username, Some(source.to_owned())),
                wait,
            },
        );
    }
    if !wait {
        return Flow::Done(Ok(()), i + 1);
    }
    let position: usize = match flow::got_position(log, i) {
        Got::Pending => 0,
        Got::Failed(e) => return Flow::Done(Err(e), i + 1),
        Got::Value(None) => return Flow::Done(Ok(()), i + 1),
        Got::Value(Some(p)) => p,
    };
    match flow::got_done(log, i + 1) {
        Got::Pending => Flow::Do(
            Effect::Send { thread: thread.to_owned(), text: waiting_reply(position) },
        ),
        Got::Failed(e) => Flow::Done(Err(e), i + 2),
        Got::Value(_) => Flow::Done(Ok(()), i + 2),
    }
}

/// A message inside a thread: a command, a side question, or the next prompt of the
/// session.
pub fn handle_thread_message(
    ctx: &CommandContext,
    thread_id: &str,
    body: &str,
    event_id: &str,
    log: &Vec<Reply>,
) -> (r: Flow<Result<(), String>>)
    ensures
        flow::at_unit(r) == in_thread(
            ctx@,
            thread_id@,
            body@,
            event_id@,
            flow::answers(log@),
        ),
{
    if let Some(rest) = text::strip_prefix(body, "!") {
        return answer(ctx, thread_id, rest.as_str(), log);
    }
    let parsed = delivery::parse_message(body);
    let (directory, n) = match reach_runtime(thread_id, log, 0) {
        Flow::Do(e) => return Flow::Do(e),
        Flow::Done(Err(e), n) => return Flow::Done(Err(e), n),
        Flow::Done(Ok(d), n) => (d, n),
    };
    match parsed.delivery {
        Delivery::Btw => {
            let req = BtwRequest {
                source_thread: thread_id.to_owned(),
                parent_channel: ctx.room_id.clone(),
                directory,
                prompt: parsed.prompt,
                user_id: ctx.sender.clone(),
                username: ctx.username.clone(),
            };
            match commands::fork_btw(Wording::Plain, &req, log, n) {
                Flow::Do(e) => Flow::Do(e),
                Flow::Done(Err(e), m) => Flow::Done(Err(e), m),
                Flow::Done(Ok(_), m) => Flow::Done(Ok(()), m),
            }
        },
        Delivery::Queue => deliver(
            thread_id,
            parsed.prompt,
            ctx.username.as_str(),
            event_id,
            true,
            log,
            n,
        ),
        Delivery::Normal => deliver(
            thread_id,
            parsed.prompt,
            ctx.username.as_str(),
            event_id,
            false,
            log,
            n,
        ),
    }
}

fn handle_room_message(ctx: &CommandContext, body: &str, event_id: &str, log: &Vec<Reply>) -> (r: Flow<
    Result<(), String>,
>)
    ensures
        flow::at_unit(r) == in_room(ctx@, body@, event_id@, flow::answers(log@)),
{
    if let Some(rest) = text::strip_prefix(body, "!") {
        return answer(ctx, ctx.room_id.as_str(), rest.as_str(), log);
    }
    let directory = match flow::got_maybe(log, 0) {
        Got::Pending => return Flow::Do(
            Effect::GetChannelDirectory { channel: ctx.room_id.clone() },
        ),
        Got::Failed(e) => return Flow::Done(Err(e), 1),
        Got::Value(None) => return Flow::Done(Ok(()), 1),
        Got::Value(Some(d)) => d,
    };
    let parsed = delivery::parse_message(body);
    let thread = make_thread_id(ctx.room_id.as_str(), event_id);
    match flow::got_done(log, 1) {
        Got::Pending => return Flow::Do(Effect::OpenRuntime { thread, directory }),
        Got::Failed(e) => return Flow::Done(Err(e), 2),
        Got::Value(_) => {},
    }
    deliver(
        thread.as_str(),
        parsed.prompt,
        ctx.username.as_str(),
        event_id,
        false,
        log,
        2,
    )
}

fn handle_edit(username: &str, original: &str, body: &str, log: &Vec<Reply>) -> (r: Flow<
    Result<(), String>,
>)
    ensures
        flow::at_unit(r) == editing(username@, original@, body@, flow::answers(log@)),
{
    let (thread, outcome) = match flow::got_edited_in(log, 0) {
        Got::Pending => return Flow::Do(
            Effect::EditAnyQueued { source: original.to_owned(), content: body.to_owned() },
        ),
        Got::Failed(e) => return Flow::Done(Err(e), 1),
        Got::Value(None) => return Flow::Done(Ok(()), 1),
        Got::Value(Some(p)) => p,
    };
    if outcome == QueueEditOutcome::NotFound {
        return Flow::Done(Ok(()), 1);
    }
    match flow::got_done(log, 1) {
        Got::Pending => Flow::Do(
            Effect::Send { thread, text: edit_notice(username, outcome) },
        ),
        Got::Failed(e) => Flow::Done(Err(e), 2),
        Got::Value(_) => Flow::Done(Ok(()), 2),
    }
}

/// A message in a room.
pub fn handle_message(m: &RoomMessage, data_dir: &str, log: &Vec<Reply>) -> (r: Flow<
    Result<(), String>,
>)
    ensures
        flow::at_unit(r) == receiving(*m, data_dir@, flow::answers(log@)),
{
    let mut ctx = CommandContext {
        room_id: m.room_id.clone(),
        thread_id: None,
        sender: m.sender.clone(),
        username: m.username.clone(),
        data_dir: data_dir.to_owned(),
    };
    match &m.relation {
        Relation::Replacement { original, body } => match body {
            Some(b) => handle_edit(m.username.as_str(), original.as_str(), b.as_str(), log),
            None => Flow::Done(Ok(()), 0),
        },
        Relation::Thread { root, body } => match body {
            Some(b) => {
                let thread = make_thread_id(m.room_id.as_str(), root.as_str());
                ctx.thread_id = Some(thread.clone());
                handle_thread_message(
                    &ctx,
                    thread.as_str(),
                    b.as_str(),
                    m.event_id.as_str(),
                    log,
                )
            },
            None => Flow::Done(Ok(()), 0),
        },
        Relation::Room { body } => match body {
            Some(b) => handle_room_message(&ctx, b.as_str(), m.event_id.as_str(), log),
            None => Flow::Done(Ok(()), 0),
        },
    }
}

/// A room that is not linked to a project is left in peace: a plain message there asks
/// for nothing but the link.
pub proof fn law_unlinked_room_is_quiet(m: RoomMessage, data_dir: Seq<char>, log: Seq<Answer>, body: String)
    requires
        m.relation == (Relation::Room { body: Some(body) }),
        !text::starts_with(body@, "!"@),
        flow::heard_maybe(log, 0) == Heard::<Option<Seq<char>>>::Value(None),
    ensures
        receiving(m, data_dir, log) == Path::<Result<(), Seq<char>>>::Done(Ok(()), 1),
{
}

/// The agent never gets the suffix of a message: what is handed to it is the prompt
/// without it, from the message itself so that edits find it.
pub proof fn law_prompt_without_suffix(
    m: RoomMessage,
    data_dir: Seq<char>,
    log: Seq<Answer>,
    root: String,
    body: String,
)
    requires
        m.relation == (Relation::Thread { root, body: Some(body) }),
        !text::starts_with(body@, "!"@),
        delivery::parsed(body@).0 != Delivery::Btw,
    ensures
        receiving(m, data_dir, log) matches Path::Do(Act::Enqueue { thread, message, wait }) ==> {
            &&& thread == thread_of(m.room_id@, root@)
            &&& message == sourced(delivery::parsed(body@).1, m.username@, m.event_id@)
            &&& wait == (delivery::parsed(body@).0 == Delivery::Queue)
        },
{
}

} // verus!
