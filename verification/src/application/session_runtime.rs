//! Per-thread session orchestration.
//!
//! Every chat thread maps to one agent session. A `ThreadRuntime` holds the session
//! id, a busy flag, and the local message queue. Messages sent while a run is active
//! either wait in the queue (`. queue`) or interrupt the run after a grace period
//! (normal messages).

use crate::application::flow;
use crate::application::flow::{Act, Answer, Effect, Flow, Got, Heard, Path, Reply};
use crate::connector::opencode;
use crate::connector::opencode::{BusEvent, Event, PartView};
use crate::domain::delivery;
use crate::domain::delivery::Delivery;
use crate::domain::rendering;
use crate::domain::session::{EnqueueResult, Message, Part, QueueEditOutcome, QueuedMessage};
use crate::numbers;
use crate::text;
use std::collections::VecDeque;
use vstd::prelude::*;
use vstd::string::*;

verus! {

/// The state of a thread's session.
#[derive(Debug)]
pub struct ThreadRuntime {
    thread_id: String,
    /// Working directory of the session (project dir or its worktree).
    directory: String,
    session_id: Option<String>,
    busy: bool,
    queue: VecDeque<QueuedMessage>,
}

/// The value of a thread's state.
pub struct Runtime {
    pub thread: Seq<char>,
    pub directory: Seq<char>,
    pub session: Option<Seq<char>>,
    pub busy: bool,
    pub queue: Seq<Message>,
}

/// The values of some queued messages.
pub open spec fn messages(q: Seq<QueuedMessage>) -> Seq<Message> {
    Seq::new(q.len(), |i: int| q[i]@)
}

impl View for ThreadRuntime {
    type V = Runtime;

    closed spec fn view(&self) -> Runtime {
        Runtime {
            thread: self.thread_id@,
            directory: self.directory@,
            session: text::opt_view(self.session_id),
            busy: self.busy,
            queue: messages(self.queue@),
        }
    }
}

/// A message that had to wait says so when it is dispatched.
pub open spec fn marked(m: Message) -> Message {
    Message { show_marker: true, ..m }
}

/// What a message that reaches a thread does.
#[derive(Debug)]
pub enum Incoming {
    /// The session was idle: a dispatch starts with this message.
    Start(QueuedMessage),
    /// The message waits at this position, counted from one.
    Queued(usize),
    /// The message is next, and interrupts the current step after the grace period if
    /// it is still waiting then.
    Interrupt(Option<String>),
}

/// The value of what a message does.
pub enum Arrival {
    Start(Message),
    Queued(int),
    Interrupt(Option<Seq<char>>),
}

impl View for Incoming {
    type V = Arrival;

    open spec fn view(&self) -> Arrival {
        match *self {
            Incoming::Start(m) => Arrival::Start(m@),
            Incoming::Queued(n) => Arrival::Queued(n as int),
            Incoming::Interrupt(s) => Arrival::Interrupt(text::opt_view(s)),
        }
    }
}

impl Incoming {
    /// What the sender is told: only a message that waits its turn has a position.
    pub fn result(&self) -> (r: EnqueueResult)
        ensures
            match self@ {
                Arrival::Queued(n) => r matches EnqueueResult::Queued(p) && p == n,
                _ => r is Dispatched,
            },
    {
        match self {
            Incoming::Queued(n) => EnqueueResult::Queued(*n),
            _ => EnqueueResult::Dispatched,
        }
    }
}

/// The thread after a message has reached it.
pub open spec fn enqueued(rt: Runtime, m: Message, wait: bool) -> Runtime {
    if !rt.busy {
        Runtime { busy: true, ..rt }
    } else if wait {
        Runtime { queue: rt.queue.push(marked(m)), ..rt }
    } else {
        Runtime { queue: seq![m] + rt.queue, ..rt }
    }
}

/// What the message does there.
pub open spec fn arrival(rt: Runtime, m: Message, wait: bool) -> Arrival {
    if !rt.busy {
        Arrival::Start(m)
    } else if wait {
        Arrival::Queued((rt.queue.len() + 1) as int)
    } else {
        Arrival::Interrupt(m.source)
    }
}

/// The thread after a run has ended: the next message leaves the queue, or the thread
/// is idle.
pub open spec fn drained(rt: Runtime) -> Runtime {
    if rt.queue.len() > 0 {
        Runtime { queue: rt.queue.drop_first(), ..rt }
    } else {
        Runtime { busy: false, ..rt }
    }
}

/// The message that is dispatched next.
pub open spec fn next_message(rt: Runtime) -> Option<Message> {
    if rt.queue.len() > 0 {
        Some(rt.queue[0])
    } else {
        None
    }
}

/// The session and directory to abort so that the message with this source gets its
/// turn, if it is still the next one and a run is going on.
pub open spec fn interrupted(rt: Runtime, source: Option<Seq<char>>) -> Option<
    (Seq<char>, Seq<char>),
> {
    match rt.session {
        Some(session) => if rt.busy && rt.queue.len() > 0 && rt.queue[0].source == source {
            Some((session, rt.directory))
        } else {
            None
        },
        None => None,
    }
}

/// The position of the first message from `source`, from `i` on.
pub open spec fn position_from(q: Seq<Message>, source: Seq<char>, i: int) -> Option<int>
    decreases q.len() - i,
{
    if i >= q.len() {
        None
    } else if q[i].source == Some(source) {
        Some(i)
    } else {
        position_from(q, source, i + 1)
    }
}

/// The position of the queued message that came from `source`.
pub open spec fn position_of(q: Seq<Message>, source: Seq<char>) -> Option<int> {
    position_from(q, source, 0)
}

/// The queue after the message from `source` was edited: new text with the queue
/// suffix keeps the entry, updated; losing the suffix drops it.
pub open spec fn edited_queue(q: Seq<Message>, source: Seq<char>, content: Seq<char>) -> Seq<
    Message,
> {
    match position_of(q, source) {
        Some(p) => {
            let (kind, prompt) = delivery::parsed(content);
            if kind == Delivery::Queue {
                q.update(p, Message { prompt, ..q[p] })
            } else {
                q.remove(p)
            }
        },
        None => q,
    }
}

pub open spec fn edit_outcome(q: Seq<Message>, source: Seq<char>, content: Seq<char>) -> QueueEditOutcome {
    if position_of(q, source) is None {
        QueueEditOutcome::NotFound
    } else if delivery::parsed(content).0 == Delivery::Queue {
        QueueEditOutcome::Updated
    } else {
        QueueEditOutcome::Removed
    }
}

/// The queue after it was cleared, or one position (counted from one) of it.
pub open spec fn cleared_queue(q: Seq<Message>, position: Option<usize>) -> Seq<Message> {
    match position {
        None => Seq::empty(),
        Some(p) => if 1 <= p <= q.len() {
            q.remove(p - 1)
        } else {
            q
        },
    }
}

/// The number of entries that clearing removes, or why it does not.
pub open spec fn cleared_count(q: Seq<Message>, position: Option<usize>) -> Result<int, Seq<char>> {
    match position {
        None => Ok(q.len() as int),
        Some(p) => if 1 <= p <= q.len() {
            Ok(1)
        } else {
            Err("no queued message at position "@ + numbers::decimal(p as nat))
        },
    }
}

fn same_source(a: &Option<String>, b: &Option<String>) -> (r: bool)
    ensures
        r == (text::opt_view(*a) == text::opt_view(*b)),
{
    match (a, b) {
        (Some(x), Some(y)) => text::same_text(x.as_str(), y.as_str()),
        (None, None) => true,
        _ => false,
    }
}

impl ThreadRuntime {
    /// An idle thread without queued messages.
    pub fn new(thread_id: &str, directory: String, session_id: Option<String>) -> (r: ThreadRuntime)
        ensures
            r@ == (Runtime {
                thread: thread_id@,
                directory: directory@,
                session: text::opt_view(session_id),
                busy: false,
                queue: Seq::empty(),
            }),
    {
        let queue: VecDeque<QueuedMessage> = VecDeque::new();
        proof {
            assert(messages(queue@) =~= Seq::<Message>::empty());
        }
        ThreadRuntime { thread_id: thread_id.to_owned(), directory, session_id, busy: false, queue }
    }

    pub fn thread_id(&self) -> (r: &str)
        ensures
            r@ == self@.thread,
    {
        self.thread_id.as_str()
    }

    pub fn directory(&self) -> (r: &str)
        ensures
            r@ == self@.directory,
    {
        self.directory.as_str()
    }

    pub fn session_id(&self) -> (r: &Option<String>)
        ensures
            text::opt_view(*r) == self@.session,
    {
        &self.session_id
    }

    pub fn is_busy(&self) -> (r: bool)
        ensures
            r == self@.busy,
    {
        self.busy
    }

    /// The waiting messages, the next one first.
    pub fn queue(&self) -> (r: &VecDeque<QueuedMessage>)
        ensures
            messages(r@) == self@.queue,
    {
        &self.queue
    }

    /// Point the thread at another directory; its queue and dispatch loop carry over.
    pub fn retarget(&mut self, directory: String)
        ensures
            final(self)@ == (Runtime { directory: directory@, ..old(self)@ }),
    {
        self.directory = directory;
    }

    /// Replace the session (used after forking into a worktree).
    pub fn set_session_id(&mut self, session_id: &str)
        ensures
            final(self)@ == (Runtime { session: Some(session_id@), ..old(self)@ }),
    {
        self.session_id = Some(session_id.to_owned());
    }

    /// Drop the session so the next message starts a fresh one (used after a merge
    /// removes the worktree directory the session lived in).
    pub fn reset_session(&mut self)
        ensures
            final(self)@ == (Runtime { session: None, ..old(self)@ }),
    {
        self.session_id = None;
    }

    /// Entry point for a message that should reach the agent in this thread.
    ///
    /// Idle session: dispatch immediately. Busy session: either wait in the queue
    /// (`queue_delivery`) or join the queue front and interrupt the current step after
    /// the configured grace period.
    pub fn enqueue_incoming(&mut self, msg: QueuedMessage, queue_delivery: bool) -> (r: Incoming)
        ensures
            r@ == arrival(old(self)@, msg@, queue_delivery),
            final(self)@ == enqueued(old(self)@, msg@, queue_delivery),
    {
        if !self.busy {
            self.busy = true;
            return Incoming::Start(msg);
        }
        let ghost before = messages(self.queue@);
        if queue_delivery {
            let mut msg = msg;
            msg.show_marker = true;
            self.queue.push_back(msg);
            proof {
                assert(messages(self.queue@) =~= before.push(msg@));
            }
            return Incoming::Queued(self.queue.len());
        }
        let source = msg.source_message_id.clone();
        self.queue.push_front(msg);
        proof {
            assert(messages(self.queue@) =~= seq![msg@] + before);
        }
        Incoming::Interrupt(source)
    }

    /// What to abort so that the message with this source gets its turn.
    pub fn interrupt_target(&self, source: &Option<String>) -> (r: Option<(String, String)>)
        ensures
            match r {
                Some(p) => interrupted(self@, text::opt_view(*source)) == Some((p.0@, p.1@)),
                None => interrupted(self@, text::opt_view(*source)) is None,
            },
    {
        if !self.busy || self.queue.len() == 0 {
            return None;
        }
        if !same_source(&self.queue[0].source_message_id, source) {
            return None;
        }
        match &self.session_id {
            Some(s) => Some((s.clone(), self.directory.clone())),
            None => None,
        }
    }

    /// The message to dispatch after a run has ended; without one the thread is idle.
    pub fn next_dispatch(&mut self) -> (r: Option<QueuedMessage>)
        ensures
            match r {
                Some(m) => next_message(old(self)@) == Some(m@),
                None => next_message(old(self)@) is None,
            },
            final(self)@ == drained(old(self)@),
    {
        let ghost before = messages(self.queue@);
        match self.queue.pop_front() {
            Some(m) => {
                proof {
                    assert(messages(self.queue@) =~= before.drop_first());
                }
                Some(m)
            },
            None => {
                self.busy = false;
                proof {
                    assert(messages(self.queue@) =~= before);
                }
                None
            },
        }
    }

    fn find_source(&self, source: &str) -> (r: Option<usize>)
        ensures
            match r {
                Some(p) => position_of(self@.queue, source@) == Some(p as int) && p
                    < self.queue@.len(),
                None => position_of(self@.queue, source@) is None,
            },
    {
        let ghost q = messages(self.queue@);
        let mut i: usize = 0;
        while i < self.queue.len()
            invariant
                i <= self.queue@.len(),
                q == messages(self.queue@),
                position_of(q, source@) == position_from(q, source@, i as int),
            decreases self.queue@.len() - i,
        {
            let hit = match &self.queue[i].source_message_id {
                Some(s) => text::same_text(s.as_str(), source),
                None => false,
            };
            proof {
                assert(q[i as int] == self.queue@[i as int]@);
            }
            if hit {
                return Some(i);
            }
            i = i + 1;
        }
        None
    }

    /// Apply an edit of a chat message to its queued entry: new text with the queue
    /// suffix keeps it (updated), losing the suffix drops it.
    pub fn update_queue_item_for_edit(
        &mut self,
        source_message_id: &str,
        new_content: &str,
    ) -> (r: QueueEditOutcome)
        ensures
            r == edit_outcome(old(self)@.queue, source_message_id@, new_content@),
            final(self)@ == (Runtime {
                queue: edited_queue(old(self)@.queue, source_message_id@, new_content@),
                ..old(self)@
            }),
    {
        let parsed = delivery::parse_message(new_content);
        let ghost q = messages(self.queue@);
        let pos: usize = match self.find_source(source_message_id) {
            Some(p) => p,
            None => return QueueEditOutcome::NotFound,
        };
        match self.queue.remove(pos) {
            Some(entry) => {
                proof {
                    assert(messages(self.queue@) =~= q.remove(pos as int));
                    assert(entry@ == q[pos as int]);
                }
                if parsed.delivery == Delivery::Queue {
                    let mut entry = entry;
                    entry.prompt = parsed.prompt;
                    let ghost rest = messages(self.queue@);
                    self.queue.insert(pos, entry);
                    proof {
                        assert(messages(self.queue@) =~= rest.insert(pos as int, entry@));
                        assert(rest.insert(pos as int, entry@) =~= q.update(pos as int, entry@));
                    }
                    QueueEditOutcome::Updated
                } else {
                    QueueEditOutcome::Removed
                }
            },
            None => QueueEditOutcome::NotFound,
        }
    }

    /// Clear the whole queue (None) or one 1-based position. Returns the number of
    /// removed entries, or an error for a bad position.
    pub fn clear_queue(&mut self, position: Option<usize>) -> (r: Result<usize, String>)
        ensures
            match r {
                Ok(n) => cleared_count(old(self)@.queue, position) == Ok::<int, Seq<char>>(
                    n as int,
                ),
                Err(e) => cleared_count(old(self)@.queue, position) == Err::<int, Seq<char>>(e@),
            },
            final(self)@ == (Runtime {
                queue: cleared_queue(old(self)@.queue, position),
                ..old(self)@
            }),
    {
        let ghost q = messages(self.queue@);
        match position {
            None => {
                let n = self.queue.len();
                self.queue.clear();
                proof {
                    assert(messages(self.queue@) =~= Seq::<Message>::empty());
                }
                Ok(n)
            },
            Some(p) => {
                if p == 0 || p > self.queue.len() {
                    return Err(
                        "no queued message at position ".to_owned().concat(
                            numbers::decimal_u64(p as u64).as_str(),
                        ),
                    );
                }
                let _ = self.queue.remove(p - 1);
                proof {
                    assert(messages(self.queue@) =~= q.remove(p - 1));
                }
                Ok(1)
            },
        }
    }
}

// ---- all threads ----

/// The live runtimes, one per thread.
#[derive(Debug)]
pub struct Runtimes {
    list: Vec<ThreadRuntime>,
}

pub open spec fn runtime_views(v: Seq<ThreadRuntime>) -> Seq<Runtime> {
    Seq::new(v.len(), |i: int| v[i]@)
}

impl View for Runtimes {
    type V = Seq<Runtime>;

    closed spec fn view(&self) -> Seq<Runtime> {
        runtime_views(self.list@)
    }
}

/// The place of a thread's runtime, from `i` on.
pub open spec fn place_from(v: Seq<Runtime>, thread: Seq<char>, i: int) -> Option<int>
    decreases v.len() - i,
{
    if i >= v.len() {
        None
    } else if v[i].thread == thread {
        Some(i)
    } else {
        place_from(v, thread, i + 1)
    }
}

/// The place of a thread's runtime.
pub open spec fn place_of(v: Seq<Runtime>, thread: Seq<char>) -> Option<int> {
    place_from(v, thread, 0)
}

/// Whether no two runtimes belong to one thread.
pub open spec fn one_per_thread(v: Seq<Runtime>) -> bool {
    forall|i: int, j: int|
        0 <= i < j < v.len() ==> (#[trigger] v[i]).thread != (#[trigger] v[j]).thread
}

/// The runtimes after that of a thread was looked up or created. An existing one is
/// retargeted in place; a new one takes up the stored session. A session that cannot
/// be read must not look like "no session": that would silently start a fresh one and
/// overwrite the thread's context binding.
pub open spec fn opened(
    v: Seq<Runtime>,
    thread: Seq<char>,
    directory: Seq<char>,
    stored: Result<Option<Seq<char>>, Seq<char>>,
) -> Seq<Runtime> {
    match place_of(v, thread) {
        Some(i) => v.update(i, Runtime { directory, ..v[i] }),
        None => match stored {
            Ok(session) => v.push(
                Runtime { thread, directory, session, busy: false, queue: Seq::empty() },
            ),
            Err(_) => v,
        },
    }
}

pub open spec fn res_maybe(r: Result<Option<String>, String>) -> Result<
    Option<Seq<char>>,
    Seq<char>,
> {
    match r {
        Ok(o) => Ok(text::opt_view(o)),
        Err(e) => Err(e@),
    }
}

proof fn lemma_place_from(v: Seq<Runtime>, thread: Seq<char>, i: int)
    requires
        0 <= i,
    ensures
        match place_from(v, thread, i) {
            Some(p) => i <= p < v.len() && v[p].thread == thread && forall|j: int|
                i <= j < p ==> (#[trigger] v[j]).thread != thread,
            None => forall|j: int| i <= j < v.len() ==> (#[trigger] v[j]).thread != thread,
        },
    decreases v.len() - i,
{
    if i < v.len() && v[i].thread != thread {
        lemma_place_from(v, thread, i + 1);
    }
}

impl Runtimes {
    pub fn new() -> (r: Runtimes)
        ensures
            r@ == Seq::<Runtime>::empty(),
    {
        let list: Vec<ThreadRuntime> = Vec::new();
        proof {
            assert(runtime_views(list@) =~= Seq::<Runtime>::empty());
        }
        Runtimes { list }
    }

    fn place(&self, thread_id: &str) -> (r: Option<usize>)
        ensures
            match r {
                Some(i) => place_of(self@, thread_id@) == Some(i as int) && i < self.list@.len(),
                None => place_of(self@, thread_id@) is None,
            },
    {
        let ghost v = runtime_views(self.list@);
        let mut i: usize = 0;
        while i < self.list.len()
            invariant
                i <= self.list@.len(),
                v == runtime_views(self.list@),
                place_of(v, thread_id@) == place_from(v, thread_id@, i as int),
            decreases self.list@.len() - i,
        {
            proof {
                assert(v[i as int] == self.list@[i as int]@);
            }
            if text::same_text(self.list[i].thread_id(), thread_id) {
                return Some(i);
            }
            i = i + 1;
        }
        None
    }

    /// Whether a thread has a runtime.
    pub fn contains(&self, thread_id: &str) -> (r: bool)
        ensures
            r == (place_of(self@, thread_id@) is Some),
    {
        self.place(thread_id).is_some()
    }

    /// The runtime of a thread.
    pub fn get(&self, thread_id: &str) -> (r: Option<&ThreadRuntime>)
        ensures
            match r {
                Some(rt) => place_of(self@, thread_id@) matches Some(i) && self@[i] == rt@,
                None => place_of(self@, thread_id@) is None,
            },
    {
        match self.place(thread_id) {
            Some(i) => Some(&self.list[i]),
            None => None,
        }
    }

    /// The runtime of a thread, to be changed in place.
    pub fn get_mut(&mut self, thread_id: &str) -> (r: Option<&mut ThreadRuntime>)
        ensures
            match r {
                Some(rt) => place_of(old(self)@, thread_id@) matches Some(i) && old(self)@[i]
                    == rt@ && final(self)@ == old(self)@.update(i, final(rt)@),
                None => place_of(old(self)@, thread_id@) is None && final(self)@ == old(self)@,
            },
    {
        match self.place(thread_id) {
            Some(i) => {
                Some(&mut self.list[i])
            },
            None => None,
        }
    }

    /// Look up or create the runtime for a thread, restoring the persisted session id
    /// when one exists. A runtime is never replaced for a live thread.
    pub fn get_or_create_runtime(
        &mut self,
        thread_id: &str,
        directory: String,
        stored: Result<Option<String>, String>,
    ) -> (r: Result<(), String>)
        ensures
            final(self)@ == opened(old(self)@, thread_id@, directory@, res_maybe(stored)),
            match r {
                Ok(_) => place_of(old(self)@, thread_id@) is Some || stored is Ok,
                Err(e) => place_of(old(self)@, thread_id@) is None && res_maybe(stored) == Err::<
                    Option<Seq<char>>,
                    Seq<char>,
                >(e@),
            },
    {
        let ghost v = runtime_views(self.list@);
        match self.place(thread_id) {
            Some(i) => {
                self.list[i].retarget(directory);
                proof {
                    assert(runtime_views(self.list@) =~= v.update(
                        i as int,
                        Runtime { directory: directory@, ..v[i as int] },
                    ));
                }
                Ok(())
            },
            None => match stored {
                Ok(session) => {
                    self.list.push(ThreadRuntime::new(thread_id, directory, session));
                    proof {
                        assert(runtime_views(self.list@) =~= v.push(self.list@.last()@));
                    }
                    Ok(())
                },
                Err(e) => Err(e),
            },
        }
    }
}

/// The first runtime, from `i` on, whose queue holds a message from `source`.
pub open spec fn holder_from(v: Seq<Runtime>, source: Seq<char>, i: int) -> Option<int>
    decreases v.len() - i,
{
    if i >= v.len() {
        None
    } else if position_of(v[i].queue, source) is Some {
        Some(i)
    } else {
        holder_from(v, source, i + 1)
    }
}

/// The first runtime whose queue holds a message from `source`.
pub open spec fn holder_of(v: Seq<Runtime>, source: Seq<char>) -> Option<int> {
    holder_from(v, source, 0)
}

impl Runtimes {
    /// Apply a message edit when the platform doesn't say which thread it belongs to:
    /// scan every live runtime for the queued entry. Returns the owning thread id and
    /// the outcome.
    pub fn update_queue_item_in_any(&mut self, source_message_id: &str, new_content: &str) -> (r:
        Option<(String, QueueEditOutcome)>)
        ensures
            match holder_of(old(self)@, source_message_id@) {
                Some(i) => {
                    let rt = old(self)@[i];
                    &&& r matches Some(p) && p.0@ == rt.thread && p.1 == edit_outcome(
                        rt.queue,
                        source_message_id@,
                        new_content@,
                    )
                    &&& final(self)@ == old(self)@.update(
                        i,
                        Runtime {
                            queue: edited_queue(rt.queue, source_message_id@, new_content@),
                            ..rt
                        },
                    )
                },
                None => r is None && final(self)@ == old(self)@,
            },
    {
        let ghost v = runtime_views(self.list@);
        let mut i: usize = 0;
        while i < self.list.len()
            invariant
                i <= self.list@.len(),
                v == old(self)@,
                v == runtime_views(self.list@),
                holder_of(v, source_message_id@) == holder_from(v, source_message_id@, i as int),
            decreases self.list@.len() - i,
        {
            proof {
                assert(v[i as int] == self.list@[i as int]@);
            }
            let outcome = self.list[i].update_queue_item_for_edit(source_message_id, new_content);
            proof {
                let rt = v[i as int];
                assert(runtime_views(self.list@) =~= v.update(
                    i as int,
                    Runtime {
                        queue: edited_queue(rt.queue, source_message_id@, new_content@),
                        ..rt
                    },
                ));
                if position_of(rt.queue, source_message_id@) is None {
                    assert(runtime_views(self.list@) =~= v);
                }
            }
            if outcome != QueueEditOutcome::NotFound {
                return Some((self.list[i].thread_id().to_owned(), outcome));
            }
            i = i + 1;
        }
        None
    }
}

// ---- dispatching ----

/// What announces a message that had to wait.
pub open spec fn dispatch_notice(m: Message) -> Option<Seq<char>> {
    if m.show_marker {
        Some(
            rendering::QUEUE_PREFIX@ + "**"@ + m.username + ":** "@ + rendering::preview(
                m.prompt,
                150,
            ),
        )
    } else {
        None
    }
}

/// What announces a message that had to wait.
pub fn announce(msg: &QueuedMessage) -> (r: Option<String>)
    ensures
        text::opt_view(r) == dispatch_notice(msg@),
{
    if !msg.show_marker {
        return None;
    }
    let preview = rendering::prompt_preview(msg.prompt.as_str(), 150);
    Some(
        rendering::QUEUE_PREFIX.to_owned().concat("**").concat(msg.username.as_str()).concat(
            ":** ",
        ).concat(preview.as_str()),
    )
}

/// How a failed run is told.
pub fn failure_text(error: &str) -> (r: String)
    ensures
        r@ == "⚠️ "@ + error@,
{
    "⚠️ ".to_owned().concat(error)
}

/// The session of a thread, created on first use. The thread is only bound to a new
/// session once that has been stored.
pub open spec fn ensuring(
    thread: Seq<char>,
    session: Option<Seq<char>>,
    directory: Seq<char>,
    log: Seq<Answer>,
    i: int,
) -> Path<Result<Seq<char>, Seq<char>>> {
    match session {
        Some(id) => Path::Done(Ok(id), i),
        None => match flow::heard_text(log, i) {
            Heard::Pending => Path::Do(
                Act::CreateSession { directory, title: "chat thread "@ + thread },
            ),
            Heard::Failed(e) => Path::Done(Err(e), i + 1),
            Heard::Value(id) => match flow::heard_done(log, i + 1) {
                Heard::Pending => Path::Do(Act::BindSession { thread, session: id }),
                Heard::Failed(e) => Path::Done(Err(e), i + 2),
                Heard::Value(_) => Path::Done(Ok(id), i + 2),
            },
        },
    }
}

/// The session of a thread, created on first use.
pub fn ensure_session(
    thread_id: &str,
    session_id: &Option<String>,
    directory: &str,
    log: &Vec<Reply>,
    from: usize,
) -> (r: Flow<Result<String, String>>)
    ensures
        flow::at_text(r) == ensuring(
            thread_id@,
            text::opt_view(*session_id),
            directory@,
            flow::answers(log@),
            from as int,
        ),
        r matches Flow::Done(_, n) ==> n <= log@.len() || n == from,
{
    if let Some(id) = session_id {
        return Flow::Done(Ok(id.clone()), from);
    }
    let id = match flow::got_text(log, from) {
        Got::Pending => return Flow::Do(
            Effect::CreateSession {
                directory: directory.to_owned(),
                title: "chat thread ".to_owned().concat(thread_id),
            },
        ),
        Got::Failed(e) => return Flow::Done(Err(e), from + 1),
        Got::Value(s) => s,
    };
    match flow::got_done(log, from + 1) {
        Got::Pending => Flow::Do(
            Effect::BindSession { thread: thread_id.to_owned(), session: id },
        ),
        Got::Failed(e) => Flow::Done(Err(e), from + 2),
        Got::Value(_) => Flow::Done(Ok(id), from + 2),
    }
}

// ---- rendering a run ----

/// What has been shown of a run while it goes on.
#[derive(Debug)]
pub struct LiveRenderer {
    session_id: String,
    rendered: Vec<String>,
}

/// The value of what has been shown.
pub struct Live {
    pub session: Seq<char>,
    pub rendered: Set<Seq<char>>,
}

impl View for LiveRenderer {
    type V = Live;

    closed spec fn view(&self) -> Live {
        Live { session: self.session_id@, rendered: text::texts(self.rendered@).to_set() }
    }
}

/// The part that an event updates, if it is one to show while the run goes on: a part
/// of this session that is not text. Text is shown at the end of the run.
pub open spec fn live_part(session: Seq<char>, ev: BusEvent) -> Option<PartView> {
    if ev.session != Some(session) || ev.kind != "message.part.updated"@ {
        None
    } else {
        match ev.payload.get("properties"@) {
            None => None,
            Some(props) => match props.get("part"@) {
                None => None,
                Some(v) => match opencode::part_of(v) {
                    Some(p) => if p.kind == "text"@ {
                        None
                    } else {
                        Some(p)
                    },
                    None => None,
                },
            },
        }
    }
}

pub open spec fn part_status(p: PartView) -> Seq<char> {
    match p.payload.get("state"@) {
        Some(state) => match state.str_at("status"@) {
            Some(s) => s,
            None => ""@,
        },
        None => ""@,
    }
}

/// What identifies a part in one of its states.
pub open spec fn part_key(p: PartView) -> Seq<char> {
    p.id + ":"@ + part_status(p)
}

/// What has been shown after an event.
pub open spec fn live_after(live: Live, ev: BusEvent) -> Live {
    match live_part(live.session, ev) {
        Some(p) => Live { rendered: live.rendered.insert(part_key(p)), ..live },
        None => live,
    }
}

/// The line that an event adds: each tool is shown once, when it completes or fails.
pub open spec fn live_line(live: Live, ev: BusEvent) -> Option<Seq<char>> {
    match live_part(live.session, ev) {
        Some(p) => if live.rendered.contains(part_key(p)) || (part_status(p) != "completed"@
            && part_status(p) != "error"@) {
            None
        } else {
            rendering::part_line(p.kind, p.payload)
        },
        None => None,
    }
}

fn part_to_show(session: &str, event: &Event) -> (r: Option<Part>)
    ensures
        match r {
            Some(p) => live_part(session@, event@) == Some(p@),
            None => live_part(session@, event@) is None,
        },
{
    let mine = match &event.session_id {
        Some(s) => text::same_text(s.as_str(), session),
        None => false,
    };
    if !mine || !text::same_text(event.kind.as_str(), "message.part.updated") {
        return None;
    }
    match event.payload.get("properties") {
        None => None,
        Some(props) => match props.get("part") {
            None => None,
            Some(v) => match opencode::part_from_event(v) {
                Some(p) => if text::same_text(p.kind.as_str(), "text") {
                    None
                } else {
                    Some(p)
                },
                None => None,
            },
        },
    }
}

fn status_of(part: &Part) -> (r: &str)
    ensures
        r@ == part_status(part@),
{
    match part.payload.get("state") {
        Some(state) => match state.str_at("status") {
            Some(s) => s,
            None => "",
        },
        None => "",
    }
}

impl LiveRenderer {
    pub fn new(session_id: &str) -> (r: LiveRenderer)
        ensures
            r@ == (Live { session: session_id@, rendered: Set::empty() }),
    {
        let rendered: Vec<String> = Vec::new();
        proof {
            assert(text::texts(rendered@) =~= Seq::<Seq<char>>::empty());
            assert(text::texts(rendered@).to_set() =~= Set::<Seq<char>>::empty());
        }
        LiveRenderer { session_id: session_id.to_owned(), rendered }
    }

    /// Whether the key was shown before; from now on it was.
    fn note(&mut self, key: String) -> (r: bool)
        ensures
            r == old(self)@.rendered.contains(key@),
            final(self)@ == (Live {
                rendered: old(self)@.rendered.insert(key@),
                ..old(self)@
            }),
    {
        let ghost keys = text::texts(self.rendered@);
        let mut i: usize = 0;
        while i < self.rendered.len()
            invariant
                i <= self.rendered@.len(),
                *self == *old(self),
                keys == text::texts(self.rendered@),
                forall|k: int| 0 <= k < i ==> keys[k] != key@,
            decreases self.rendered@.len() - i,
        {
            if text::same_text(self.rendered[i].as_str(), key.as_str()) {
                proof {
                    assert(keys[i as int] == key@);
                    assert(keys.to_set().contains(key@));
                    assert(keys.to_set().insert(key@) =~= keys.to_set());
                }
                return true;
            }
            i = i + 1;
        }
        proof {
            assert(!keys.to_set().contains(key@));
        }
        self.rendered.push(key);
        proof {
            let after = text::texts(self.rendered@);
            assert(after =~= keys.push(key@));
            assert forall|x: Seq<char>| after.to_set().contains(x) == keys.to_set().insert(
                key@,
            ).contains(x) by {
                if keys.contains(x) {
                    let k = choose|k: int| 0 <= k < keys.len() && keys[k] == x;
                    assert(after[k] == x);
                }
                if x == key@ {
                    assert(after[keys.len() as int] == x);
                }
                if after.contains(x) {
                    let k = choose|k: int| 0 <= k < after.len() && after[k] == x;
                    if k < keys.len() {
                        assert(keys[k] == x);
                    }
                }
            }
            assert(after.to_set() =~= keys.to_set().insert(key@));
        }
        false
    }

    /// The line that an event adds to the thread while the run goes on.
    pub fn on_event(&mut self, event: &Event) -> (r: Option<String>)
        ensures
            text::opt_view(r) == live_line(old(self)@, event@),
            final(self)@ == live_after(old(self)@, event@),
    {
        let part = match part_to_show(self.session_id.as_str(), event) {
            Some(p) => p,
            None => return None,
        };
        let status = status_of(&part);
        let key = part.id.clone().concat(":").concat(status);
        let seen = self.note(key);
        if seen {
            return None;
        }
        if !text::same_text(status, "completed") && !text::same_text(status, "error") {
            return None;
        }
        rendering::format_part(&part)
    }
}

/// A part is shown at most once in one of its states: after an event, no event about
/// the same part in the same state adds a line, and what was shown stays shown.
pub proof fn law_rendered_once(live: Live, first: BusEvent, later: BusEvent)
    requires
        live_part(live.session, first) matches Some(p) && live_part(live.session, later) matches Some(
            q,
        ) && part_key(p) == part_key(q),
    ensures
        live_line(live_after(live, first), later) is None,
        live.rendered.subset_of(live_after(live, first).rendered),
{
}

/// The texts of a turn, as they are shown.
pub open spec fn turn_texts(parts: Seq<PartView>) -> Seq<Seq<char>>
    decreases parts.len(),
{
    if parts.len() == 0 {
        Seq::empty()
    } else {
        let p = parts.last();
        let before = turn_texts(parts.drop_last());
        if p.kind != "text"@ {
            before
        } else {
            match rendering::part_line(p.kind, p.payload) {
                Some(line) => before.push(line),
                None => before,
            }
        }
    }
}

/// Everything that is sent when a run has ended: its texts, or that there are none,
/// and the footer.
pub open spec fn turn_lines(parts: Seq<PartView>, secs: nat) -> Seq<Seq<char>> {
    let said = turn_texts(parts);
    let body = if said.len() == 0 {
        seq!["⬥ (no reply text)"@]
    } else {
        said
    };
    body.push(rendering::footer_text(secs))
}

/// Everything that is sent when a run has ended.
pub fn turn_messages(parts: &Vec<Part>, elapsed: std::time::Duration) -> (r: Vec<String>)
    ensures
        text::texts(r@) == turn_lines(
            opencode::part_views(parts@),
            rendering::whole_seconds(elapsed) as nat,
        ),
{
    let ghost all = opencode::part_views(parts@);
    let mut out: Vec<String> = Vec::new();
    let mut i: usize = 0;
    proof {
        assert(all.take(0) =~= Seq::<PartView>::empty());
        assert(text::texts(out@) =~= Seq::<Seq<char>>::empty());
    }
    while i < parts.len()
        invariant
            i <= parts@.len(),
            all == opencode::part_views(parts@),
            text::texts(out@) == turn_texts(all.take(i as int)),
        decreases parts@.len() - i,
    {
        let ghost before = text::texts(out@);
        proof {
            assert(all.take(i + 1).drop_last() =~= all.take(i as int));
            assert(all.take(i + 1).last() == parts@[i as int]@);
        }
        if text::same_text(parts[i].kind.as_str(), "text") {
            if let Some(line) = rendering::format_part(&parts[i]) {
                out.push(line);
                proof {
                    assert(text::texts(out@) =~= before.push(line@));
                }
            }
        }
        i = i + 1;
    }
    proof {
        assert(all.take(parts@.len() as int) =~= all);
    }
    if out.len() == 0 {
        out.push("⬥ (no reply text)".to_owned());
        proof {
            assert(text::texts(out@) =~= seq!["⬥ (no reply text)"@]);
        }
    }
    let ghost body = text::texts(out@);
    out.push(rendering::turn_footer(elapsed));
    proof {
        assert(text::texts(out@) =~= body.push(out@.last()@));
    }
    out
}

// ---- a run from its prompt to its footer ----

/// Messages for a thread, one after the other. One that cannot be sent is passed over.
pub open spec fn saying(thread: Seq<char>, lines: Seq<Seq<char>>, log: Seq<Answer>, i: int) -> Path<
    Result<(), Seq<char>>,
>
    decreases lines.len(),
{
    if lines.len() == 0 {
        Path::Done(Ok(()), i)
    } else if !flow::tried(log, i) {
        Path::Do(Act::Send { thread, text: lines[0] })
    } else {
        saying(thread, lines.drop_first(), log, i + 1)
    }
}

/// One prompt: the session is made sure of, the prompt runs in it, and what it said is
/// sent to the thread.
pub open spec fn prompting(
    thread: Seq<char>,
    session: Option<Seq<char>>,
    directory: Seq<char>,
    prompt: Seq<char>,
    log: Seq<Answer>,
    i: int,
) -> Path<Result<(), Seq<char>>> {
    match ensuring(thread, session, directory, log, i) {
        Path::Do(a) => Path::Do(a),
        Path::Done(Err(e), n) => Path::Done(Err(e), n),
        Path::Done(Ok(id), n) => match flow::heard_turn(log, n) {
            Heard::Pending => Path::Do(
                Act::Prompt { thread, directory, session: id, text: prompt },
            ),
            Heard::Failed(e) => Path::Done(Err(e), n + 1),
            Heard::Value(turn) => saying(
                thread,
                turn_lines(turn.parts, turn.secs),
                log,
                n + 1,
            ),
        },
    }
}

fn say_all(thread_id: &str, lines: &Vec<String>, log: &Vec<Reply>, from: usize) -> (r: Flow<
    Result<(), String>,
>)
    requires
        from <= log@.len(),
    ensures
        flow::at_unit(r) == saying(
            thread_id@,
            text::texts(lines@),
            flow::answers(log@),
            from as int,
        ),
        r matches Flow::Done(o, n) ==> o is Ok && n <= log@.len(),
{
    let ghost all = text::texts(lines@);
    let mut k: usize = 0;
    let mut i: usize = from;
    proof {
        assert(all.skip(0) =~= all);
    }
    while k < lines.len()
        invariant
            k <= lines@.len(),
            from <= i <= log@.len(),
            all == text::texts(lines@),
            saying(thread_id@, all, flow::answers(log@), from as int) == saying(
                thread_id@,
                all.skip(k as int),
                flow::answers(log@),
                i as int,
            ),
        decreases lines@.len() - k,
    {
        proof {
            assert(all.skip(k as int).drop_first() =~= all.skip(k + 1));
            assert(all.skip(k as int)[0] == lines@[k as int]@);
        }
        if !flow::was_tried(log, i) {
            return Flow::Do(
                Effect::Send { thread: thread_id.to_owned(), text: lines[k].clone() },
            );
        }
        k = k + 1;
        i = i + 1;
    }
    Flow::Done(Ok(()), i)
}

/// Send one prompt to the session of a thread and render the run into the thread: the
/// final texts, followed by a footer. Progress is shown by a [`LiveRenderer`] while the
/// prompt runs.
pub fn run_prompt(
    thread_id: &str,
    session_id: &Option<String>,
    directory: &str,
    prompt: &str,
    log: &Vec<Reply>,
    from: usize,
) -> (r: Flow<Result<(), String>>)
    ensures
        flow::at_unit(r) == prompting(
            thread_id@,
            text::opt_view(*session_id),
            directory@,
            prompt@,
            flow::answers(log@),
            from as int,
        ),
        r matches Flow::Done(_, n) ==> n <= log@.len() || n == from,
{
    let (session, n) = match ensure_session(thread_id, session_id, directory, log, from) {
        Flow::Do(e) => return Flow::Do(e),
        Flow::Done(Err(e), n) => return Flow::Done(Err(e), n),
        Flow::Done(Ok(id), n) => (id, n),
    };
    match flow::got_turn(log, n) {
        Got::Pending => Flow::Do(
            Effect::Prompt {
                thread: thread_id.to_owned(),
                directory: directory.to_owned(),
                session,
                text: prompt.to_owned(),
            },
        ),
        Got::Failed(e) => Flow::Done(Err(e), n + 1),
        Got::Value(turn) => {
            let lines = turn_messages(turn.parts, turn.elapsed);
            say_all(thread_id, &lines, log, n + 1)
        },
    }
}

/// What is sent about the end of a run: nothing, or why it failed.
pub open spec fn run_told(thread: Seq<char>, run: Path<Result<(), Seq<char>>>, log: Seq<Answer>) -> Path<
    (),
> {
    match run {
        Path::Do(a) => Path::Do(a),
        Path::Done(Ok(_), n) => Path::Done((), n),
        Path::Done(Err(e), n) => if !flow::tried(log, n) {
            Path::Do(Act::Send { thread, text: "⚠️ "@ + e })
        } else {
            Path::Done((), n + 1)
        },
    }
}

/// One message of a thread: it is announced if it had to wait, and run; a failure is
/// told and ends nothing.
pub open spec fn dispatching(
    thread: Seq<char>,
    session: Option<Seq<char>>,
    directory: Seq<char>,
    m: Message,
    log: Seq<Answer>,
) -> Path<()> {
    match dispatch_notice(m) {
        Some(notice) => if !flow::tried(log, 0) {
            Path::Do(Act::Send { thread, text: notice })
        } else {
            run_told(thread, prompting(thread, session, directory, m.prompt, log, 1), log)
        },
        None => run_told(thread, prompting(thread, session, directory, m.prompt, log, 0), log),
    }
}

/// Where the dispatch of a message stands.
pub open spec fn at_end(f: Flow<()>) -> Path<()> {
    match f {
        Flow::Do(e) => Path::Do(e@),
        Flow::Done(_, n) => Path::Done((), n as int),
    }
}

/// Run one message of a thread. Once it has ended, `ThreadRuntime::next_dispatch` gives
/// the next one.
pub fn dispatch(
    thread_id: &str,
    session_id: &Option<String>,
    directory: &str,
    msg: &QueuedMessage,
    log: &Vec<Reply>,
) -> (r: Flow<()>)
    ensures
        at_end(r) == dispatching(
            thread_id@,
            text::opt_view(*session_id),
            directory@,
            msg@,
            flow::answers(log@),
        ),
{
    let mut i: usize = 0;
    if let Some(notice) = announce(msg) {
        if !flow::was_tried(log, i) {
            return Flow::Do(Effect::Send { thread: thread_id.to_owned(), text: notice });
        }
        i = 1;
    }
    match run_prompt(thread_id, session_id, directory, msg.prompt.as_str(), log, i) {
        Flow::Do(e) => Flow::Do(e),
        Flow::Done(Ok(_), n) => Flow::Done((), n),
        Flow::Done(Err(e), n) => {
            if !flow::was_tried(log, n) {
                return Flow::Do(
                    Effect::Send {
                        thread: thread_id.to_owned(),
                        text: failure_text(e.as_str()),
                    },
                );
            }
            Flow::Done((), n + 1)
        },
    }
}

/// A thread keeps its session: where it has one, no run creates or binds another.
pub proof fn law_session_is_kept(
    thread: Seq<char>,
    session: Seq<char>,
    directory: Seq<char>,
    m: Message,
    log: Seq<Answer>,
)
    ensures
        dispatching(thread, Some(session), directory, m, log) matches Path::Do(a) ==> !(
        a is CreateSession || a is BindSession) && (a matches Act::Prompt {
            thread: t,
            directory: d,
            session: s,
            text,
        } ==> t == thread && d == directory && s == session && text == m.prompt),
{
    let n: int = if dispatch_notice(m) is Some {
        1
    } else {
        0
    };
    if let Heard::Value(turn) = flow::heard_turn(log, n) {
        lemma_saying_sends(thread, turn_lines(turn.parts, turn.secs), log, n + 1);
    }
}

proof fn lemma_saying_sends(thread: Seq<char>, lines: Seq<Seq<char>>, log: Seq<Answer>, i: int)
    ensures
        saying(thread, lines, log, i) matches Path::Do(a) ==> a matches Act::Send {
            thread: t,
            text,
        } && t == thread && lines.contains(text),
        saying(thread, lines, log, i) matches Path::Done(r, n) ==> r is Ok && n == i
            + lines.len(),
    decreases lines.len(),
{
    if lines.len() > 0 {
        assert(lines.contains(lines[0]));
        lemma_saying_sends(thread, lines.drop_first(), log, i + 1);
        assert forall|x: Seq<char>| lines.drop_first().contains(x) implies lines.contains(x) by {
            let k = choose|k: int| 0 <= k < lines.drop_first().len() && lines.drop_first()[k] == x;
            assert(lines[k + 1] == x);
        }
    }
}

/// A run that ends well is always closed by its footer: the last message that is sent
/// says how long it took.
pub proof fn law_turn_ends_with_footer(parts: Seq<PartView>, secs: nat)
    ensures
        turn_lines(parts, secs).len() >= 2,
        turn_lines(parts, secs).last() == rendering::footer_text(secs),
{
}

// ---- what holds of every thread ----

/// Whether an idle thread has nothing waiting.
pub open spec fn idle_is_empty(rt: Runtime) -> bool {
    !rt.busy ==> rt.queue.len() == 0
}

/// Nothing ever waits in an idle thread: a fresh thread has no queue, and messages,
/// the end of a run, edits and clearing all keep it so.
pub proof fn law_idle_is_empty(
    rt: Runtime,
    m: Message,
    wait: bool,
    source: Seq<char>,
    content: Seq<char>,
    position: Option<usize>,
)
    requires
        idle_is_empty(rt),
    ensures
        idle_is_empty(enqueued(rt, m, wait)),
        idle_is_empty(drained(rt)),
        idle_is_empty(
            Runtime { queue: edited_queue(rt.queue, source, content), ..rt },
        ),
        idle_is_empty(Runtime { queue: cleared_queue(rt.queue, position), ..rt }),
{
    lemma_position_from(rt.queue, source, 0);
}

proof fn lemma_position_from(q: Seq<Message>, source: Seq<char>, i: int)
    requires
        0 <= i,
    ensures
        match position_from(q, source, i) {
            Some(p) => i <= p < q.len() && q[p].source == Some(source) && forall|j: int|
                i <= j < p ==> (#[trigger] q[j]).source != Some(source),
            None => forall|j: int| i <= j < q.len() ==> (#[trigger] q[j]).source != Some(source),
        },
    decreases q.len() - i,
{
    if i < q.len() && q[i].source != Some(source) {
        lemma_position_from(q, source, i + 1);
    }
}

/// A message sent while the agent is idle starts a run at once, whatever its suffix.
pub proof fn law_idle_starts(rt: Runtime, m: Message, wait: bool)
    requires
        !rt.busy,
    ensures
        arrival(rt, m, wait) == Arrival::Start(m),
        enqueued(rt, m, wait) == (Runtime { busy: true, ..rt }),
{
}

/// A normal message during a run is the very next one, and the step is aborted for it
/// if a session is bound. Once it is dispatched, the queue is what it was.
pub proof fn law_interrupt_is_next(rt: Runtime, m: Message)
    requires
        rt.busy,
    ensures
        next_message(enqueued(rt, m, false)) == Some(m),
        drained(enqueued(rt, m, false)) == rt,
        rt.session matches Some(session) ==> interrupted(enqueued(rt, m, false), m.source) == Some(
            (session, rt.directory),
        ),
{
    assert((seq![m] + rt.queue).drop_first() =~= rt.queue);
}

/// The thread after `n` runs have ended.
pub open spec fn drained_times(rt: Runtime, n: nat) -> Runtime
    decreases n,
{
    if n == 0 {
        rt
    } else {
        drained(drained_times(rt, (n - 1) as nat))
    }
}

/// The queue is served in order: after `n` runs the message at position `n` is next,
/// and after the last one the thread is idle.
pub proof fn law_queue_is_served_in_order(rt: Runtime, n: nat)
    requires
        n <= rt.queue.len(),
    ensures
        drained_times(rt, n) == (Runtime { queue: rt.queue.skip(n as int), ..rt }),
        n < rt.queue.len() ==> next_message(drained_times(rt, n)) == Some(rt.queue[n as int]),
        n == rt.queue.len() ==> drained(drained_times(rt, n)) == (Runtime {
            queue: Seq::empty(),
            busy: false,
            ..rt
        }),
    decreases n,
{
    if n == 0 {
        assert(rt.queue.skip(0) =~= rt.queue);
    } else {
        law_queue_is_served_in_order(rt, (n - 1) as nat);
        assert(rt.queue.skip(n - 1).drop_first() =~= rt.queue.skip(n as int));
    }
    if n == rt.queue.len() {
        assert(rt.queue.skip(n as int) =~= Seq::<Message>::empty());
    }
}

/// A queued message waits behind all that wait already, at the position it was told,
/// and says that it waited.
pub proof fn law_queued_is_last(rt: Runtime, m: Message)
    requires
        rt.busy,
    ensures
        enqueued(rt, m, true).queue == rt.queue.push(marked(m)),
        arrival(rt, m, true) == Arrival::Queued(enqueued(rt, m, true).queue.len() as int),
        dispatch_notice(enqueued(rt, m, true).queue.last()) is Some,
{
}

/// An edit touches at most the entry of its message: no other entry changes, and the
/// order stays. An edit of an unknown message changes nothing.
pub proof fn law_edit_touches_one(q: Seq<Message>, source: Seq<char>, content: Seq<char>)
    ensures
        position_of(q, source) is None ==> edited_queue(q, source, content) == q,
        position_of(q, source) matches Some(p) ==> 0 <= p < q.len() && q[p].source == Some(source)
            && match edit_outcome(q, source, content) {
            QueueEditOutcome::Updated => edited_queue(q, source, content) == q.update(
                p,
                Message { prompt: delivery::parsed(content).1, ..q[p] },
            ),
            _ => edited_queue(q, source, content) == q.take(p) + q.skip(p + 1),
        },
{
    lemma_position_from(q, source, 0);
    if let Some(p) = position_of(q, source) {
        assert(q.remove(p) =~= q.take(p) + q.skip(p + 1));
    }
}

/// There is never more than one runtime per thread, and opening one changes no other
/// and loses no queue.
pub proof fn law_one_runtime_per_thread(
    v: Seq<Runtime>,
    thread: Seq<char>,
    directory: Seq<char>,
    stored: Result<Option<Seq<char>>, Seq<char>>,
)
    requires
        one_per_thread(v),
    ensures
        one_per_thread(opened(v, thread, directory, stored)),
        v.len() <= opened(v, thread, directory, stored).len(),
        forall|i: int|
            0 <= i < v.len() ==> (#[trigger] opened(v, thread, directory, stored)[i]).queue
                == v[i].queue && opened(v, thread, directory, stored)[i].session == v[i].session
                && opened(v, thread, directory, stored)[i].busy == v[i].busy && (v[i].thread
                != thread ==> opened(v, thread, directory, stored)[i] == v[i]),
{
    lemma_place_from(v, thread, 0);
}

} // verus!
