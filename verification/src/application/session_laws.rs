//! What holds of a thread's session: which lines a run sends, what waits in the queue
//! and what a dispatch does, whatever the replies are.

use crate::application::flow::{Act, Answer, Path};
use crate::application::session_runtime;
use crate::application::session_runtime::{Arrival, Live, Runtime};
use crate::connector::opencode::{BusEvent, PartView};
use crate::domain::delivery;
use crate::domain::delivery::Delivery;
use crate::domain::rendering;
use crate::domain::session::{Message, QueueEditOutcome};
use crate::numbers;
use crate::text;
use vstd::prelude::*;
use vstd::string::*;

verus! {

// ---- the texts of a turn ----

/// Whether a part of a turn is a text with something to read in it, and this is it.
pub open spec fn has_text(p: PartView, t: Seq<char>) -> bool {
    p.kind == "text"@ && p.payload.str_at("text"@) == Some(t) && text::trim(t).len() > 0
}

/// Whether a part of a turn has nothing to read in it: it is no text, or a blank one.
pub open spec fn has_no_text(p: PartView) -> bool {
    p.kind != "text"@ || p.payload.str_at("text"@) is None || (p.payload.str_at("text"@) matches Some(
        t,
    ) && text::trim(t).len() == 0)
}

/// A turn that goes on says all that it said before and then what is new: no part
/// takes back, repeats or moves the texts of another.
pub proof fn law_turn_goes_on(a: Seq<PartView>, b: Seq<PartView>)
    ensures
        session_runtime::turn_texts(a + b) == session_runtime::turn_texts(a)
            + session_runtime::turn_texts(b),
    decreases b.len(),
{
    if b.len() == 0 {
        assert(a + b =~= a);
        assert(session_runtime::turn_texts(a) + Seq::<Seq<char>>::empty()
            =~= session_runtime::turn_texts(a));
    } else {
        law_turn_goes_on(a, b.drop_last());
        assert((a + b).drop_last() =~= a + b.drop_last());
        assert((a + b).last() == b.last());
        let head = session_runtime::turn_texts(a);
        let tail = session_runtime::turn_texts(b.drop_last());
        if let Some(line) = rendering::part_line(b.last().kind, b.last().payload) {
            assert((head + tail).push(line) =~= head + tail.push(line));
        }
    }
}

/// A text is one message behind the agent's mark, trimmed and in full; a part without
/// text is no message at all.
pub proof fn law_part_of_turn(p: PartView)
    ensures
        forall|t: Seq<char>| #[trigger]
            has_text(p, t) ==> session_runtime::turn_texts(seq![p]) == seq!["⬥ "@ + text::trim(t)],
        has_no_text(p) ==> session_runtime::turn_texts(seq![p]) == Seq::<Seq<char>>::empty(),
{
    assert(seq![p].drop_last() =~= Seq::<PartView>::empty());
    assert(seq![p].last() == p);
    assert(session_runtime::turn_texts(Seq::<PartView>::empty()) =~= Seq::<Seq<char>>::empty());
    assert forall|t: Seq<char>| #[trigger] has_text(p, t) implies session_runtime::turn_texts(seq![p])
        == seq!["⬥ "@ + text::trim(t)] by {
        assert(Seq::<Seq<char>>::empty().push("⬥ "@ + text::trim(t)) =~= seq![
            "⬥ "@ + text::trim(t),
        ]);
    }
}

/// Every text of a turn is sent: the text of part `i` is a message of its own, behind
/// exactly as many messages as the parts before it have texts, and before the footer.
pub proof fn law_every_text_is_sent(parts: Seq<PartView>, secs: nat, i: int, t: Seq<char>)
    requires
        0 <= i < parts.len(),
        has_text(parts[i], t),
    ensures
        ({
            let lines = session_runtime::turn_lines(parts, secs);
            let place = session_runtime::turn_texts(parts.take(i)).len() as int;
            &&& place + 1 < lines.len()
            &&& lines[place] == "⬥ "@ + text::trim(t)
            &&& lines.take(place) == session_runtime::turn_texts(parts.take(i))
        }),
{
    let a = parts.take(i);
    let p = parts[i];
    let c = parts.skip(i + 1);
    law_part_of_turn(p);
    law_turn_goes_on(a, seq![p]);
    law_turn_goes_on(a + seq![p], c);
    assert(a + seq![p] + c =~= parts);
    let lines = session_runtime::turn_lines(parts, secs);
    assert(lines.take(session_runtime::turn_texts(a).len() as int)
        =~= session_runtime::turn_texts(a));
}

/// A turn says that there is no text exactly where no part of it has one, and then
/// nothing else stands before the footer.
pub proof fn law_no_text_is_told(parts: Seq<PartView>, secs: nat)
    ensures
        (forall|i: int| 0 <= i < parts.len() ==> has_no_text(#[trigger] parts[i]))
            ==> session_runtime::turn_lines(parts, secs) == seq![
            "⬥ (no reply text)"@,
            session_runtime::turn_lines(parts, secs).last(),
        ],
        !(forall|i: int| 0 <= i < parts.len() ==> has_no_text(#[trigger] parts[i]))
            ==> session_runtime::turn_lines(parts, secs)
            == session_runtime::turn_texts(parts).push(
            session_runtime::turn_lines(parts, secs).last(),
        ) && session_runtime::turn_texts(parts).len() > 0,
{
    let lines = session_runtime::turn_lines(parts, secs);
    if forall|i: int| 0 <= i < parts.len() ==> has_no_text(#[trigger] parts[i]) {
        lemma_no_texts(parts);
        assert(lines =~= seq!["⬥ (no reply text)"@, lines.last()]);
    } else {
        let i = choose|i: int| 0 <= i < parts.len() && !has_no_text(#[trigger] parts[i]);
        let t = parts[i].payload.str_at("text"@)->0;
        assert(has_text(parts[i], t));
        law_part_of_turn(parts[i]);
        law_turn_goes_on(parts.take(i), seq![parts[i]]);
        law_turn_goes_on(parts.take(i) + seq![parts[i]], parts.skip(i + 1));
        assert(parts.take(i) + seq![parts[i]] + parts.skip(i + 1) =~= parts);
    }
}

proof fn lemma_no_texts(parts: Seq<PartView>)
    requires
        forall|i: int| 0 <= i < parts.len() ==> has_no_text(#[trigger] parts[i]),
    ensures
        session_runtime::turn_texts(parts) == Seq::<Seq<char>>::empty(),
    decreases parts.len(),
{
    if parts.len() > 0 {
        let init = parts.drop_last();
        assert forall|i: int| 0 <= i < init.len() implies has_no_text(#[trigger] init[i]) by {
            assert(init[i] == parts[i]);
        }
        lemma_no_texts(init);
        assert(has_no_text(parts[parts.len() - 1]));
    }
}

/// A turn is closed by how long it took, split into minutes below the hour and beyond,
/// and the seconds that are left.
pub proof fn law_footer_adds_up(parts: Seq<PartView>, minutes: nat, seconds: nat)
    requires
        seconds < 60,
    ensures
        session_runtime::turn_lines(parts, 60 * minutes + seconds).last() == if minutes > 0 {
            "-# lily ⋅ "@ + (numbers::decimal(minutes) + "m "@ + numbers::decimal(seconds) + "s"@)
        } else {
            "-# lily ⋅ "@ + (numbers::decimal(seconds) + "s"@)
        },
{
    let secs: nat = 60 * minutes + seconds;
    assert(secs / 60 == minutes && secs % 60 == seconds) by (nonlinear_arith)
        requires
            seconds < 60,
            secs == 60 * minutes + seconds,
    ;
}

// ---- what a run does ----

/// After the agent has answered, exactly the lines of the turn are sent to the thread,
/// one by one and in order, and a line that cannot be sent stops nothing.
pub proof fn law_lines_are_sent_in_order(
    thread: Seq<char>,
    lines: Seq<Seq<char>>,
    log: Seq<Answer>,
    i: int,
)
    requires
        0 <= i <= log.len(),
    ensures
        log.len() - i < lines.len() ==> session_runtime::saying(thread, lines, log, i) == Path::<
            Result<(), Seq<char>>,
        >::Do(Act::Send { thread, text: lines[log.len() - i] }),
        log.len() - i >= lines.len() ==> session_runtime::saying(thread, lines, log, i) == Path::<
            Result<(), Seq<char>>,
        >::Done(Ok(()), i + lines.len()),
    decreases lines.len(),
{
    if lines.len() > 0 && i < log.len() {
        law_lines_are_sent_in_order(thread, lines.drop_first(), log, i + 1);
    }
}

/// A message in a thread that has its session runs there, unchanged and at once; what
/// the agent says is sent to the thread line by line, and nothing is left out; and if
/// the agent fails, the thread is told why.
pub proof fn law_message_runs(
    thread: Seq<char>,
    session: Seq<char>,
    directory: Seq<char>,
    m: Message,
    log: Seq<Answer>,
)
    requires
        !m.show_marker,
    ensures
        log.len() == 0 ==> session_runtime::dispatching(thread, Some(session), directory, m, log)
            == Path::<()>::Do(Act::Prompt { thread, directory, session, text: m.prompt }),
        log.len() == 1 ==> (log[0] matches Answer::Failed(e) ==> session_runtime::dispatching(
            thread,
            Some(session),
            directory,
            m,
            log,
        ) == Path::<()>::Do(Act::Send { thread, text: "⚠️ "@ + e })),
        log.len() >= 1 ==> (log[0] matches Answer::Turn(turn) ==> {
            let lines = session_runtime::turn_lines(turn.parts, turn.secs);
            session_runtime::dispatching(thread, Some(session), directory, m, log) == if log.len() - 1
                < lines.len() {
                Path::<()>::Do(Act::Send { thread, text: lines[log.len() - 1] })
            } else {
                Path::<()>::Done((), 1int + lines.len())
            }
        }),
{
    if log.len() >= 1 {
        if let Answer::Turn(turn) = log[0] {
            law_lines_are_sent_in_order(
                thread,
                session_runtime::turn_lines(turn.parts, turn.secs),
                log,
                1,
            );
        }
    }
}

/// A message that had to wait is announced first, with who sent it and how it begins,
/// and then does what it would have done at once.
pub proof fn law_waiting_message_is_announced(
    thread: Seq<char>,
    session: Seq<char>,
    directory: Seq<char>,
    m: Message,
    log: Seq<Answer>,
)
    requires
        m.show_marker,
    ensures
        log.len() == 0 ==> (session_runtime::dispatching(thread, Some(session), directory, m, log)
            matches Path::Do(Act::Send { thread: t, text }) && t == thread && {
            let head = "» "@ + "**"@ + m.username + ":** "@;
            let shown = text.skip(head.len() as int);
            &&& text == head + shown
            &&& shown.len() <= 150
            &&& shown.is_prefix_of(rendering::collapsed(m.prompt))
            &&& shown.len() < 150 ==> shown == rendering::collapsed(m.prompt)
        }),
        log.len() == 1 ==> session_runtime::dispatching(thread, Some(session), directory, m, log)
            == Path::<()>::Do(Act::Prompt { thread, directory, session, text: m.prompt }),
        log.len() == 2 ==> (log[1] matches Answer::Failed(e) ==> session_runtime::dispatching(
            thread,
            Some(session),
            directory,
            m,
            log,
        ) == Path::<()>::Do(Act::Send { thread, text: "⚠️ "@ + e })),
        log.len() >= 2 ==> (log[1] matches Answer::Turn(turn) ==> {
            let lines = session_runtime::turn_lines(turn.parts, turn.secs);
            session_runtime::dispatching(thread, Some(session), directory, m, log) == if log.len() - 2
                < lines.len() {
                Path::<()>::Do(Act::Send { thread, text: lines[log.len() - 2] })
            } else {
                Path::<()>::Done((), 2int + lines.len())
            }
        }),
{
    let head = "» "@ + "**"@ + m.username + ":** "@;
    let shown = rendering::preview(m.prompt, 150);
    assert((head + shown).skip(head.len() as int) =~= shown);
    if log.len() >= 2 {
        if let Answer::Turn(turn) = log[1] {
            law_lines_are_sent_in_order(
                thread,
                session_runtime::turn_lines(turn.parts, turn.secs),
                log,
                2,
            );
        }
    }
}

/// A thread without a session gets one before the agent is asked: it is created in the
/// thread's directory and bound to the thread, and the prompt runs in just that session
/// and only once it is bound. A failure on the way is told and nothing runs.
pub proof fn law_first_message_binds(
    thread: Seq<char>,
    directory: Seq<char>,
    m: Message,
    log: Seq<Answer>,
)
    requires
        !m.show_marker,
    ensures
        ({
            let path = session_runtime::dispatching(thread, None, directory, m, log);
            &&& log.len() == 0 ==> path == Path::<()>::Do(
                Act::CreateSession { directory, title: "chat thread "@ + thread },
            )
            &&& log.len() == 1 ==> (log[0] matches Answer::Text(id) ==> path == Path::<()>::Do(
                Act::BindSession { thread, session: id },
            ))
            &&& log.len() == 2 ==> (log[0] matches Answer::Text(id) ==> log[1] is Done
                ==> path == Path::<()>::Do(
                Act::Prompt { thread, directory, session: id, text: m.prompt },
            ))
            &&& log.len() == 1 ==> (log[0] matches Answer::Failed(e) ==> path == Path::<()>::Do(
                Act::Send { thread, text: "⚠️ "@ + e },
            ))
            &&& log.len() == 2 ==> (log[0] is Text ==> (log[1] matches Answer::Failed(e) ==> path
                == Path::<()>::Do(Act::Send { thread, text: "⚠️ "@ + e })))
            &&& log.len() >= 3 && log[0] is Text && log[1] is Done ==> (log[2] matches Answer::Turn(
                turn,
            ) ==> {
                let lines = session_runtime::turn_lines(turn.parts, turn.secs);
                path == if log.len() - 3 < lines.len() {
                    Path::<()>::Do(Act::Send { thread, text: lines[log.len() - 3] })
                } else {
                    Path::<()>::Done((), 3int + lines.len())
                }
            })
        }),
{
    if log.len() >= 3 {
        if let Answer::Turn(turn) = log[2] {
            law_lines_are_sent_in_order(
                thread,
                session_runtime::turn_lines(turn.parts, turn.secs),
                log,
                3,
            );
        }
    }
}

// ---- the queue ----

/// A message that waits keeps its prompt, its author and where it came from, and only
/// learns that it waited; nothing else in the thread changes.
pub proof fn law_waiting_keeps_message(rt: Runtime, m: Message)
    requires
        rt.busy,
    ensures
        ({
            let next = session_runtime::enqueued(rt, m, true);
            let last = next.queue.last();
            &&& next.queue.len() == rt.queue.len() + 1
            &&& forall|i: int| 0 <= i < rt.queue.len() ==> #[trigger] next.queue[i] == rt.queue[i]
            &&& last.prompt == m.prompt
            &&& last.username == m.username
            &&& last.source == m.source
            &&& last.show_marker
            &&& next.busy
            &&& next.thread == rt.thread && next.directory == rt.directory && next.session == rt.session
            &&& session_runtime::arrival(rt, m, true) == Arrival::Queued(1int + rt.queue.len())
        }),
{
}

/// A message that does not wait goes before all that wait, unchanged and unmarked; they
/// keep their order, and nothing else in the thread changes.
pub proof fn law_interrupt_keeps_queue(rt: Runtime, m: Message)
    requires
        rt.busy,
    ensures
        ({
            let next = session_runtime::enqueued(rt, m, false);
            &&& next.queue.len() == rt.queue.len() + 1
            &&& next.queue[0] == m
            &&& forall|i: int| 0 <= i < rt.queue.len() ==> #[trigger] rt.queue[i] == next.queue[i + 1]
            &&& next.busy
            &&& next.thread == rt.thread && next.directory == rt.directory && next.session == rt.session
            &&& session_runtime::arrival(rt, m, false) == Arrival::Interrupt(m.source)
        }),
{
}

/// The end of a run hands out the first waiting message, whole, and no other leaves the
/// queue; the thread is idle exactly where none waited, and never changes its session
/// or directory by it.
pub proof fn law_end_of_run(rt: Runtime)
    ensures
        ({
            let next = session_runtime::drained(rt);
            &&& rt.queue.len() > 0 ==> session_runtime::next_message(rt) == Some(rt.queue[0])
                && next.queue.len() == rt.queue.len() - 1 && next.busy == rt.busy && (forall|i: int|
                0 <= i < next.queue.len() ==> #[trigger] next.queue[i] == rt.queue[i + 1])
            &&& rt.queue.len() == 0 ==> session_runtime::next_message(rt) is None && !next.busy
                && next.queue.len() == 0
            &&& next.thread == rt.thread && next.directory == rt.directory && next.session == rt.session
        }),
{
}

/// A step is only ever aborted for a message that still waits and is the next one:
/// never in an idle thread, never once the message has been dispatched or dropped, and
/// only in the thread's own session.
pub proof fn law_abort_needs_waiting(rt: Runtime, source: Option<Seq<char>>)
    ensures
        session_runtime::interrupted(rt, source) is Some <==> rt.session is Some && rt.busy
            && rt.queue.len() > 0 && rt.queue[0].source == source,
        session_runtime::interrupted(rt, source) matches Some(p) ==> rt.session == Some(p.0)
            && rt.directory == p.1,
{
}

/// Clearing a position takes out exactly the message at that position, counted from
/// one, and all others stay in their order; without a position nothing is left. What is
/// told is the number of messages that are gone, and a position where none waits is an
/// error that changes nothing.
pub proof fn law_clear_takes_out(q: Seq<Message>, position: Option<usize>)
    ensures
        ({
            let left = session_runtime::cleared_queue(q, position);
            let told = session_runtime::cleared_count(q, position);
            &&& told matches Ok(n) ==> left.len() == q.len() - n
            &&& told is Err ==> left == q
            &&& position is None ==> told is Ok && left.len() == 0
            &&& position matches Some(p) ==> {
                &&& told is Ok <==> 1 <= p <= q.len()
                &&& told matches Ok(n) ==> n == 1
                &&& 1 <= p <= q.len() ==> (forall|i: int|
                    0 <= i < p - 1 ==> #[trigger] left[i] == q[i]) && (forall|i: int|
                    p - 1 <= i < left.len() ==> #[trigger] left[i] == q[i + 1])
                &&& told matches Err(e) ==> e == "no queued message at position "@ + numbers::decimal(
                    p as nat,
                )
            }
        }),
{
}

/// An edited message that still waits is found by where it came from. With the queue
/// suffix it stays in its place with the new prompt and everything else as it was;
/// without it, it leaves the queue. No other message changes or moves, and what is told
/// is what happened.
pub proof fn law_edit_follows_suffix(q: Seq<Message>, source: Seq<char>, content: Seq<char>)
    ensures
        ({
            let next = session_runtime::edited_queue(q, source, content);
            let told = session_runtime::edit_outcome(q, source, content);
            let (kind, prompt) = delivery::parsed(content);
            &&& (forall|i: int| 0 <= i < q.len() ==> (#[trigger] q[i]).source != Some(source)) ==> told
                == QueueEditOutcome::NotFound && next == q
            &&& forall|p: int|
                0 <= p < q.len() && (#[trigger] q[p]).source == Some(source) && (forall|j: int|
                    0 <= j < p ==> (#[trigger] q[j]).source != Some(source)) ==> {
                    &&& kind == Delivery::Queue ==> {
                        &&& told == QueueEditOutcome::Updated
                        &&& next.len() == q.len()
                        &&& next[p] == (Message { prompt, ..q[p] })
                        &&& forall|i: int|
                            0 <= i < q.len() && i != p ==> #[trigger] next[i] == q[i]
                    }
                    &&& kind != Delivery::Queue ==> {
                        &&& told == QueueEditOutcome::Removed
                        &&& next.len() == q.len() - 1
                        &&& forall|i: int| 0 <= i < p ==> #[trigger] next[i] == q[i]
                        &&& forall|i: int| p <= i < next.len() ==> #[trigger] next[i] == q[i + 1]
                    }
                }
        }),
{
    lemma_position(q, source, 0);
    let next = session_runtime::edited_queue(q, source, content);
    assert forall|p: int|
        0 <= p < q.len() && (#[trigger] q[p]).source == Some(source) && (forall|j: int|
            0 <= j < p ==> (#[trigger] q[j]).source != Some(source)) implies session_runtime::position_of(
        q,
        source,
    ) == Some(p) by {
        if let Some(x) = session_runtime::position_of(q, source) {
            if x < p {
                assert(q[x].source != Some(source));
            }
        }
    }
}

proof fn lemma_position(q: Seq<Message>, source: Seq<char>, i: int)
    requires
        0 <= i,
    ensures
        match session_runtime::position_from(q, source, i) {
            Some(p) => i <= p < q.len() && q[p].source == Some(source) && forall|j: int|
                i <= j < p ==> (#[trigger] q[j]).source != Some(source),
            None => forall|j: int| i <= j < q.len() ==> (#[trigger] q[j]).source != Some(source),
        },
    decreases q.len() - i,
{
    if i < q.len() && q[i].source != Some(source) {
        lemma_position(q, source, i + 1);
    }
}

/// An edit that names no thread reaches the first thread in which the message waits,
/// and none exactly where it waits nowhere.
pub proof fn law_holder_holds(v: Seq<Runtime>, source: Seq<char>)
    ensures
        match session_runtime::holder_of(v, source) {
            Some(i) => 0 <= i < v.len() && waits_in(v[i].queue, source) && forall|j: int|
                0 <= j < i ==> !waits_in((#[trigger] v[j]).queue, source),
            None => forall|j: int| 0 <= j < v.len() ==> !waits_in((#[trigger] v[j]).queue, source),
        },
{
    lemma_holder(v, source, 0);
}

/// Whether a message from `source` waits in a queue.
pub open spec fn waits_in(q: Seq<Message>, source: Seq<char>) -> bool {
    exists|i: int| 0 <= i < q.len() && (#[trigger] q[i]).source == Some(source)
}

proof fn lemma_holder(v: Seq<Runtime>, source: Seq<char>, i: int)
    requires
        0 <= i,
    ensures
        match session_runtime::holder_from(v, source, i) {
            Some(p) => i <= p < v.len() && waits_in(v[p].queue, source) && forall|j: int|
                i <= j < p ==> !waits_in((#[trigger] v[j]).queue, source),
            None => forall|j: int| i <= j < v.len() ==> !waits_in((#[trigger] v[j]).queue, source),
        },
    decreases v.len() - i,
{
    if i < v.len() {
        lemma_position(v[i].queue, source, 0);
        lemma_holder(v, source, i + 1);
    }
}

/// Opening a thread gives it its directory and nothing else that it had before: a known
/// thread keeps its session, its run and its queue, a new one starts idle and empty
/// with the session that was stored for it, and none is made up where that could not
/// be read.
pub proof fn law_opened_thread(
    v: Seq<Runtime>,
    thread: Seq<char>,
    directory: Seq<char>,
    stored: Result<Option<Seq<char>>, Seq<char>>,
)
    requires
        session_runtime::one_per_thread(v),
    ensures
        ({
            let next = session_runtime::opened(v, thread, directory, stored);
            &&& forall|i: int|
                0 <= i < v.len() && (#[trigger] v[i]).thread == thread ==> next.len() == v.len()
                    && next[i] == (Runtime { directory, ..v[i] })
            &&& forall|i: int|
                0 <= i < v.len() && (#[trigger] v[i]).thread != thread ==> next[i] == v[i]
            &&& (forall|i: int| 0 <= i < v.len() ==> (#[trigger] v[i]).thread != thread)
                ==> match stored {
                Ok(session) => next.len() == v.len() + 1 && next.last().thread == thread
                    && next.last().directory == directory && next.last().session == session
                    && !next.last().busy && next.last().queue.len() == 0,
                Err(_) => next == v,
            }
        }),
{
    lemma_place(v, thread, 0);
}

proof fn lemma_place(v: Seq<Runtime>, thread: Seq<char>, i: int)
    requires
        0 <= i,
    ensures
        match session_runtime::place_from(v, thread, i) {
            Some(p) => i <= p < v.len() && v[p].thread == thread && forall|j: int|
                i <= j < p ==> (#[trigger] v[j]).thread != thread,
            None => forall|j: int| i <= j < v.len() ==> (#[trigger] v[j]).thread != thread,
        },
    decreases v.len() - i,
{
    if i < v.len() && v[i].thread != thread {
        lemma_place(v, thread, i + 1);
    }
}

// ---- the live view of a run ----

/// The part that an event carries, as the backend sent it.
pub open spec fn carries(ev: BusEvent, id: Seq<char>, kind: Seq<char>, status: Seq<char>) -> bool {
    &&& ev.payload.get("properties"@) matches Some(props)
    &&& props.get("part"@) matches Some(part)
    &&& part.str_at("id"@) == Some(id)
    &&& part.str_at("type"@) == Some(kind)
    &&& part.get("state"@) matches Some(state)
    &&& state.str_at("status"@) == Some(status)
}

/// While a run goes on, only its own session shows up, only parts that are done, and
/// never a text, which is told at the end.
pub proof fn law_live_shows_only(live: Live, ev: BusEvent)
    ensures
        session_runtime::live_line(live, ev) is Some ==> ev.session == Some(live.session) && ev.kind
            == "message.part.updated"@ && exists|id: Seq<char>, kind: Seq<char>, status: Seq<char>| #[trigger]
            carries(ev, id, kind, status) && kind != "text"@ && (status == "completed"@ || status
                == "error"@),
{
    if session_runtime::live_line(live, ev) is Some {
        let part = ev.payload.get("properties"@)->0.get("part"@)->0;
        let p = session_runtime::live_part(live.session, ev)->0;
        reveal_strlit("completed");
        reveal_strlit("error");
        reveal_strlit("");
        assert(carries(ev, p.id, p.kind, session_runtime::part_status(p)));
    }
}

/// A tool that completes or fails is shown the first time that it is heard of, in the
/// session that is watched; after that it is known, and only it is new.
pub proof fn law_live_shows_once(
    live: Live,
    ev: BusEvent,
    id: Seq<char>,
    status: Seq<char>,
)
    requires
        ev.session == Some(live.session),
        ev.kind == "message.part.updated"@,
        carries(ev, id, "tool"@, status),
        status == "completed"@ || status == "error"@,
    ensures
        ({
            let key = id + ":"@ + status;
            &&& session_runtime::live_line(live, ev) is Some <==> !live.rendered.contains(key)
            &&& session_runtime::live_after(live, ev).session == live.session
            &&& session_runtime::live_after(live, ev).rendered == live.rendered.insert(key)
        }),
{
    reveal_strlit("tool");
    reveal_strlit("text");
    reveal_strlit("reasoning");
    reveal_strlit("file");
    assert("tool"@[1] == 'o');
    assert("text"@[1] == 'e');
    assert("tool"@.len() == 4 && "reasoning"@.len() == 9);
    assert("file"@[0] == 'f' && "tool"@[0] == 't');
}

/// The first message of a thread that had to wait is announced before the thread gets
/// its session; the rest is as for any first message.
pub proof fn law_first_waiting_message(
    thread: Seq<char>,
    directory: Seq<char>,
    m: Message,
    log: Seq<Answer>,
)
    requires
        m.show_marker,
    ensures
        ({
            let path = session_runtime::dispatching(thread, None, directory, m, log);
            &&& log.len() == 0 ==> (path matches Path::Do(Act::Send { thread: t, text }) && t
                == thread && ("» "@ + "**"@ + m.username + ":** "@).is_prefix_of(text))
            &&& log.len() == 1 ==> path == Path::<()>::Do(
                Act::CreateSession { directory, title: "chat thread "@ + thread },
            )
            &&& log.len() == 2 ==> (log[1] matches Answer::Text(id) ==> path == Path::<()>::Do(
                Act::BindSession { thread, session: id },
            ))
            &&& log.len() == 3 ==> (log[1] matches Answer::Text(id) ==> log[2] is Done
                ==> path == Path::<()>::Do(
                Act::Prompt { thread, directory, session: id, text: m.prompt },
            ))
            &&& log.len() == 2 ==> (log[1] matches Answer::Failed(e) ==> path == Path::<()>::Do(
                Act::Send { thread, text: "⚠️ "@ + e },
            ))
        }),
{
    let head = "» "@ + "**"@ + m.username + ":** "@;
    let whole = head + rendering::preview(m.prompt, 150);
    assert(whole.subrange(0, head.len() as int) =~= head);
}

} // verus!
