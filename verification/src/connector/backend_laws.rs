//! What holds of what the agent backend sends, of the records, and of the choice of a
//! platform.

use crate::application::command_laws::Saying;
use crate::application::flow::{Act, Answer};
use crate::connector::matrix;
use crate::connector::opencode;
use crate::connector::opencode::{BusEvent, PartView};
use crate::connector::router::RoutedChat;
use crate::connector::sqlite;
use crate::connector::sqlite::RawTask;
use crate::domain::task;
use crate::domain::task::NewScheduledTask;
use crate::domain::worktree::Assignment;
use crate::json;
use crate::json::JsonTree;
use crate::text;
use crate::time;
use vstd::prelude::*;
use vstd::string::*;

verus! {

// ---- JSON ----

/// A field of an object is the first entry with its name; other entries do not matter.
pub proof fn law_field_is_found(entries: Seq<(Seq<char>, JsonTree)>, key: Seq<char>, j: int)
    requires
        0 <= j < entries.len(),
        entries[j].0 == key,
        forall|i: int| 0 <= i < j ==> (#[trigger] entries[i]).0 != key,
    ensures
        JsonTree::Object(entries).get(key) == Some(entries[j].1),
    decreases j,
{
    if j > 0 {
        let rest = entries.drop_first();
        assert forall|i: int| 0 <= i < j - 1 implies (#[trigger] rest[i]).0 != key by {
            assert(rest[i] == entries[i + 1]);
        }
        law_field_is_found(rest, key, j - 1);
        assert(JsonTree::Object(rest).get(key) == json::entry(rest, key));
    }
}

// ---- what the agent says ----

/// The parts of an answer are those of its objects, in order: more objects change
/// nothing of what was there before.
pub proof fn law_parts_go_on(a: Seq<JsonTree>, b: Seq<JsonTree>)
    ensures
        opencode::parts_of(a + b) == opencode::parts_of(a) + opencode::parts_of(b),
    decreases b.len(),
{
    if b.len() == 0 {
        assert(a + b =~= a);
        assert(opencode::parts_of(a) + Seq::<PartView>::empty() =~= opencode::parts_of(a));
    } else {
        law_parts_go_on(a, b.drop_last());
        assert((a + b).drop_last() =~= a + b.drop_last());
        assert((a + b).last() == b.last());
        if let Some(p) = opencode::part_of(b.last()) {
            assert((opencode::parts_of(a) + opencode::parts_of(b.drop_last())).push(p)
                =~= opencode::parts_of(a) + opencode::parts_of(b.drop_last()).push(p));
        }
    }
}

/// An object with an id and a type is a part of just these, and is kept whole; one
/// without either is none.
pub proof fn law_part_is_kept_whole(v: JsonTree)
    ensures
        v.str_at("id"@) is Some && v.str_at("type"@) is Some ==> opencode::parts_of(seq![v])
            == seq![
            PartView { id: v.str_at("id"@)->0, kind: v.str_at("type"@)->0, payload: v },
        ],
        v.str_at("id"@) is None || v.str_at("type"@) is None ==> opencode::parts_of(seq![v])
            == Seq::<PartView>::empty(),
{
    assert(seq![v].drop_last() =~= Seq::<JsonTree>::empty());
    assert(seq![v].last() == v);
    assert(opencode::parts_of(Seq::<JsonTree>::empty()) =~= Seq::<PartView>::empty());
    if v.str_at("id"@) is Some && v.str_at("type"@) is Some {
        let p = PartView { id: v.str_at("id"@)->0, kind: v.str_at("type"@)->0, payload: v };
        assert(Seq::<PartView>::empty().push(p) =~= seq![p]);
    }
}

/// The answer of the agent is the list in its field for the parts; an answer without
/// one has no parts.
pub proof fn law_answer_holds_parts(body: JsonTree, v: Seq<JsonTree>)
    ensures
        body.get("parts"@) == Some(JsonTree::Array(v)) ==> opencode::response_parts(body)
            == opencode::parts_of(v),
        body.get("parts"@) is None ==> opencode::response_parts(body).len() == 0,
{
}

/// A session is busy exactly where it is listed with another type than idle: one that
/// is not listed is not.
pub proof fn law_busy_is_listed(status: JsonTree, session: Seq<char>, state: JsonTree, t: Seq<char>)
    ensures
        status.get(session) is None ==> !opencode::busy_in(status, session),
        status.get(session) == Some(state) && state.str_at("type"@) == Some(t)
            ==> opencode::busy_in(status, session) == (t != "idle"@),
{
}

/// An event is about the session that it names; where it names none itself, about that
/// of its part, and else about that of its info.
pub proof fn law_event_is_about_a_session(v: JsonTree, props: JsonTree, id: Seq<char>)
    requires
        v.get("properties"@) == Some(props),
    ensures
        props.str_at("sessionID"@) == Some(id) ==> opencode::event_of(v).session == Some(id),
        props.get("sessionID"@) is None && (props.get("part"@) matches Some(part) && part.str_at(
            "sessionID"@,
        ) == Some(id)) ==> opencode::event_of(v).session == Some(id),
        props.get("sessionID"@) is None && props.get("part"@) is None && (props.get(
            "info"@,
        ) matches Some(info) && info.str_at("sessionID"@) == Some(id)) ==> opencode::event_of(
            v,
        ).session == Some(id),
        opencode::event_of(v).payload == v,
        v.str_at("type"@) matches Some(kind) ==> opencode::event_of(v).kind == kind,
{
}

/// A line of the stream is an event exactly where it is data, and the data is JSON:
/// whitespace around that does not matter.
pub proof fn law_data_line_is_event(data: Seq<char>, line: Seq<char>)
    ensures
        opencode::line_event("data:"@ + data) == match json::json_text(text::trim(data)) {
            Some(v) => Some(opencode::event_of(v)),
            None => None,
        },
        !text::starts_with(line, "data:"@) ==> opencode::line_event(line) is None,
{
    let whole = "data:"@ + data;
    assert(whole.take("data:"@.len() as int) =~= "data:"@);
    assert(whole.skip("data:"@.len() as int) =~= data);
}

/// The events of some lines are those of each, in order.
pub proof fn law_lines_go_on(a: Seq<Seq<char>>, b: Seq<Seq<char>>)
    ensures
        opencode::lines_events(a + b) == opencode::lines_events(a) + opencode::lines_events(b),
    decreases b.len(),
{
    if b.len() == 0 {
        assert(a + b =~= a);
        assert(opencode::lines_events(a) + Seq::<BusEvent>::empty() =~= opencode::lines_events(a));
    } else {
        law_lines_go_on(a, b.drop_last());
        assert((a + b).drop_last() =~= a + b.drop_last());
        assert((a + b).last() == b.last());
        if let Some(e) = opencode::line_event(b.last()) {
            assert((opencode::lines_events(a) + opencode::lines_events(b.drop_last())).push(e)
                =~= opencode::lines_events(a) + opencode::lines_events(b.drop_last()).push(e));
        }
    }
}

/// One line gives one event or none.
pub proof fn law_one_line_one_event(line: Seq<char>)
    ensures
        opencode::lines_events(seq![line]) == match opencode::line_event(line) {
            Some(e) => seq![e],
            None => Seq::<BusEvent>::empty(),
        },
{
    assert(seq![line].drop_last() =~= Seq::<Seq<char>>::empty());
    assert(seq![line].last() == line);
    assert(opencode::lines_events(Seq::<Seq<char>>::empty()) =~= Seq::<BusEvent>::empty());
    if let Some(e) = opencode::line_event(line) {
        assert(Seq::<BusEvent>::empty().push(e) =~= seq![e]);
    }
}

/// A message of the stream ends at its first blank line: its lines are read, and what
/// follows is read as if it stood alone.
pub proof fn law_message_ends_at_blank_line(frame: Seq<u8>, rest: Seq<u8>)
    requires
        forall|i: int|
            0 <= i && i + 1 < frame.len() ==> !(#[trigger] frame[i] == 10 && frame[i + 1] == 10),
        frame.len() > 0 ==> frame.last() != 10,
    ensures
        opencode::stream_events(frame.push(10u8).push(10u8) + rest) == opencode::lines_events(
            text::lines(text::lossy(frame)),
        ) + opencode::stream_events(rest),
        opencode::stream_rest(frame.push(10u8).push(10u8) + rest) == opencode::stream_rest(rest),
{
    let whole = frame.push(10u8).push(10u8) + rest;
    let p = frame.len() as int;
    lemma_blank(whole, 0, p, frame);
    assert(whole.take(p) =~= frame);
    assert(whole.skip(p + 2) =~= rest);
}

proof fn lemma_blank(whole: Seq<u8>, i: int, p: int, frame: Seq<u8>)
    requires
        p == frame.len(),
        0 <= i <= p,
        p + 2 <= whole.len(),
        forall|j: int| 0 <= j < p ==> #[trigger] whole[j] == frame[j],
        whole[p] == 10 && whole[p + 1] == 10,
        forall|j: int|
            0 <= j && j + 1 < frame.len() ==> !(#[trigger] frame[j] == 10 && frame[j + 1] == 10),
        frame.len() > 0 ==> frame.last() != 10,
    ensures
        opencode::blank_from(whole, i) == Some(p),
    decreases p - i,
{
    if i < p {
        assert(whole[i] == frame[i]);
        if i + 1 < p {
            assert(whole[i + 1] == frame[i + 1]);
        } else {
            assert(frame[i] == frame.last());
        }
        lemma_blank(whole, i + 1, p, frame);
    }
}

/// The base of all addresses has no slash at its end, and differs from what was given
/// in nothing but such slashes.
pub proof fn law_base_without_slashes(url: Seq<char>)
    ensures
        ({
            let base = opencode::without_slashes(url);
            &&& base.is_prefix_of(url)
            &&& base.len() > 0 ==> base.last() != '/'
            &&& forall|i: int| base.len() <= i < url.len() ==> #[trigger] url[i] == '/'
        }),
    decreases url.len(),
{
    if url.len() > 0 && url.last() == '/' {
        law_base_without_slashes(url.drop_last());
        let base = opencode::without_slashes(url.drop_last());
        assert forall|i: int| base.len() <= i < url.len() implies #[trigger] url[i] == '/' by {
            if i < url.len() - 1 {
                assert(url.drop_last()[i] == url[i]);
            }
        }
        assert(base =~= url.subrange(0, base.len() as int)) by {
            assert(base =~= url.drop_last().subrange(0, base.len() as int));
        }
    } else {
        assert(url.subrange(0, url.len() as int) =~= url);
    }
}

// ---- platforms ----

/// An id belongs to Matrix exactly where it looks like a room or holds a separator, and
/// to Discord otherwise; it goes to that platform and never to the other.
pub proof fn law_id_picks_platform<C>(chat: RoutedChat<C>, id: Seq<char>)
    ensures
        (id.len() > 0 && id[0] == '!') || id.contains('|') ==> chat.target(id) == chat.matrix,
        !(id.len() > 0 && id[0] == '!') && !id.contains('|') ==> chat.target(id) == chat.discord,
{
    if id.len() > 0 {
        assert(id.take(1) =~= seq![id[0]]);
        assert(seq![id[0]][0] == id[0] && seq!['!'][0] == '!');
    }
}

/// A thread that is made on Matrix hangs off the message it is made from, in the room
/// of the place it is made in; without one, off a message with its name that is posted
/// to that room first. Either way it belongs to Matrix.
pub proof fn law_matrix_thread_steps<C>(
    room: Seq<char>,
    name: Seq<char>,
    root: Seq<char>,
    chat: RoutedChat<C>,
    log: Seq<Answer>,
)
    requires
        matrix::room_id_error(room) is None,
        matrix::event_id_error(root) is None,
        !room.contains('|'),
        log.len() > 0 ==> log[0] == Answer::Text(root),
    ensures
        matrix::rooting(room, Some(root), name, log) == Saying::Done(
            Ok(room.push('|') + root),
            0,
        ),
        log.len() == 0 ==> matrix::rooting(room, None, name, log) == Saying::Do(
            Act::Post { channel: room, text: name },
        ),
        log.len() > 0 ==> matrix::rooting(room, None, name, log) == Saying::Done(
            Ok(room.push('|') + root),
            1,
        ),
        chat.target(room.push('|') + root) == chat.matrix,
{
    matrix::law_bare_room_has_no_root(room);
    let id = room.push('|') + root;
    assert(id[room.len() as int] == '|');
    assert(id.contains('|'));
    law_id_picks_platform(chat, id);
}

// ---- records ----

/// A row of the records is read column by column: each ends up where it belongs, and
/// the times are those that were stored.
pub proof fn law_row_is_read_as_stored(raw: RawTask)
    ensures
        sqlite::row_of(raw) matches Ok(row) ==> {
            &&& row.id == raw.id
            &&& row.status == raw.status@
            &&& row.schedule.kind == raw.schedule_kind@
            &&& row.schedule.cron == text::opt_view(raw.cron_expr)
            &&& row.schedule.timezone == text::opt_view(raw.timezone)
            &&& time::parsed_instant(raw.next_run_at@) == Ok::<time::Instant, Seq<char>>(
                row.schedule.next,
            )
            &&& raw.run_at is None <==> row.schedule.run_at is None
            &&& raw.run_at matches Some(s) ==> (row.schedule.run_at matches Some(at)
                && time::parsed_instant(s@) == Ok::<time::Instant, Seq<char>>(at))
            &&& raw.last_run_at is None <==> row.last_run is None
            &&& raw.last_run_at matches Some(s) ==> (row.last_run matches Some(at)
                && time::parsed_instant(s@) == Ok::<time::Instant, Seq<char>>(at))
            &&& raw.running_started_at matches Some(s) ==> (time::parsed_instant(s@) matches Ok(at)
                ==> row.started == Some(at))
            &&& raw.running_started_at is None ==> row.started is None
            &&& row.last_error == text::opt_view(raw.last_error)
            &&& row.attempts == raw.attempts
            &&& row.payload == raw.payload_json@
            &&& row.preview == raw.prompt_preview@
            &&& row.channel == text::opt_view(raw.channel_id)
            &&& row.thread == text::opt_view(raw.thread_id)
        },
        time::parsed_instant(raw.next_run_at@) is Err ==> sqlite::row_of(raw) is Err,
{
}

/// A new task is planned under its number, has never run, and is for the rest what it
/// was made as.
pub proof fn law_new_task_is_planned(id: int, t: NewScheduledTask)
    ensures
        ({
            let row = sqlite::new_row(id, t);
            &&& row.id == id
            &&& row.status == "planned"@
            &&& row.schedule.kind == t.schedule_kind@
            &&& row.schedule.run_at == task::opt_instant(t.run_at)
            &&& row.schedule.cron == text::opt_view(t.cron_expr)
            &&& row.schedule.timezone == text::opt_view(t.timezone)
            &&& row.schedule.next == t.next_run_at@
            &&& row.last_run is None && row.last_error is None && row.attempts == 0
            &&& row.started is None
            &&& row.payload == t.payload_json@
            &&& row.preview == t.prompt_preview@
            &&& row.channel == text::opt_view(t.channel_id)
            &&& row.thread == text::opt_view(t.thread_id)
        }),
{
}

/// A worktree is recorded for its thread, with its branch and project, and keeps these;
/// when it is ready it has its directory and no error, and when it broke, the error.
pub proof fn law_worktree_records(
    thread: Seq<char>,
    name: Seq<char>,
    project: Seq<char>,
    wt: Assignment,
    directory: Seq<char>,
    error: Seq<char>,
)
    ensures
        ({
            let fresh = sqlite::pending(thread, name, project);
            &&& fresh.thread == thread && fresh.name == name && fresh.project == project
            &&& fresh.status == "pending"@
            &&& fresh.directory is None && fresh.error is None
        }),
        ({
            let done = sqlite::ready(wt, directory);
            &&& done.thread == wt.thread && done.name == wt.name && done.project == wt.project
            &&& done.status == "ready"@
            &&& done.directory == Some(directory) && done.error is None
        }),
        ({
            let failed = sqlite::broken(wt, error);
            &&& failed.thread == wt.thread && failed.name == wt.name && failed.project == wt.project
            &&& failed.status == "error"@
            &&& failed.error == Some(error) && failed.directory == wt.directory
        }),
{
}

} // verus!
