//! What the OpenCode server sends, and how it is understood: message parts, session
//! states and the stream of bus events.

use crate::domain::session::Part;
use crate::json;
use crate::json::{Json, JsonTree};
use crate::text;
use vstd::prelude::*;
use vstd::string::*;

verus! {

/// A loosely-typed server event. The bus carries many event kinds; the raw payload is
/// kept beside the fields that events are routed on.
#[derive(Debug)]
pub struct Event {
    pub kind: String,
    pub session_id: Option<String>,
    pub payload: Json,
}

/// The value of an event.
pub struct BusEvent {
    pub kind: Seq<char>,
    pub session: Option<Seq<char>>,
    pub payload: JsonTree,
}

impl View for Event {
    type V = BusEvent;

    open spec fn view(&self) -> BusEvent {
        BusEvent {
            kind: self.kind@,
            session: text::opt_view(self.session_id),
            payload: self.payload@,
        }
    }
}

#[derive(Debug)]
pub struct Session {
    pub id: String,
}

#[derive(Debug)]
pub struct PromptResult {
    pub parts: Vec<Part>,
}

/// The value of a message part.
pub struct PartView {
    pub id: Seq<char>,
    pub kind: Seq<char>,
    pub payload: JsonTree,
}

impl View for Part {
    type V = PartView;

    open spec fn view(&self) -> PartView {
        PartView { id: self.id@, kind: self.kind@, payload: self.payload@ }
    }
}

pub open spec fn part_views(v: Seq<Part>) -> Seq<PartView> {
    Seq::new(v.len(), |i: int| v[i]@)
}

/// The part that an object describes: it needs an id and a type.
pub open spec fn part_of(v: JsonTree) -> Option<PartView> {
    match (v.str_at("id"@), v.str_at("type"@)) {
        (Some(id), Some(kind)) => Some(PartView { id, kind, payload: v }),
        _ => None,
    }
}

/// Build a `Part` from a part object found in an event or message response.
pub fn part_from_event(v: &Json) -> (r: Option<Part>)
    ensures
        match r {
            Some(p) => part_of(v@) == Some(p@),
            None => part_of(v@) is None,
        },
{
    let id = match v.str_at("id") {
        Some(s) => s.to_owned(),
        None => return None,
    };
    let kind = match v.str_at("type") {
        Some(s) => s.to_owned(),
        None => return None,
    };
    Some(Part { id, kind, payload: v.copy() })
}

/// The parts among some objects, in order.
pub open spec fn parts_of(v: Seq<JsonTree>) -> Seq<PartView>
    decreases v.len(),
{
    if v.len() == 0 {
        Seq::empty()
    } else {
        match part_of(v.last()) {
            Some(p) => parts_of(v.drop_last()).push(p),
            None => parts_of(v.drop_last()),
        }
    }
}

/// The parts of a message response; a body without them has none.
pub open spec fn response_parts(body: JsonTree) -> Seq<PartView> {
    match body.get("parts"@) {
        Some(list) => match list.as_array() {
            Some(v) => parts_of(v),
            None => Seq::empty(),
        },
        None => Seq::empty(),
    }
}

/// The parts of a message response.
pub fn prompt_result(body: &Json) -> (r: PromptResult)
    ensures
        part_views(r.parts@) == response_parts(body@),
{
    let mut parts: Vec<Part> = Vec::new();
    proof {
        assert(part_views(parts@) =~= Seq::<PartView>::empty());
    }
    if let Some(list) = body.get("parts") {
        if let Some(v) = list.as_array() {
            let ghost all = json::trees(v@);
            let mut i: usize = 0;
            proof {
                assert(all.take(0) =~= Seq::<JsonTree>::empty());
            }
            while i < v.len()
                invariant
                    i <= v@.len(),
                    all == json::trees(v@),
                    part_views(parts@) == parts_of(all.take(i as int)),
                decreases v@.len() - i,
            {
                let ghost before = part_views(parts@);
                proof {
                    assert(all.take(i + 1).drop_last() =~= all.take(i as int));
                    assert(all.take(i + 1).last() == v@[i as int]@);
                }
                if let Some(p) = part_from_event(&v[i]) {
                    parts.push(p);
                    proof {
                        assert(part_views(parts@) =~= before.push(p@));
                    }
                }
                i = i + 1;
            }
            proof {
                assert(all.take(v@.len() as int) =~= all);
            }
        }
    }
    PromptResult { parts }
}

/// Whether a status document says that a session is busy: it lists the session with a
/// type other than `idle`.
pub open spec fn busy_in(status: JsonTree, session: Seq<char>) -> bool {
    match status.get(session) {
        Some(v) => v.str_at("type"@) matches Some(t) && t != "idle"@,
        None => false,
    }
}

pub fn is_session_busy(status: &Json, session_id: &str) -> (r: bool)
    ensures
        r == busy_in(status@, session_id@),
{
    match status.get(session_id) {
        Some(v) => match v.str_at("type") {
            Some(t) => !text::same_text(t, "idle"),
            None => false,
        },
        None => false,
    }
}

// ---- addresses ----

/// `s` without the slashes at its end.
pub open spec fn without_slashes(s: Seq<char>) -> Seq<char>
    decreases s.len(),
{
    if s.len() > 0 && s.last() == '/' {
        without_slashes(s.drop_last())
    } else {
        s
    }
}

/// The base of all addresses: the server's URL without slashes at its end.
pub fn base_url(url: &str) -> (r: String)
    ensures
        r@ == without_slashes(url@),
{
    let v = text::chars_of(url);
    let mut end: usize = v.len();
    proof {
        assert(v@.take(end as int) =~= v@);
    }
    while end > 0 && v[end - 1] == '/'
        invariant
            end <= v@.len(),
            v@ == url@,
            without_slashes(v@.take(end as int)) == without_slashes(url@),
        decreases end,
    {
        proof {
            assert(v@.take(end as int).drop_last() =~= v@.take(end - 1));
        }
        end = end - 1;
    }
    proof {
        assert(v@.take(end as int) =~= v@.subrange(0, end as int));
    }
    text::text_of(&v, 0, end)
}

/// The path of an operation on a session.
pub fn session_path(session_id: &str, operation: &str) -> (r: String)
    ensures
        r@ == "/session/"@ + session_id@ + "/"@ + operation@,
{
    "/session/".to_owned().concat(session_id).concat("/").concat(operation)
}

/// Milliseconds to wait before the event stream is opened again.
pub const FIRST_BACKOFF_MS: u64 = 500;

pub const LAST_BACKOFF_MS: u64 = 15000;

/// The wait after a wait of `current` milliseconds: twice as long, up to 15 seconds.
pub fn next_backoff(current: u64) -> (r: u64)
    ensures
        r == if current * 2 < LAST_BACKOFF_MS {
            current * 2
        } else {
            LAST_BACKOFF_MS as int
        },
{
    if current < LAST_BACKOFF_MS / 2 {
        current * 2
    } else {
        LAST_BACKOFF_MS
    }
}

// ---- the event stream ----

/// The session that an event is about.
pub open spec fn event_session(props: JsonTree) -> Option<Seq<char>> {
    let found = match props.get("sessionID"@) {
        Some(v) => Some(v),
        None => match inner(props, "part"@) {
            Some(v) => Some(v),
            None => inner(props, "info"@),
        },
    };
    match found {
        Some(v) => v.as_str(),
        None => None,
    }
}

/// The session id inside the field `key`.
pub open spec fn inner(props: JsonTree, key: Seq<char>) -> Option<JsonTree> {
    match props.get(key) {
        Some(p) => p.get("sessionID"@),
        None => None,
    }
}

pub open spec fn properties(v: JsonTree) -> JsonTree {
    match v.get("properties"@) {
        Some(p) => p,
        None => JsonTree::Null,
    }
}

/// The event that a document describes.
pub open spec fn event_of(v: JsonTree) -> BusEvent {
    BusEvent {
        kind: match v.str_at("type"@) {
            Some(s) => s,
            None => ""@,
        },
        session: event_session(properties(v)),
        payload: v,
    }
}

fn inner_session<'a>(props: &'a Json, key: &str) -> (r: Option<&'a Json>)
    ensures
        json::opt_tree(r) == inner(props@, key@),
{
    match props.get(key) {
        Some(p) => p.get("sessionID"),
        None => None,
    }
}

fn session_of(props: &Json) -> (r: Option<String>)
    ensures
        text::opt_view(r) == event_session(props@),
{
    let found = match props.get("sessionID") {
        Some(v) => Some(v),
        None => match inner_session(props, "part") {
            Some(v) => Some(v),
            None => inner_session(props, "info"),
        },
    };
    match found {
        Some(v) => match v.as_str() {
            Some(s) => Some(s.to_owned()),
            None => None,
        },
        None => None,
    }
}

/// The event that a document describes.
pub fn broadcast_event(value: Json) -> (r: Event)
    ensures
        r@ == event_of(value@),
{
    let kind = match value.str_at("type") {
        Some(s) => s.to_owned(),
        None => "".to_owned(),
    };
    let session_id = match value.get("properties") {
        Some(p) => session_of(p),
        None => session_of(&Json::Null),
    };
    Event { kind, session_id, payload: value }
}

/// The document on a `data:` line, if the line is one and spells one.
pub open spec fn line_event(line: Seq<char>) -> Option<BusEvent> {
    match text::after_prefix(line, "data:"@) {
        Some(data) => match json::json_text(text::trim(data)) {
            Some(v) => Some(event_of(v)),
            None => None,
        },
        None => None,
    }
}

/// The events on some lines, in order.
pub open spec fn lines_events(lines: Seq<Seq<char>>) -> Seq<BusEvent>
    decreases lines.len(),
{
    if lines.len() == 0 {
        Seq::empty()
    } else {
        match line_event(lines.last()) {
            Some(e) => lines_events(lines.drop_last()).push(e),
            None => lines_events(lines.drop_last()),
        }
    }
}

/// The events of one message of the stream.
pub open spec fn frame_events(frame: Seq<u8>) -> Seq<BusEvent> {
    lines_events(text::lines(text::lossy(frame)))
}

/// Whether a blank line starts at `i`.
pub open spec fn blank_at(bytes: Seq<u8>, i: int) -> bool {
    0 <= i && i + 1 < bytes.len() && bytes[i] == 10 && bytes[i + 1] == 10
}

/// The first blank line from `i` on.
pub open spec fn blank_from(bytes: Seq<u8>, i: int) -> Option<int>
    decreases bytes.len() - i,
{
    if i + 1 >= bytes.len() {
        None
    } else if blank_at(bytes, i) {
        Some(i)
    } else {
        blank_from(bytes, i + 1)
    }
}

/// The events of the complete messages at the start of `bytes`. Messages are
/// separated by blank lines.
pub open spec fn stream_events(bytes: Seq<u8>) -> Seq<BusEvent>
    decreases bytes.len(),
{
    match blank_from(bytes, 0) {
        Some(p) => if 0 <= p && p + 2 <= bytes.len() {
            frame_events(bytes.take(p)) + stream_events(bytes.skip(p + 2))
        } else {
            Seq::empty()
        },
        None => Seq::empty(),
    }
}

/// What follows the complete messages at the start of `bytes`.
pub open spec fn stream_rest(bytes: Seq<u8>) -> Seq<u8>
    decreases bytes.len(),
{
    match blank_from(bytes, 0) {
        Some(p) => if 0 <= p && p + 2 <= bytes.len() {
            stream_rest(bytes.skip(p + 2))
        } else {
            bytes
        },
        None => bytes,
    }
}

pub open spec fn event_views(v: Seq<Event>) -> Seq<BusEvent> {
    Seq::new(v.len(), |i: int| v[i]@)
}

proof fn lemma_blank_from(bytes: Seq<u8>, i: int)
    requires
        0 <= i,
    ensures
        match blank_from(bytes, i) {
            Some(p) => i <= p && blank_at(bytes, p) && forall|j: int|
                i <= j < p ==> !#[trigger] blank_at(bytes, j),
            None => forall|j: int| i <= j ==> !#[trigger] blank_at(bytes, j),
        },
    decreases bytes.len() - i,
{
    if i + 1 < bytes.len() && !blank_at(bytes, i) {
        lemma_blank_from(bytes, i + 1);
    }
}

proof fn lemma_blank_is(bytes: Seq<u8>, p: int)
    requires
        blank_at(bytes, p),
        forall|j: int| 0 <= j < p ==> !#[trigger] blank_at(bytes, j),
    ensures
        blank_from(bytes, 0) == Some(p),
{
    lemma_blank_from(bytes, 0);
}

/// The part of the event stream that has not made a complete message yet. Bytes are
/// kept as they come: a network chunk can end inside a character, so text is only
/// decoded per message.
#[derive(Debug)]
pub struct EventDecoder {
    buf: Vec<u8>,
}

impl View for EventDecoder {
    type V = Seq<u8>;

    closed spec fn view(&self) -> Seq<u8> {
        self.buf@
    }
}

fn events_on_lines(raw: &str, out: &mut Vec<Event>)
    ensures
        event_views(final(out)@) == event_views(old(out)@) + lines_events(text::lines(raw@)),
{
    let all = text::text_lines(raw);
    let ghost start = event_views(out@);
    let ghost ls = text::texts(all@);
    let mut i: usize = 0;
    proof {
        assert(ls.take(0) =~= Seq::<Seq<char>>::empty());
        assert(start + Seq::<BusEvent>::empty() =~= start);
    }
    while i < all.len()
        invariant
            i <= all@.len(),
            ls == text::texts(all@),
            event_views(out@) == start + lines_events(ls.take(i as int)),
        decreases all@.len() - i,
    {
        let ghost before = event_views(out@);
        proof {
            assert(ls.take(i + 1).drop_last() =~= ls.take(i as int));
            assert(ls.take(i + 1).last() == all@[i as int]@);
        }
        if let Some(data) = text::strip_prefix(all[i].as_str(), "data:") {
            let body = text::trimmed(data.as_str());
            if let Some(value) = json::parse(body.as_str()) {
                out.push(broadcast_event(value));
                proof {
                    let e = out@.last()@;
                    assert(event_views(out@) =~= before.push(e));
                    assert(start + lines_events(ls.take(i as int)).push(e) =~= (start
                        + lines_events(ls.take(i as int))).push(e));
                }
            }
        }
        i = i + 1;
    }
    proof {
        assert(ls.take(all@.len() as int) =~= ls);
    }
}

/// The first blank line of `buf` from `from` on.
fn find_blank(buf: &Vec<u8>, from: usize) -> (r: Option<usize>)
    requires
        from <= buf@.len(),
    ensures
        match r {
            Some(p) => from <= p && p + 2 <= buf.len() && blank_from(
                buf@.skip(from as int),
                0,
            ) == Some(p - from),
            None => blank_from(buf@.skip(from as int), 0) is None,
        },
{
    let ghost tail = buf@.skip(from as int);
    let mut p: usize = from;
    while p < buf.len() && buf.len() - p >= 2
        invariant
            from <= p <= buf@.len(),
            tail == buf@.skip(from as int),
            blank_from(tail, 0) == blank_from(tail, p - from),
        decreases buf@.len() - p,
    {
        proof {
            assert(tail[p - from] == buf@[p as int]);
            assert(tail[p + 1 - from] == buf@[p + 1]);
        }
        if buf[p] == 10 && buf[p + 1] == 10 {
            return Some(p);
        }
        p = p + 1;
    }
    None
}

fn bytes_between(buf: &Vec<u8>, from: usize, to: usize) -> (r: Vec<u8>)
    requires
        from <= to <= buf@.len(),
    ensures
        r@ == buf@.subrange(from as int, to as int),
{
    let mut out: Vec<u8> = Vec::new();
    let mut i: usize = from;
    while i < to
        invariant
            from <= i <= to <= buf@.len(),
            out@ == buf@.subrange(from as int, i as int),
        decreases to - i,
    {
        out.push(buf[i]);
        proof {
            assert(buf@.subrange(from as int, i + 1) =~= buf@.subrange(from as int, i as int).push(
                buf@[i as int],
            ));
        }
        i = i + 1;
    }
    out
}

impl EventDecoder {
    pub fn new() -> (r: EventDecoder)
        ensures
            r@ == Seq::<u8>::empty(),
    {
        EventDecoder { buf: Vec::new() }
    }

    /// The events that a chunk of the stream completes.
    pub fn push(&mut self, chunk: &Vec<u8>) -> (r: Vec<Event>)
        ensures
            event_views(r@) == stream_events(old(self)@ + chunk@),
            final(self)@ == stream_rest(old(self)@ + chunk@),
    {
        let ghost whole = self.buf@ + chunk@;
        let mut i: usize = 0;
        proof {
            assert(chunk@.take(0) =~= Seq::<u8>::empty());
            assert(self.buf@ + Seq::<u8>::empty() =~= self.buf@);
        }
        while i < chunk.len()
            invariant
                i <= chunk@.len(),
                whole == old(self)@ + chunk@,
                self.buf@ == old(self)@ + chunk@.take(i as int),
            decreases chunk@.len() - i,
        {
            self.buf.push(chunk[i]);
            proof {
                assert(old(self)@ + chunk@.take(i + 1) =~= (old(self)@ + chunk@.take(
                    i as int,
                )).push(chunk@[i as int]));
            }
            i = i + 1;
        }
        proof {
            assert(chunk@.take(chunk@.len() as int) =~= chunk@);
            assert(whole.skip(0) =~= whole);
        }
        let mut out: Vec<Event> = Vec::new();
        let mut from: usize = 0;
        proof {
            assert(event_views(out@) + stream_events(whole) =~= stream_events(whole));
        }
        loop
            invariant
                self.buf@ == whole,
                from <= self.buf@.len(),
                event_views(out@) + stream_events(whole.skip(from as int)) == stream_events(whole),
                stream_rest(whole.skip(from as int)) == stream_rest(whole),
            ensures
                self.buf@ == whole,
                from <= self.buf@.len(),
                event_views(out@) == stream_events(whole),
                whole.skip(from as int) == stream_rest(whole),
            decreases self.buf@.len() - from,
        {
            let ghost tail = whole.skip(from as int);
            match find_blank(&self.buf, from) {
                None => {
                    proof {
                        assert(event_views(out@) + Seq::<BusEvent>::empty() =~= event_views(out@));
                    }
                    break ;
                },
                Some(p) => {
                    let ghost before = event_views(out@);
                    let frame = bytes_between(&self.buf, from, p);
                    let raw = text::decode_lossy(&frame);
                    events_on_lines(raw.as_str(), &mut out);
                    proof {
                        let q = p - from;
                        assert(frame@ =~= tail.take(q));
                        assert(tail.skip(q + 2) =~= whole.skip(p + 2));
                        assert(event_views(out@) == before + frame_events(tail.take(q)));
                        assert(before + (frame_events(tail.take(q)) + stream_events(
                            whole.skip(p + 2),
                        )) =~= event_views(out@) + stream_events(whole.skip(p + 2)));
                    }
                    from = p + 2;
                },
            }
        }
        let rest = bytes_between(&self.buf, from, self.buf.len());
        proof {
            assert(rest@ =~= whole.skip(from as int));
        }
        self.buf = rest;
        out
    }
}

/// A stream gives the same events however it is cut into chunks: reading `a` and then
/// `b` gives what reading both at once gives, and leaves the same rest.
pub proof fn law_chunking_is_invisible(a: Seq<u8>, b: Seq<u8>)
    ensures
        stream_events(a + b) == stream_events(a) + stream_events(stream_rest(a) + b),
        stream_rest(a + b) == stream_rest(stream_rest(a) + b),
    decreases a.len(),
{
    lemma_blank_from(a, 0);
    match blank_from(a, 0) {
        None => {
            assert(Seq::<BusEvent>::empty() + stream_events(a + b) =~= stream_events(a + b));
        },
        Some(p) => {
            let s = a + b;
            assert forall|j: int| 0 <= j <= p implies #[trigger] blank_at(s, j) == blank_at(
                a,
                j,
            ) by {
                assert(s[j] == a[j]);
                assert(s[j + 1] == a[j + 1]);
            }
            lemma_blank_is(s, p);
            assert(s.take(p) =~= a.take(p));
            assert(s.skip(p + 2) =~= a.skip(p + 2) + b);
            law_chunking_is_invisible(a.skip(p + 2), b);
            let f = frame_events(a.take(p));
            let x = stream_events(a.skip(p + 2));
            let y = stream_events(stream_rest(a) + b);
            assert(f + (x + y) =~= (f + x) + y);
        },
    }
}

/// What is left over never holds a complete message.
pub proof fn law_rest_is_incomplete(bytes: Seq<u8>)
    ensures
        blank_from(stream_rest(bytes), 0) is None,
        stream_events(stream_rest(bytes)) == Seq::<BusEvent>::empty(),
    decreases bytes.len(),
{
    lemma_blank_from(bytes, 0);
    if let Some(p) = blank_from(bytes, 0) {
        law_rest_is_incomplete(bytes.skip(p + 2));
    }
}

// ---- waiting for a session ----

/// What a look at a busy session comes to.
#[derive(Debug, Clone, Copy, PartialEq, Eq, Structural)]
pub enum Waiting {
    Idle,
    TimedOut,
    /// Look again after a pause.
    Again,
}

/// A session is waited for until it is known to be idle, or the time is up. A look that
/// fails says nothing.
pub fn wait_idle(busy: &Result<bool, String>, time_is_up: bool) -> (r: Waiting)
    ensures
        r == (if *busy == Ok::<bool, String>(false) {
            Waiting::Idle
        } else if time_is_up {
            Waiting::TimedOut
        } else {
            Waiting::Again
        }),
{
    match busy {
        Ok(false) => Waiting::Idle,
        _ => if time_is_up {
            Waiting::TimedOut
        } else {
            Waiting::Again
        },
    }
}

} // verus!
