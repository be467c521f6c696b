//! Rendering of agent output into chat messages.
//!
//! Discord caps messages at 2000 characters. Markdown is split at line
//! boundaries; an open code fence is closed at the end of a chunk and reopened at
//! the start of the next so fences stay balanced. Chunks are measured in UTF-8 bytes,
//! of which a text has at least as many as characters.

use crate::domain::rendering_laws;
use crate::domain::session::Part;
use crate::json;
use crate::json::{Json, JsonTree};
use crate::numbers;
use crate::text;
use vstd::prelude::*;
use vstd::string::*;

verus! {

pub const DISCORD_MESSAGE_LIMIT: usize = 2000;

/// Marker prefixed to agent prose.
pub const AGENT_PREFIX: &'static str = "⬥ ";

/// Marker prefixed to tool/progress lines.
pub const TOOL_PREFIX: &'static str = "┣ ";

/// Marker prefixed to messages dispatched from the queue after a wait.
pub const QUEUE_PREFIX: &'static str = "» ";

// ---- splitting markdown ----

/// How far a split has come: the finished chunks, the chunk being filled and the
/// code fence that is open in it.
pub struct Split {
    pub chunks: Seq<Seq<char>>,
    pub current: Seq<char>,
    pub fence: Option<Seq<char>>,
}

pub open spec fn split_start() -> Split {
    Split { chunks: Seq::empty(), current: Seq::empty(), fence: None }
}

/// What closes the fence that is open at the end of `current`.
pub open spec fn closing(current: Seq<char>, fence: Option<Seq<char>>) -> Seq<char> {
    if fence is None {
        Seq::empty()
    } else if text::ends_with(current, seq!['\n']) {
        "```"@
    } else {
        seq!['\n'] + "```"@
    }
}

/// Ends the current chunk; a blank one is dropped.
pub open spec fn flushed(st: Split) -> Split {
    if text::trim(st.current).len() == 0 {
        Split { chunks: st.chunks, current: Seq::empty(), fence: st.fence }
    } else {
        Split {
            chunks: st.chunks.push(st.current + closing(st.current, st.fence)),
            current: Seq::empty(),
            fence: st.fence,
        }
    }
}

/// The bytes that reopening the fence takes.
pub open spec fn fence_cost(fence: Option<Seq<char>>) -> nat {
    match fence {
        Some(f) => text::utf8_len(f) + 1,
        None => 0,
    }
}

/// The bytes that are kept free to close the fence that is open before `line`, or that
/// `line` opens: a line feed and the backticks, and only these behind an opening line
/// that has its line feed.
pub open spec fn fence_reserve(fence: Option<Seq<char>>, line: Seq<char>) -> nat {
    if fence is Some {
        4
    } else if fence_after(fence, line) is None {
        0
    } else if text::ends_with(line, seq!['\n']) {
        3
    } else {
        4
    }
}

/// The fence with which a chunk goes on after a break.
pub open spec fn reopened(fence: Option<Seq<char>>) -> Seq<char> {
    match fence {
        Some(f) => f.push('\n'),
        None => Seq::empty(),
    }
}

/// Whether `line` does not fit even into a chunk of its own.
pub open spec fn is_overlong(line: Seq<char>, fence: Option<Seq<char>>, limit: int) -> bool {
    text::utf8_len(line) + fence_cost(fence) + fence_reserve(fence, line) > limit
}

/// How much of an overlong line is kept, in bytes.
pub open spec fn kept_bytes(line: Seq<char>, fence: Option<Seq<char>>, limit: int) -> int {
    let room = limit - (fence_cost(fence) + fence_reserve(fence, line) + 4);
    if room < 0 {
        0
    } else {
        room
    }
}

/// The line as it goes into a chunk: an overlong one is cut.
pub open spec fn clipped(line: Seq<char>, fence: Option<Seq<char>>, limit: int) -> Seq<char> {
    if is_overlong(line, fence, limit) {
        text::prefix_within(line, kept_bytes(line, fence, limit)) + "...\n"@
    } else {
        line
    }
}

/// Whether `line` opens or closes a code fence.
pub open spec fn is_fence_line(line: Seq<char>) -> bool {
    text::starts_with(line, "```"@)
}

/// The fence that is open after `line`.
pub open spec fn fence_after(fence: Option<Seq<char>>, line: Seq<char>) -> Option<Seq<char>> {
    match text::after_prefix(text::trim_end(line), "```"@) {
        Some(body) => if fence is Some {
            None
        } else {
            Some("```"@ + text::trim(body))
        },
        None => fence,
    }
}

/// The state in which `line` is added: behind a break where it does not fit.
pub open spec fn broken(st: Split, line: Seq<char>, limit: int) -> Split {
    if text::utf8_len(st.current) + text::utf8_len(line) + fence_reserve(st.fence, line) > limit {
        Split { current: reopened(st.fence), ..flushed(st) }
    } else {
        st
    }
}

pub open spec fn split_step(st: Split, line: Seq<char>, limit: int) -> Split {
    let b = broken(st, line, limit);
    Split {
        chunks: b.chunks,
        current: b.current + clipped(line, st.fence, limit),
        fence: fence_after(st.fence, line),
    }
}

/// The state after `lines`.
pub open spec fn split_fold(lines: Seq<Seq<char>>, limit: int) -> Split
    decreases lines.len(),
{
    if lines.len() == 0 {
        split_start()
    } else {
        split_step(split_fold(lines.drop_last(), limit), lines.last(), limit)
    }
}

/// The chunks of `text`.
pub open spec fn chunks_of(text: Seq<char>, limit: int) -> Seq<Seq<char>> {
    flushed(split_fold(text::lines_inclusive(text), limit)).chunks
}

/// Whether every chunk has at most `limit` bytes.
pub open spec fn all_fit(chunks: Seq<Seq<char>>, limit: int) -> bool {
    forall|i: int| 0 <= i < chunks.len() ==> text::utf8_len(#[trigger] chunks[i]) <= limit
}

/// Whether every fence line of `text` has at most `max` bytes.
pub open spec fn fence_lines_within(text: Seq<char>, max: int) -> bool {
    forall|k: int|
        0 <= k < text::lines_inclusive(text).len() && is_fence_line(
            #[trigger] text::lines_inclusive(text)[k],
        ) ==> text::utf8_len(text::lines_inclusive(text)[k]) <= max
}

/// Whether the limit leaves room for the mark of a cut line and, beside it and what
/// closes a fence, for every fence line of `text`.
pub open spec fn has_fence_room(text: Seq<char>, limit: int) -> bool {
    limit >= 4 && fence_lines_within(text, limit - 8)
}

/// Whether there is room for three backticks more, so that a fence line that is cut
/// keeps them.
pub open spec fn has_backtick_room(text: Seq<char>, limit: int) -> bool {
    fence_lines_within(text, limit - 11)
}

spec fn split_view(chunks: Seq<String>, current: String, fence: Option<String>) -> Split {
    Split { chunks: text::texts(chunks), current: current@, fence: text::opt_view(fence) }
}

fn ends_line(s: &str) -> (r: bool)
    ensures
        r == text::ends_with(s@, seq!['\n']),
{
    let v = text::chars_of(s);
    let newline = v.len() > 0 && v[v.len() - 1] == '\n';
    proof {
        if newline {
            assert(s@.skip(s@.len() - 1) =~= seq!['\n']);
        } else if s@.len() > 0 {
            assert(s@.skip(s@.len() - 1)[0] != '\n');
        }
    }
    newline
}

fn flush(current: &mut String, chunks: &mut Vec<String>, fence: &Option<String>)
    ensures
        split_view(final(chunks)@, *final(current), *fence) == flushed(
            split_view(old(chunks)@, *old(current), *fence),
        ),
{
    let blank = text::trimmed(current.as_str()).as_str().is_empty();
    let mut chunk = String::new();
    std::mem::swap(current, &mut chunk);
    if blank {
        proof {
            assert(text::texts(chunks@) =~= text::texts(old(chunks)@));
        }
        return ;
    }
    let ghost start = chunk@;
    if fence.is_some() {
        if !ends_line(chunk.as_str()) {
            chunk.push('\n');
        }
        chunk.append("```");
        proof {
            assert(start.push('\n') + "```"@ =~= start + (seq!['\n'] + "```"@));
        }
    } else {
        proof {
            assert(start + Seq::<char>::empty() =~= start);
        }
    }
    chunks.push(chunk);
    proof {
        assert(text::texts(chunks@) =~= text::texts(old(chunks)@).push(chunk@));
    }
}

/// Split markdown into chunks that fit in a Discord message, keeping code fences
/// balanced across chunks.
pub fn split_markdown(text: &str, limit: usize) -> (r: Vec<String>)
    ensures
        text::texts(r@) == chunks_of(text@, limit as int),
        has_fence_room(text@, limit as int) ==> forall|i: int|
            0 <= i < r@.len() ==> text::utf8_len((#[trigger] r@[i])@) <= limit,
        has_backtick_room(text@, limit as int) ==> forall|i: int|
            0 <= i < r@.len() ==> rendering_laws::fence_lines((#[trigger] r@[i])@) % 2 == 0,
{
    let mut chunks: Vec<String> = Vec::new();
    let mut current = String::new();
    let mut open_fence: Option<String> = None;
    let lines = text::split_lines(text);
    let ghost all = text::texts(lines@);
    let mut i: usize = 0;
    proof {
        assert(all.take(0) =~= Seq::<Seq<char>>::empty());
        assert(text::texts(chunks@) =~= Seq::<Seq<char>>::empty());
        assert(current@ =~= Seq::<char>::empty());
    }
    while i < lines.len()
        invariant
            i <= lines@.len(),
            all == text::texts(lines@),
            split_view(chunks@, current, open_fence) == split_fold(
                all.take(i as int),
                limit as int,
            ),
        decreases lines@.len() - i,
    {
        let line = lines[i].as_str();
        let ghost st = split_view(chunks@, current, open_fence);
        proof {
            assert(all.take(i + 1).drop_last() =~= all.take(i as int));
            assert(all.take(i + 1).last() == line@);
        }
        let width: u128 = text::byte_len(line) as u128;
        let cost: u128 = match &open_fence {
            Some(f) => text::byte_len(f.as_str()) as u128 + 1,
            None => 0,
        };
        let end = text::trimmed_end(line);
        let body = text::strip_prefix(end.as_str(), "```");
        // Reserve room to close a fence, also one that this line opens.
        let reserve: u128 = if open_fence.is_some() {
            4
        } else if body.is_none() {
            0
        } else if ends_line(line) {
            3
        } else {
            4
        };
        if text::byte_len(current.as_str()) as u128 + width + reserve > limit as u128 {
            flush(&mut current, &mut chunks, &open_fence);
            if let Some(fence) = &open_fence {
                proof {
                    assert(current@ =~= Seq::<char>::empty());
                    assert(Seq::<char>::empty() + fence@ =~= fence@);
                }
                current.append(fence.as_str());
                current.push('\n');
            }
        }
        let ghost b = split_view(chunks@, current, open_fence);
        assert(b == broken(st, line@, limit as int));
        if width + cost + reserve > limit as u128 {
            let used: u128 = cost + reserve + 4;
            let room: usize = if used <= limit as u128 {
                (limit as u128 - used) as usize
            } else {
                0
            };
            let head = text::truncate(line, room);
            current.append(head.as_str());
            current.append("...\n");
            proof {
                assert(b.current + head@ + "...\n"@ =~= b.current + (head@ + "...\n"@));
            }
        } else {
            current.append(line);
        }
        if let Some(body) = body {
            if open_fence.is_some() {
                open_fence = None;
            } else {
                let lang = text::trimmed(body.as_str());
                open_fence = Some("```".to_owned().concat(lang.as_str()));
            }
        }
        i = i + 1;
    }
    proof {
        assert(all.take(lines@.len() as int) =~= all);
    }
    flush(&mut current, &mut chunks, &open_fence);
    proof {
        let all = chunks_of(text@, limit as int);
        if has_fence_room(text@, limit as int) {
            rendering_laws::lemma_fence_room(text@, limit as int);
            rendering_laws::law_chunks_fit(text@, limit as int);
            assert forall|i: int| 0 <= i < chunks@.len() implies text::utf8_len(
                (#[trigger] chunks@[i])@,
            ) <= limit by {
                assert(text::utf8_len(all[i]) <= limit);
            }
        }
        if has_backtick_room(text@, limit as int) {
            rendering_laws::lemma_backtick_room(text@, limit as int);
            rendering_laws::law_fences_balanced(text@, limit as int);
            assert forall|i: int| 0 <= i < chunks@.len() implies rendering_laws::fence_lines(
                (#[trigger] chunks@[i])@,
            ) % 2 == 0 by {
                assert(rendering_laws::fence_lines(all[i]) % 2 == 0);
            }
        }
    }
    chunks
}

// ---- parts of a turn ----

/// The field `key`, or else the field `other`.
pub open spec fn either_field(p: JsonTree, key: Seq<char>, other: Seq<char>) -> Option<JsonTree> {
    match p.get(key) {
        Some(v) => Some(v),
        None => p.get(other),
    }
}

pub open spec fn str_of(v: Option<JsonTree>) -> Option<Seq<char>> {
    match v {
        Some(v) => v.as_str(),
        None => None,
    }
}

pub open spec fn str_or(v: Option<Seq<char>>, default: Seq<char>) -> Seq<char> {
    match v {
        Some(s) => s,
        None => default,
    }
}

/// What a tool call works on, as the backend sends it.
pub open spec fn raw_detail(tool: Seq<char>, state: JsonTree) -> Option<Seq<char>> {
    match state.get("input"@) {
        None => None,
        Some(input) => if tool == "bash"@ {
            input.str_at("command"@)
        } else if tool == "read"@ || tool == "write"@ || tool == "edit"@ {
            str_of(either_field(input, "filePath"@, "file_path"@))
        } else if tool == "grep"@ || tool == "glob"@ {
            input.str_at("pattern"@)
        } else {
            state.str_at("title"@)
        },
    }
}

/// `s` on one line, cut to 120 bytes.
pub open spec fn shortened(s: Seq<char>) -> Seq<char> {
    let line = text::trim(text::replaced(s, '\n', ' '));
    if text::utf8_len(line) > 120 {
        text::prefix_within(line, 120) + "..."@
    } else {
        line
    }
}

/// The detail of a tool call, as inline code.
pub open spec fn detail_of(tool: Seq<char>, state: JsonTree) -> Option<Seq<char>> {
    match raw_detail(tool, state) {
        Some(s) => Some("`"@ + text::replaced(shortened(s), '`', '\'') + "`"@),
        None => None,
    }
}

/// The state of a tool part; a part without one has an empty state.
pub open spec fn state_of(p: JsonTree) -> JsonTree {
    match p.get("state"@) {
        Some(s) => s,
        None => JsonTree::Null,
    }
}

/// The line shown for a tool call in `state`.
pub open spec fn tool_line(tool: Seq<char>, state: JsonTree) -> Option<Seq<char>> {
    let status = str_or(state.str_at("status"@), ""@);
    let suffix = if status == "error"@ {
        " (error)"@
    } else {
        ""@
    };
    if status != "running"@ && status != "completed"@ && status != "error"@ {
        None
    } else {
        match detail_of(tool, state) {
            Some(d) => Some(TOOL_PREFIX@ + tool + ": "@ + d + suffix),
            None => Some(TOOL_PREFIX@ + tool + suffix),
        }
    }
}

/// The line shown for a part of the given kind.
pub open spec fn part_line(kind: Seq<char>, p: JsonTree) -> Option<Seq<char>> {
    if kind == "text"@ {
        match p.str_at("text"@) {
            Some(t) => if text::trim(t).len() == 0 {
                None
            } else {
                Some(AGENT_PREFIX@ + text::trim(t))
            },
            None => None,
        }
    } else if kind == "reasoning"@ {
        Some(TOOL_PREFIX@ + "thinking"@)
    } else if kind == "file"@ {
        Some(
            TOOL_PREFIX@ + "📄 "@ + str_or(str_of(either_field(p, "filename"@, "file"@)), "file"@),
        )
    } else if kind == "tool"@ {
        tool_line(str_or(p.str_at("tool"@), "tool"@), state_of(p))
    } else {
        None
    }
}

fn first_field<'a>(p: &'a Json, key: &str, other: &str) -> (r: Option<&'a str>)
    ensures
        json::opt_str(r) == str_of(either_field(p@, key@, other@)),
{
    match p.get(key) {
        Some(v) => v.as_str(),
        None => p.str_at(other),
    }
}

/// The detail shown behind the name of a tool.
pub fn tool_detail(tool: &str, state: &Json) -> (r: Option<String>)
    ensures
        text::opt_view(r) == detail_of(tool@, state@),
{
    let input = match state.get("input") {
        Some(input) => input,
        None => return None,
    };
    let found = if text::same_text(tool, "bash") {
        input.str_at("command")
    } else if text::same_text(tool, "read") || text::same_text(tool, "write") || text::same_text(tool, "edit") {
        first_field(input, "filePath", "file_path")
    } else if text::same_text(tool, "grep") || text::same_text(tool, "glob") {
        input.str_at("pattern")
    } else {
        state.str_at("title")
    };
    let detail = match found {
        Some(s) => s,
        None => return None,
    };
    let one_line = text::replace_char(detail, '\n', ' ');
    let mut short = text::trimmed(one_line.as_str());
    if text::byte_len(short.as_str()) > 120 {
        short = text::truncate(short.as_str(), 120).concat("...");
    }
    Some("`".to_owned().concat(text::replace_char(short.as_str(), '`', '\'').as_str()).concat("`"))
}

/// Render a single part to markdown. Returns `None` for parts that should not be
/// shown (step markers, snapshots, tool calls that have not started, etc).
pub fn format_part(part: &Part) -> (r: Option<String>)
    ensures
        text::opt_view(r) == part_line(part.kind@, part.payload@),
{
    let kind = part.kind.as_str();
    let p = &part.payload;
    if text::same_text(kind, "text") {
        match p.str_at("text") {
            Some(t) => {
                let text = text::trimmed(t);
                if text.as_str().is_empty() {
                    return None;
                }
                Some(AGENT_PREFIX.to_owned().concat(text.as_str()))
            },
            None => None,
        }
    } else if text::same_text(kind, "reasoning") {
        Some(TOOL_PREFIX.to_owned().concat("thinking"))
    } else if text::same_text(kind, "file") {
        // `filename` is canonical in file parts; `file` is kept as a fallback
        // for older event shapes.
        let name = match first_field(p, "filename", "file") {
            Some(name) => name,
            None => "file",
        };
        Some(TOOL_PREFIX.to_owned().concat("📄 ").concat(name))
    } else if text::same_text(kind, "tool") {
        let tool = match p.str_at("tool") {
            Some(tool) => tool,
            None => "tool",
        };
        match p.get("state") {
            Some(state) => format_tool(tool, state),
            None => format_tool(tool, &Json::Null),
        }
    } else {
        None
    }
}

/// Only a call that started or finished is shown; pending states would produce
/// duplicate lines.
fn format_tool(tool: &str, state: &Json) -> (r: Option<String>)
    ensures
        text::opt_view(r) == tool_line(tool@, state@),
{
    let status = match state.str_at("status") {
        Some(status) => status,
        None => "",
    };
    let error = text::same_text(status, "error");
    if !text::same_text(status, "running") && !text::same_text(status, "completed") && !error {
        return None;
    }
    let suffix = if error {
        " (error)"
    } else {
        ""
    };
    let line = TOOL_PREFIX.to_owned().concat(tool);
    match tool_detail(tool, state) {
        Some(d) => Some(line.concat(": ").concat(d.as_str()).concat(suffix)),
        None => Some(line.concat(suffix)),
    }
}

// ---- footers and previews ----

/// The number of whole seconds of a duration.
pub uninterp spec fn whole_seconds(d: std::time::Duration) -> u64;

/// `Duration::as_secs` is the number of whole seconds of the duration.
pub assume_specification[ std::time::Duration::as_secs ](d: &std::time::Duration) -> (r: u64)
    ensures
        r == whole_seconds(*d),
;

/// Minutes and seconds, or seconds alone below a minute.
pub open spec fn human_time(secs: nat) -> Seq<char> {
    if secs >= 60 {
        numbers::decimal(secs / 60) + "m "@ + numbers::decimal(secs % 60) + "s"@
    } else {
        numbers::decimal(secs) + "s"@
    }
}

pub open spec fn footer_text(secs: nat) -> Seq<char> {
    "-# lily ⋅ "@ + human_time(secs)
}

/// The footer of a turn that took `secs` seconds.
pub fn footer(secs: u64) -> (r: String)
    ensures
        r@ == footer_text(secs as nat),
{
    let human = if secs >= 60 {
        numbers::decimal_u64(secs / 60).concat("m ").concat(numbers::decimal_u64(secs % 60).as_str()).concat("s")
    } else {
        numbers::decimal_u64(secs).concat("s")
    };
    "-# lily ⋅ ".to_owned().concat(human.as_str())
}

/// Footer shown after each assistant turn, e.g. `-# lily ⋅ 2m 30s`.
pub fn turn_footer(elapsed: std::time::Duration) -> (r: String)
    ensures
        r@ == footer_text(whole_seconds(elapsed) as nat),
{
    footer(elapsed.as_secs())
}

/// The words of `s` with one space between each two.
pub open spec fn collapsed(s: Seq<char>) -> Seq<char> {
    text::join(text::words(s), " "@)
}

/// The first `max` characters of the collapsed prompt, or all where it has fewer.
pub open spec fn preview(prompt: Seq<char>, max: int) -> Seq<char> {
    if collapsed(prompt).len() <= max {
        collapsed(prompt)
    } else {
        collapsed(prompt).take(max)
    }
}

/// First `max` characters of a normalized (whitespace-collapsed) prompt.
pub fn prompt_preview(prompt: &str, max: usize) -> (r: String)
    ensures
        r@ == preview(prompt@, max as int),
        r@.len() <= max,
{
    let words = text::split_words(prompt);
    let normalized = text::join_texts(&words, " ");
    let v = text::chars_of(normalized.as_str());
    if v.len() <= max {
        return normalized;
    }
    text::text_of(&v, 0, max)
}

} // verus!
