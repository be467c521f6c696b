//! What holds of the lines that are shown: of the parts of a turn, of previews and of
//! tasks.

use crate::domain::rendering;
use crate::domain::task;
use crate::domain::task::{Payload, Schedule, ScheduleError, ScheduledTask};
use crate::json::JsonTree;
use crate::numbers;
use crate::text;
use crate::time;
use crate::time::Instant;
use vstd::prelude::*;
use vstd::string::*;

verus! {

// ---- parts ----

/// The kinds of parts are told apart.
proof fn lemma_kinds()
    ensures
        "reasoning"@ != "text"@,
        "file"@ != "text"@ && "file"@ != "reasoning"@,
        "tool"@ != "text"@ && "tool"@ != "reasoning"@ && "tool"@ != "file"@,
{
    reveal_strlit("text");
    reveal_strlit("reasoning");
    reveal_strlit("file");
    reveal_strlit("tool");
    assert("text"@[1] == 'e' && "tool"@[1] == 'o' && "file"@[1] == 'i');
    assert("reasoning"@.len() == 9 && "text"@.len() == 4 && "tool"@.len() == 4 && "file"@.len()
        == 4);
}

/// A text is shown whole behind the agent's mark, but for the whitespace around it; a
/// blank one is not shown.
pub proof fn law_text_is_shown_whole(p: JsonTree, t: Seq<char>)
    requires
        p.str_at("text"@) == Some(t),
    ensures
        text::trim(t).len() > 0 ==> rendering::part_line("text"@, p) == Some("⬥ "@ + text::trim(t)),
        text::trim(t).len() == 0 ==> rendering::part_line("text"@, p) is None,
{
}

/// A file is shown by its name.
pub proof fn law_file_is_named(p: JsonTree, name: Seq<char>)
    requires
        p.str_at("filename"@) == Some(name) || (p.get("filename"@) is None && p.str_at("file"@)
            == Some(name)),
    ensures
        rendering::part_line("file"@, p) == Some("┣ "@ + "📄 "@ + name),
{
    lemma_kinds();
}

/// That the agent thinks is shown, and not what; a part of an unknown kind is not shown.
pub proof fn law_thinking_is_not_spelled_out(p: JsonTree, q: JsonTree, kind: Seq<char>)
    ensures
        rendering::part_line("reasoning"@, p) == rendering::part_line("reasoning"@, q),
        rendering::part_line("reasoning"@, p) is Some,
        kind != "text"@ && kind != "reasoning"@ && kind != "file"@ && kind != "tool"@
            ==> rendering::part_line(kind, p) is None,
{
    lemma_kinds();
}

/// A tool is shown by its name once it runs, and what it works on stands behind it; a
/// failure is said at the end of the line. A tool that does not run yet is not shown.
pub proof fn law_tool_is_named(p: JsonTree, tool: Seq<char>, state: JsonTree, status: Seq<char>)
    requires
        p.str_at("tool"@) == Some(tool),
        p.get("state"@) == Some(state),
        state.str_at("status"@) == Some(status),
    ensures
        ({
            let line = rendering::part_line("tool"@, p);
            let ending = if status == "error"@ {
                " (error)"@
            } else {
                ""@
            };
            &&& line is Some <==> (status == "running"@ || status == "completed"@ || status
                == "error"@)
            &&& line matches Some(l) ==> match rendering::detail_of(tool, state) {
                Some(d) => l == "┣ "@ + tool + ": "@ + d + ending,
                None => l == "┣ "@ + tool + ending,
            }
        }),
{
    lemma_kinds();
}

/// What a tool works on is what it was given: the command of a shell, the path of a
/// file tool, the pattern of a search; another tool shows its title. Without input
/// nothing is shown.
pub proof fn law_detail_is_the_input(state: JsonTree, input: JsonTree, value: Seq<char>)
    requires
        state.get("input"@) == Some(input),
    ensures
        input.str_at("command"@) == Some(value) ==> rendering::raw_detail("bash"@, state) == Some(
            value,
        ),
        input.str_at("filePath"@) == Some(value) ==> rendering::raw_detail("read"@, state) == Some(
            value,
        ) && rendering::raw_detail("write"@, state) == Some(value) && rendering::raw_detail(
            "edit"@,
            state,
        ) == Some(value),
        input.get("filePath"@) is None && input.str_at("file_path"@) == Some(value)
            ==> rendering::raw_detail("read"@, state) == Some(value) && rendering::raw_detail(
            "write"@,
            state,
        ) == Some(value) && rendering::raw_detail("edit"@, state) == Some(value),
        input.str_at("pattern"@) == Some(value) ==> rendering::raw_detail("grep"@, state) == Some(
            value,
        ) && rendering::raw_detail("glob"@, state) == Some(value),
        forall|tool: Seq<char>|
            tool != "bash"@ && tool != "read"@ && tool != "write"@ && tool != "edit"@ && tool
                != "grep"@ && tool != "glob"@ ==> #[trigger] rendering::raw_detail(tool, state)
                == state.str_at("title"@),
{
    reveal_strlit("bash");
    reveal_strlit("read");
    reveal_strlit("write");
    reveal_strlit("edit");
    reveal_strlit("grep");
    reveal_strlit("glob");
    assert("bash"@[0] == 'b' && "read"@[0] == 'r' && "write"@[0] == 'w' && "edit"@[0] == 'e');
    assert("grep"@[0] == 'g' && "glob"@[0] == 'g');
}

/// A short detail is shown whole, as inline code on one line: only line feeds and
/// backticks are replaced. A long one is cut to its beginning, and the cut is marked.
pub proof fn law_detail_is_whole(tool: Seq<char>, state: JsonTree, raw: Seq<char>)
    requires
        rendering::raw_detail(tool, state) == Some(raw),
    ensures
        ({
            let line = text::trim(
                Seq::new(
                    raw.len(),
                    |i: int|
                        if raw[i] == '\n' {
                            ' '
                        } else {
                            raw[i]
                        },
                ),
            );
            let shown = rendering::shortened(raw);
            &&& text::utf8_len(line) <= 120 ==> shown == line
            &&& text::utf8_len(line) > 120 ==> {
                let kept = shown.take(shown.len() - 3);
                &&& shown.len() >= 3
                &&& shown == kept + "..."@
                &&& kept.is_prefix_of(line)
                &&& kept.len() < line.len()
                &&& text::utf8_len(kept) <= 120
                &&& text::utf8_len(kept) + text::width(line[kept.len() as int]) > 120
            }
            &&& rendering::detail_of(tool, state) == Some(
                "`"@ + Seq::new(
                    shown.len(),
                    |i: int|
                        if shown[i] == '`' {
                            '\''
                        } else {
                            shown[i]
                        },
                ) + "`"@,
            )
        }),
{
    let flat = Seq::new(
        raw.len(),
        |i: int|
            if raw[i] == '\n' {
                ' '
            } else {
                raw[i]
            },
    );
    assert(text::replaced(raw, '\n', ' ') =~= flat);
    let line = text::trim(flat);
    let shown = rendering::shortened(raw);
    text::lemma_prefix_within(line, 120);
    reveal_strlit("...");
    if text::utf8_len(line) > 120 {
        let kept = text::prefix_within(line, 120);
        assert(shown.take(shown.len() - 3) =~= kept);
        assert(kept =~= line.take(kept.len() as int));
        if kept.len() == line.len() {
            assert(kept =~= line);
        }
    }
    assert(text::replaced(shown, '`', '\'') =~= Seq::new(
        shown.len(),
        |i: int|
            if shown[i] == '`' {
                '\''
            } else {
                shown[i]
            },
    ));
}

/// A preview is the beginning of the prompt with its whitespace collapsed: all of it
/// where it fits, and as much as fits where it does not.
pub proof fn law_preview_fills_its_room(prompt: Seq<char>, max: int)
    requires
        max >= 0,
    ensures
        ({
            let all = rendering::collapsed(prompt);
            let shown = rendering::preview(prompt, max);
            &&& shown.is_prefix_of(all)
            &&& all.len() <= max ==> shown == all
            &&& all.len() > max ==> shown.len() == max
        }),
{
}

// ---- chunks ----

/// A line of a fence opens one where none is open, with what stands behind its
/// backticks, and closes the one that is open; any other line leaves the fence alone.
pub proof fn law_fence_lines_toggle(fence: Option<Seq<char>>, line: Seq<char>)
    ensures
        ({
            let bare = text::trim_end(line);
            let is_fence = bare.len() >= 3 && bare[0] == '`' && bare[1] == '`' && bare[2] == '`';
            &&& !is_fence ==> rendering::fence_after(fence, line) == fence
            &&& is_fence && fence is Some ==> rendering::fence_after(fence, line) is None
            &&& is_fence && fence is None ==> rendering::fence_after(fence, line) == Some(
                "```"@ + text::trim(bare.skip(3)),
            )
        }),
{
    reveal_strlit("```");
    let bare = text::trim_end(line);
    if bare.len() >= 3 && bare[0] == '`' && bare[1] == '`' && bare[2] == '`' {
        assert(bare.take(3) =~= "```"@);
    } else if bare.len() >= 3 {
        assert(bare.take(3)[0] == bare[0] && bare.take(3)[1] == bare[1] && bare.take(3)[2]
            == bare[2]);
        assert("```"@[0] == '`' && "```"@[1] == '`' && "```"@[2] == '`');
    }
}

/// A line that fits stays in the chunk that is being filled, whole and behind what is
/// there; no chunk ends before it has to. Beside the line there is room for what closes
/// a fence, and for nothing else.
pub proof fn law_fitting_line_joins_chunk(st: rendering::Split, line: Seq<char>, limit: int)
    requires
        st.fence is Some || rendering::fence_after(None, line) is None,
        text::utf8_len(st.current) + text::utf8_len(line) + (if st.fence is Some {
            4int
        } else {
            0int
        }) <= limit,
        st.fence matches Some(f) ==> text::utf8_len(line) + text::utf8_len(f) + 5 <= limit,
    ensures
        ({
            let next = rendering::split_step(st, line, limit);
            &&& next.chunks == st.chunks
            &&& next.current == st.current + line
        }),
{
}

/// Where a line does not fit, the chunk ends before it, with its fence closed on a line
/// of its own, and the next one begins with the same fence, so that the line stands in
/// it as it did; the chunks before stay as they are.
pub proof fn law_break_carries_fence(
    st: rendering::Split,
    f: Seq<char>,
    line: Seq<char>,
    limit: int,
)
    requires
        st.fence == Some(f),
        text::trim(st.current).len() > 0,
        text::utf8_len(st.current) + text::utf8_len(line) + 4 > limit,
        text::utf8_len(line) + text::utf8_len(f) + 5 <= limit,
    ensures
        ({
            let next = rendering::split_step(st, line, limit);
            let ends = st.current.len() > 0 && st.current.last() == '\n';
            &&& next.chunks == st.chunks.push(
                st.current + if ends {
                    "```"@
                } else {
                    seq!['\n'] + "```"@
                },
            )
            &&& next.current == f.push('\n') + line
        }),
{
    if st.current.len() > 0 {
        assert(st.current.skip(st.current.len() - 1) =~= seq![st.current.last()]);
        assert(seq![st.current.last()][0] == st.current.last() && seq!['\n'][0] == '\n');
    }
}

/// A line that is too long for any chunk is cut, and the cut is marked: what is kept is
/// its beginning, as much of it as there is room for beside the mark and the fence.
pub proof fn law_cut_keeps_most(line: Seq<char>, fence: Option<Seq<char>>, limit: int)
    requires
        fence is Some || rendering::fence_after(None, line) is None,
        limit >= 4 + (match fence {
            Some(f) => text::utf8_len(f) + 5,
            None => 0,
        }),
        text::utf8_len(line) + (match fence {
            Some(f) => text::utf8_len(f) + 5,
            None => 0,
        }) > limit,
    ensures
        ({
            let room = limit - 4 - (match fence {
                Some(f) => text::utf8_len(f) + 5,
                None => 0,
            });
            let shown = rendering::clipped(line, fence, limit);
            let kept = shown.take(shown.len() - 4);
            &&& shown.len() >= 4
            &&& shown == kept + "...\n"@
            &&& kept.is_prefix_of(line)
            &&& kept.len() < line.len()
            &&& text::utf8_len(kept) <= room
            &&& text::utf8_len(kept) + text::width(line[kept.len() as int]) > room
        }),
{
    let room = limit - 4 - (match fence {
        Some(f) => text::utf8_len(f) + 5,
        None => 0,
    });
    reveal_strlit("...\n");
    text::lemma_prefix_within(line, room);
    let kept = text::prefix_within(line, room);
    let shown = rendering::clipped(line, fence, limit);
    assert(shown =~= kept + "...\n"@);
    assert(shown.take(shown.len() - 4) =~= kept);
    if kept.len() == line.len() {
        assert(kept =~= line);
    }
}

/// The chunks of a text are those that its lines fill one by one, from nothing, and what
/// is left at the end is one more, unless it is blank.
pub proof fn law_chunks_are_filled_line_by_line(a: Seq<Seq<char>>, line: Seq<char>, limit: int)
    ensures
        rendering::split_fold(a.push(line), limit) == rendering::split_step(
            rendering::split_fold(a, limit),
            line,
            limit,
        ),
        rendering::split_fold(Seq::empty(), limit).chunks.len() == 0,
        rendering::split_fold(Seq::empty(), limit).current.len() == 0,
        rendering::split_fold(Seq::empty(), limit).fence is None,
        ({
            let st = rendering::split_fold(a, limit);
            &&& text::trim(st.current).len() == 0 ==> rendering::flushed(st).chunks == st.chunks
            &&& text::trim(st.current).len() > 0 ==> rendering::flushed(st).chunks.drop_last()
                == st.chunks && st.current.is_prefix_of(rendering::flushed(st).chunks.last())
        }),
{
    assert(a.push(line).drop_last() =~= a);
    let st = rendering::split_fold(a, limit);
    if text::trim(st.current).len() > 0 {
        let last = st.current + rendering::closing(st.current, st.fence);
        assert(st.chunks.push(last).drop_last() =~= st.chunks);
        assert(last.subrange(0, st.current.len() as int) =~= st.current);
    }
}

// ---- schedules ----

/// What `--send-at` takes: an expression is kept as it is and runs at its own times, in
/// UTC; a timestamp is one run, at just that time, which has to lie ahead.
pub proof fn law_schedule_is_what_was_asked(value: Seq<char>, now: Instant)
    ensures
        ({
            let is_cron = (value.len() > 0 && value[0] == '@') || text::words(value).len() >= 5;
            &&& task::schedule_of(value, now) matches Ok(s) ==> {
                &&& is_cron ==> {
                    &&& s.kind == "cron"@
                    &&& s.cron == Some(value)
                    &&& s.timezone == Some("UTC"@)
                    &&& s.run_at is None
                    &&& task::next_run(value, now) == Ok::<Instant, ScheduleError>(s.next)
                }
                &&& !is_cron ==> {
                    &&& s.kind == "at"@
                    &&& s.cron is None
                    &&& s.timezone is None
                    &&& s.run_at == Some(s.next)
                    &&& time::parsed_instant(value) == Ok::<Instant, Seq<char>>(s.next)
                    &&& now.before(s.next)
                    &&& value.len() > 0 && value.last() == 'Z'
                }
            }
            &&& !is_cron && value.len() > 0 && value.last() == 'Z' ==> (time::parsed_instant(
                value,
            ) matches Ok(at) ==> if now.before(at) {
                task::schedule_of(value, now) is Ok
            } else {
                task::schedule_of(value, now) == Err::<Schedule, ScheduleError>(
                    ScheduleError::NotInFuture(value),
                )
            })
            &&& !is_cron && (value.len() == 0 || value.last() != 'Z') ==> task::schedule_of(value, now)
                == Err::<Schedule, ScheduleError>(ScheduleError::NotUtc)
            &&& is_cron ==> (task::schedule_of(value, now) is Ok <==> task::next_run(value, now) is Ok)
        }),
{
    if value.len() > 0 {
        assert(value.take(1) =~= seq![value[0]]);
        assert(seq![value[0]][0] == value[0] && seq!['@'][0] == '@');
        assert(value.skip(value.len() - 1) =~= seq![value.last()]);
        assert(seq![value.last()][0] == value.last() && seq!['Z'][0] == 'Z');
    }
}

/// The payload of a task keeps what it is for.
pub proof fn law_payload_parts(
    place: Seq<char>,
    prompt: Seq<char>,
    name: Option<Seq<char>>,
    notify_only: bool,
    user: Option<Seq<char>>,
)
    ensures
        (Payload::Thread { thread: place, prompt, user }).prompt() == prompt,
        (Payload::Thread { thread: place, prompt, user }).thread() == Some(place),
        (Payload::Thread { thread: place, prompt, user }).channel() is None,
        (Payload::Channel { channel: place, prompt, name, notify_only, user }).prompt() == prompt,
        (Payload::Channel { channel: place, prompt, name, notify_only, user }).channel() == Some(
            place,
        ),
        (Payload::Channel { channel: place, prompt, name, notify_only, user }).thread() is None,
{
}

// ---- the line of a task ----

/// The line of a task begins with its number and its status, says when it runs next and,
/// for a recurring one, by which expression, and holds where it goes and how its prompt
/// begins; if it failed, it ends with how often and why.
pub proof fn law_task_line_says(t: ScheduledTask)
    ensures
        ({
            let next = time::minute_text(t.next_run_at@);
            let when = if t.schedule_kind@ == "cron"@ {
                "cron `"@ + (match t.cron_expr {
                    Some(e) => e@,
                    None => "?"@,
                }) + "` "@ + (match t.timezone {
                    Some(z) => z@,
                    None => "UTC"@,
                }) + " (next "@ + next + ")"@
            } else {
                "at "@ + next
            };
            let head = "#"@ + numbers::decimal_int(t.id as int) + " ["@ + t.status@ + "] "@ + when;
            let line = task::task_line(t);
            &&& head.is_prefix_of(line)
            &&& exists|a: Seq<char>, b: Seq<char>|
                line == #[trigger] (a + (" — "@ + t.prompt_preview@) + b)
            &&& t.thread_id matches Some(th) ==> exists|a: Seq<char>, b: Seq<char>|
                line == #[trigger] (a + (" → thread "@ + th@) + b)
            &&& t.thread_id is None ==> (t.channel_id matches Some(ch) ==> exists|
                a: Seq<char>,
                b: Seq<char>,
            | line == #[trigger] (a + (" → channel "@ + ch@) + b))
            &&& t.last_run_at matches Some(at) ==> exists|a: Seq<char>, b: Seq<char>|
                line == #[trigger] (a + (" (last run "@ + time::minute_text(at@) + ")"@) + b)
            &&& t.last_error matches Some(e) ==> (t.attempts > 0 ==> (" (attempts: "@
                + numbers::decimal_int(t.attempts as int) + ", last error: "@ + e@
                + ")"@).is_suffix_of(line))
        }),
{
    let next = time::minute_text(t.next_run_at@);
    let line = task::task_line(t);
    let a = "#"@ + numbers::decimal_int(t.id as int) + " ["@ + t.status@ + "] "@ + task::when_text(
        t,
        next,
    );
    let b = task::last_run_text(task::last_run_date(t));
    let c = task::target_text(t);
    let d = " — "@ + t.prompt_preview@;
    let e = task::error_text(t);
    assert(line =~= a + b + c + d + e);
    assert(a =~= line.take(a.len() as int));
    assert(line =~= (a + b + c) + d + e);
    if t.thread_id is Some || t.channel_id is Some {
        assert(line =~= (a + b) + c + (d + e));
    }
    if t.last_run_at is Some {
        assert(line =~= a + b + (c + d + e));
    }
    assert(line.subrange(line.len() - e.len(), line.len() as int) =~= e);
}

} // verus!
