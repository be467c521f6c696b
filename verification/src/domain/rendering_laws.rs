//! What splitting markdown guarantees of every text.

use crate::domain::rendering;
use crate::text;
use vstd::prelude::*;
use vstd::string::*;

verus! {

/// The state after the first `k` lines of `text`.
pub open spec fn split_at(text: Seq<char>, k: int, limit: int) -> rendering::Split {
    rendering::split_fold(text::lines_inclusive(text).take(k), limit)
}

/// Whether the current chunk, with its fence closed, fits.
pub open spec fn has_room(st: rendering::Split, limit: int) -> bool {
    text::utf8_len(st.current + rendering::closing(st.current, st.fence)) <= limit
}

/// The bytes that closing a fence takes at most.
pub open spec fn close_cost(fence: Option<Seq<char>>) -> nat {
    if fence is Some {
        4
    } else {
        0
    }
}

proof fn lemma_closing(current: Seq<char>, fence: Option<Seq<char>>)
    ensures
        text::utf8_len(rendering::closing(current, fence)) <= close_cost(fence),
        text::utf8_len(current + rendering::closing(current, fence)) <= text::utf8_len(current)
            + close_cost(fence),
{
    text::lemma_utf8_len_concat(current, rendering::closing(current, fence));
    reveal_strlit("```");
    reveal_with_fuel(text::utf8_len, 5);
}

/// Behind a line feed, closing a fence takes its backticks alone.
proof fn lemma_closing_line(current: Seq<char>, fence: Option<Seq<char>>)
    requires
        current.len() > 0,
        current.last() == '\n',
    ensures
        text::utf8_len(current + rendering::closing(current, fence)) <= text::utf8_len(current) + 3,
{
    assert(current.skip(current.len() - 1) =~= seq!['\n']);
    text::lemma_utf8_len_concat(current, rendering::closing(current, fence));
    reveal_strlit("```");
    reveal_with_fuel(text::utf8_len, 4);
}

/// A blank chunk holds whole lines only, and no fence is open in it.
spec fn blank_is_plain(st: rendering::Split, limit: int) -> bool {
    text::all_whitespace(st.current) ==> st.fence is None && text::utf8_len(st.current) <= limit
}

proof fn lemma_step_fence(st: rendering::Split, line: Seq<char>)
    ensures
        text::starts_with(text::trim_end(line), "```"@) == rendering::is_fence_line(line),
{
    reveal_strlit("```");
    text::lemma_trim_end_shape(line);
    let t = text::trim_end(line);
    if text::starts_with(line, "```"@) {
        if t.len() < 3 {
            assert(line.take(3)[2] == '`');
            lemma_trim_end_past(line, 2);
        }
        assert(t.take(3) =~= line.take(3));
    }
    if text::starts_with(t, "```"@) {
        assert(t.take(3) =~= line.take(3));
    }
}

/// Trimming the end keeps everything up to a visible character.
proof fn lemma_trim_end_past(s: Seq<char>, i: int)
    requires
        0 <= i < s.len(),
        !text::is_whitespace(s[i]),
    ensures
        text::trim_end(s).len() > i,
    decreases s.len(),
{
    if text::is_whitespace(s.last()) {
        lemma_trim_end_past(s.drop_last(), i);
    }
}

proof fn lemma_step_blank(st: rendering::Split, line: Seq<char>, limit: int)
    requires
        blank_is_plain(st, limit),
        line.len() > 0,
        st.fence matches Some(f) ==> f.len() > 0 && !text::is_whitespace(f[0]),
    ensures
        blank_is_plain(rendering::split_step(st, line, limit), limit),
        rendering::fence_after(st.fence, line) matches Some(f) ==> f.len() > 0 && !text::is_whitespace(
            f[0],
        ),
{
    reveal_strlit("```");
    reveal_strlit("...\n");
    lemma_step_fence(st, line);
    let next = rendering::split_step(st, line, limit);
    let b = rendering::broken(st, line, limit);
    let body = rendering::clipped(line, st.fence, limit);
    if text::all_whitespace(next.current) {
        assert forall|i: int| 0 <= i < b.current.len() implies text::is_whitespace(
            #[trigger] b.current[i],
        ) by {
            assert(next.current[i] == b.current[i]);
        }
        assert forall|i: int| 0 <= i < body.len() implies text::is_whitespace(#[trigger] body[i]) by {
            assert(next.current[b.current.len() + i] == body[i]);
        }
        if rendering::is_overlong(line, st.fence, limit) {
            assert(body[body.len() - 4] == '.');
        }
        assert(body == line);
        if rendering::is_fence_line(line) {
            assert(line.take(3)[0] == '`');
            assert(body[0] == '`');
        }
        assert(next.fence == st.fence);
        if st.fence is Some {
            if b == st {
                assert(text::all_whitespace(st.current));
            } else {
                let f = st.fence->0;
                assert(b.current == f.push('\n'));
                assert(b.current[0] == f[0]);
            }
        }
        text::lemma_utf8_len_concat(b.current, line);
    }
}

proof fn lemma_fold_blank(lines: Seq<Seq<char>>, limit: int)
    requires
        limit >= 0,
        forall|k: int| 0 <= k < lines.len() ==> (#[trigger] lines[k]).len() > 0,
    ensures
        blank_is_plain(rendering::split_fold(lines, limit), limit),
        rendering::split_fold(lines, limit).fence matches Some(f) ==> f.len() > 0
            && !text::is_whitespace(f[0]),
    decreases lines.len(),
{
    if lines.len() > 0 {
        let init = lines.drop_last();
        assert forall|k: int| 0 <= k < init.len() implies (#[trigger] init[k]).len() > 0 by {
            assert(lines[k].len() > 0);
        }
        lemma_fold_blank(init, limit);
        lemma_step_blank(rendering::split_fold(init, limit), lines.last(), limit);
    }
}

proof fn lemma_room_after(st: rendering::Split, line: Seq<char>, limit: int)
    requires
        blank_is_plain(st, limit),
        line.len() > 0,
    ensures
        ({
            let next = rendering::split_step(st, line, limit);
            &&& st.chunks.is_prefix_of(next.chunks)
            &&& !has_room(st, limit) ==> !rendering::all_fit(next.chunks, limit)
            &&& has_room(st, limit) && rendering::all_fit(st.chunks, limit) ==> rendering::all_fit(next.chunks, limit)
        }),
{
    let next = rendering::split_step(st, line, limit);
    lemma_flush(st, limit);
    lemma_closing(st.current, st.fence);
    if !has_room(st, limit) {
        let n = st.chunks.len() as int;
        assert(text::utf8_len(line) >= 0);
        assert(text::utf8_len(st.current) + text::utf8_len(line) + rendering::fence_reserve(st.fence, line) > limit);
        assert(text::utf8_len(next.chunks[n]) > limit);
    }
}

proof fn lemma_flush(st: rendering::Split, limit: int)
    requires
        blank_is_plain(st, limit),
    ensures
        ({
            let next = rendering::flushed(st);
            &&& st.chunks.is_prefix_of(next.chunks)
            &&& !has_room(st, limit) ==> next.chunks.len() == st.chunks.len() + 1 && text::utf8_len(
                next.chunks[st.chunks.len() as int],
            ) > limit
            &&& has_room(st, limit) && rendering::all_fit(st.chunks, limit) ==> rendering::all_fit(next.chunks, limit)
        }),
{
    text::lemma_trim_blank(st.current);
    let next = rendering::flushed(st);
    if text::all_whitespace(st.current) {
        assert(st.current + Seq::<char>::empty() =~= st.current);
    } else {
        assert(next.chunks.take(st.chunks.len() as int) =~= st.chunks);
    }
}

proof fn lemma_fold_fits(lines: Seq<Seq<char>>, limit: int)
    requires
        limit >= 0,
        forall|k: int| 0 <= k < lines.len() ==> (#[trigger] lines[k]).len() > 0,
        forall|k: int|
            0 <= k < lines.len() ==> has_room(
                #[trigger] rendering::split_fold(lines.take(k), limit),
                limit,
            ),
    ensures
        rendering::all_fit(rendering::split_fold(lines, limit).chunks, limit),
    decreases lines.len(),
{
    if lines.len() > 0 {
        let init = lines.drop_last();
        assert forall|k: int| 0 <= k < init.len() implies has_room(
            #[trigger] rendering::split_fold(init.take(k), limit),
            limit,
        ) by {
            assert(init.take(k) =~= lines.take(k));
        }
        assert forall|k: int| 0 <= k < init.len() implies (#[trigger] init[k]).len() > 0 by {
            assert(lines[k].len() > 0);
        }
        lemma_fold_fits(init, limit);
        lemma_fold_blank(init, limit);
        assert(init =~= lines.take(lines.len() - 1));
        assert(lines[lines.len() - 1].len() > 0);
        lemma_room_after(rendering::split_fold(init, limit), lines.last(), limit);
    }
}

proof fn lemma_fold_overflows(lines: Seq<Seq<char>>, k: int, limit: int)
    requires
        limit >= 0,
        forall|j: int| 0 <= j < lines.len() ==> (#[trigger] lines[j]).len() > 0,
        0 <= k < lines.len(),
        !has_room(rendering::split_fold(lines.take(k), limit), limit),
    ensures
        !rendering::all_fit(rendering::split_fold(lines, limit).chunks, limit),
    decreases lines.len(),
{
    let init = lines.drop_last();
    assert forall|j: int| 0 <= j < init.len() implies (#[trigger] init[j]).len() > 0 by {
        assert(lines[j].len() > 0);
    }
    lemma_fold_blank(init, limit);
    assert(lines[lines.len() - 1].len() > 0);
    let st = rendering::split_fold(init, limit);
    lemma_room_after(st, lines.last(), limit);
    if k == lines.len() - 1 {
        assert(lines.take(k) =~= init);
    } else {
        assert(init.take(k) =~= lines.take(k));
        lemma_fold_overflows(init, k, limit);
        lemma_prefix_fit(st.chunks, rendering::split_fold(lines, limit).chunks, limit);
    }
}

proof fn lemma_prefix_fit(a: Seq<Seq<char>>, b: Seq<Seq<char>>, limit: int)
    requires
        a.is_prefix_of(b),
        !rendering::all_fit(a, limit),
    ensures
        !rendering::all_fit(b, limit),
{
    let i = choose|i: int| 0 <= i < a.len() && text::utf8_len(#[trigger] a[i]) > limit;
    assert(b.take(a.len() as int)[i] == b[i]);
}

/// Every chunk fits exactly if, after each line, the chunk that is being filled
/// still has room to close the fence that is open in it.
pub proof fn law_fit_is_room(text: Seq<char>, limit: int)
    requires
        limit >= 0,
    ensures
        rendering::all_fit(rendering::chunks_of(text, limit), limit) <==> (forall|k: int|
            0 <= k <= text::lines_inclusive(text).len() ==> has_room(
                #[trigger] split_at(text, k, limit),
                limit,
            )),
{
    let lines = text::lines_inclusive(text);
    text::lemma_lines_shape(text, Seq::empty());
    assert forall|k: int| 0 <= k < lines.len() implies (#[trigger] lines[k]).len() > 0 by {
        assert(text::is_line(text::lines_from(text, Seq::empty())[k]));
    }
    let st = rendering::split_fold(lines, limit);
    lemma_fold_blank(lines, limit);
    lemma_flush(st, limit);
    assert(lines.take(lines.len() as int) =~= lines);
    let n = lines.len() as int;
    if forall|k: int| 0 <= k <= n ==> has_room(#[trigger] split_at(text, k, limit), limit) {
        assert forall|k: int| 0 <= k < n implies has_room(
            #[trigger] rendering::split_fold(lines.take(k), limit),
            limit,
        ) by {
            assert(has_room(split_at(text, k, limit), limit));
        }
        lemma_fold_fits(lines, limit);
        assert(has_room(split_at(text, n, limit), limit));
    } else {
        let k = choose|k: int|
            0 <= k <= n && !has_room(#[trigger] split_at(text, k, limit), limit);
        if k == n {
            let m = st.chunks.len() as int;
            assert(text::utf8_len(rendering::chunks_of(text, limit)[m]) > limit);
        } else {
            lemma_fold_overflows(lines, k, limit);
            lemma_prefix_fit(st.chunks, rendering::flushed(st).chunks, limit);
        }
    }
}

/// Whether every line that is cut leaves room for the fence that is reopened before
/// it, for what closes a fence behind it and for the mark of the cut.
pub open spec fn cuts_leave_room(text: Seq<char>, limit: int) -> bool {
    forall|k: int|
        0 <= k < text::lines_inclusive(text).len() && rendering::is_overlong(
            text::lines_inclusive(text)[k],
            (#[trigger] split_at(text, k, limit)).fence,
            limit,
        ) ==> rendering::fence_cost(split_at(text, k, limit).fence) + rendering::fence_reserve(
            split_at(text, k, limit).fence,
            text::lines_inclusive(text)[k],
        ) + 4 <= limit
}

/// Whether the current chunk holds its open fence, or is all but full.
spec fn holds_fence(st: rendering::Split, limit: int) -> bool {
    ||| rendering::fence_cost(st.fence) <= text::utf8_len(st.current)
    ||| limit <= text::utf8_len(st.current) + 7
}

proof fn lemma_utf8_len_trim(s: Seq<char>)
    ensures
        text::utf8_len(text::trim_end(s)) <= text::utf8_len(s),
        s.len() > 0 && text::is_whitespace(s.last()) ==> text::utf8_len(text::trim_end(s)) + 1
            <= text::utf8_len(s),
        text::utf8_len(text::trim(s)) <= text::utf8_len(s),
{
    let t = text::trim_start(s);
    text::lemma_trim_start_shape(s);
    let n = s.len() - t.len();
    assert(s.take(n) + s.skip(n) =~= s);
    text::lemma_utf8_len_concat(s.take(n), s.skip(n));
    lemma_utf8_len_trim_end(t);
    lemma_utf8_len_trim_end(s);
}

proof fn lemma_utf8_len_trim_end(s: Seq<char>)
    ensures
        text::utf8_len(text::trim_end(s)) <= text::utf8_len(s),
        s.len() > 0 && text::is_whitespace(s.last()) ==> text::utf8_len(text::trim_end(s)) + 1
            <= text::utf8_len(s),
    decreases s.len(),
{
    if s.len() > 0 && text::is_whitespace(s.last()) {
        lemma_utf8_len_trim_end(s.drop_last());
        assert(s.drop_last() + seq![s.last()] =~= s);
        text::lemma_utf8_len_concat(s.drop_last(), seq![s.last()]);
        reveal_with_fuel(text::utf8_len, 2);
    }
}

/// A complete line that opens a fence is at least as long as reopening the fence.
proof fn lemma_fence_cost(line: Seq<char>)
    requires
        line.len() > 0,
        line.last() == '\n',
        rendering::fence_after(None, line) is Some,
    ensures
        rendering::fence_cost(rendering::fence_after(None, line)) <= text::utf8_len(line),
{
    let t = text::trim_end(line);
    let p = "```"@;
    let body = t.skip(p.len() as int);
    assert(text::is_whitespace('\n'));
    lemma_utf8_len_trim(line);
    lemma_utf8_len_trim(body);
    assert(t.take(p.len() as int) == p);
    assert(p + body =~= t);
    text::lemma_utf8_len_concat(p, body);
    text::lemma_utf8_len_concat(p, text::trim(body));
}

proof fn lemma_step_fits(st: rendering::Split, line: Seq<char>, limit: int)
    requires
        limit >= 0,
        line.len() > 0,
        has_room(st, limit),
        holds_fence(st, limit),
        rendering::all_fit(st.chunks, limit),
        rendering::is_overlong(line, st.fence, limit) ==> rendering::fence_cost(st.fence)
            + rendering::fence_reserve(st.fence, line) + 4 <= limit,
    ensures
        ({
            let next = rendering::split_step(st, line, limit);
            &&& has_room(next, limit)
            &&& rendering::all_fit(next.chunks, limit)
            &&& line.last() == '\n' ==> holds_fence(next, limit)
        }),
{
    let next = rendering::split_step(st, line, limit);
    let b = rendering::broken(st, line, limit);
    let body = rendering::clipped(line, st.fence, limit);
    let cost = rendering::fence_cost(st.fence);
    let reserve = rendering::fence_reserve(st.fence, line);
    text::lemma_utf8_len_concat(b.current, body);
    assert(text::utf8_len(line) >= 1);
    if text::utf8_len(st.current) + text::utf8_len(line) + reserve > limit {
        if let Some(f) = st.fence {
            assert(f.push('\n') =~= f + seq!['\n']);
            text::lemma_utf8_len_concat(f, seq!['\n']);
            reveal_with_fuel(text::utf8_len, 2);
        }
        assert(text::utf8_len(b.current) == cost);
    } else {
        assert(b == st);
    }
    assert(rendering::all_fit(next.chunks, limit));
    if rendering::is_overlong(line, st.fence, limit) {
        let kept = rendering::kept_bytes(line, st.fence, limit);
        let head = text::prefix_within(line, kept);
        text::lemma_prefix_within(line, kept);
        lemma_prefix_whole(line, kept, st.fence, limit);
        text::lemma_utf8_len_concat(head, "...\n"@);
        assert(text::utf8_len("...\n"@) == 4) by {
            reveal_strlit("...\n");
            reveal_with_fuel(text::utf8_len, 5);
        }
        assert(kept - 3 <= text::utf8_len(head) <= kept);
        assert(body.last() == '\n') by {
            reveal_strlit("...\n");
        }
    }
    assert(text::utf8_len(next.current) + reserve <= limit);
    lemma_closing(next.current, next.fence);
    if text::ends_with(line, seq!['\n']) {
        assert(line.skip(line.len() - 1)[0] == '\n');
        assert(body.last() == '\n');
        assert(next.current.last() == '\n');
        lemma_closing_line(next.current, next.fence);
    }
    assert(has_room(next, limit));
    if line.last() == '\n' && st.fence is None && next.fence is Some {
        lemma_fence_cost(line);
    }
}

proof fn lemma_fold_fits_cut(text: Seq<char>, k: int, limit: int)
    requires
        limit >= 0,
        0 <= k <= text::lines_inclusive(text).len(),
        cuts_leave_room(text, limit),
    ensures
        ({
            let st = split_at(text, k, limit);
            &&& has_room(st, limit)
            &&& rendering::all_fit(st.chunks, limit)
            &&& k < text::lines_inclusive(text).len() ==> holds_fence(st, limit)
        }),
    decreases k,
{
    let lines = text::lines_inclusive(text);
    if k > 0 {
        lemma_fold_fits_cut(text, k - 1, limit);
        assert(lines.take(k).drop_last() =~= lines.take(k - 1));
        assert(lines.take(k).last() == lines[k - 1]);
        text::lemma_lines_shape(text, Seq::empty());
        assert(text::is_line(text::lines_from(text, Seq::empty())[k - 1]));
        lemma_step_fits(split_at(text, k - 1, limit), lines[k - 1], limit);
    }
}

/// Every chunk fits, whatever the text, as long as each line that has to be cut
/// leaves room for its fence and for the mark of the cut.
pub proof fn law_chunks_fit(text: Seq<char>, limit: int)
    requires
        limit >= 0,
        cuts_leave_room(text, limit),
    ensures
        rendering::all_fit(rendering::chunks_of(text, limit), limit),
{
    let lines = text::lines_inclusive(text);
    lemma_fold_fits_cut(text, lines.len() as int, limit);
    assert(lines.take(lines.len() as int) =~= lines);
}

/// A limit with room for each fence line and the mark of a cut has room for every
/// cut.
pub proof fn lemma_fence_room(text: Seq<char>, limit: int)
    requires
        rendering::has_fence_room(text, limit),
    ensures
        cuts_leave_room(text, limit),
{
    let lines = text::lines_inclusive(text);
    assert forall|k: int|
        0 <= k < lines.len() && rendering::is_overlong(
            lines[k],
            (#[trigger] split_at(text, k, limit)).fence,
            limit,
        ) implies rendering::fence_cost(split_at(text, k, limit).fence) + rendering::fence_reserve(
        split_at(text, k, limit).fence,
        lines[k],
    ) + 4 <= limit by {
        lemma_fence_small(text, k, limit, limit - 8);
        lemma_step_fence(split_at(text, k, limit), lines[k]);
    }
}

/// A fence that is open before a line is no longer than the longest fence line.
proof fn lemma_fence_small(text: Seq<char>, k: int, limit: int, max: int)
    requires
        rendering::fence_lines_within(text, max),
        0 <= k < text::lines_inclusive(text).len(),
    ensures
        split_at(text, k, limit).fence is Some ==> rendering::fence_cost(
            split_at(text, k, limit).fence,
        ) <= max,
    decreases k,
{
    let lines = text::lines_inclusive(text);
    if k > 0 {
        lemma_fence_small(text, k - 1, limit, max);
        assert(lines.take(k).drop_last() =~= lines.take(k - 1));
        let line = lines[k - 1];
        assert(lines.take(k).last() == line);
        text::lemma_lines_shape(text, Seq::empty());
        assert(text::is_line(text::lines_from(text, Seq::empty())[k - 1]));
        assert(text::lines_from(text, Seq::empty())[k - 1].last() == '\n');
        let st = split_at(text, k - 1, limit);
        lemma_step_fence(st, line);
        if st.fence is None && rendering::fence_after(st.fence, line) is Some {
            lemma_fence_cost(line);
        }
    }
}

/// A text without code fences is always split into chunks that fit, as long as
/// the mark of a cut line does.
pub proof fn law_plain_chunks_fit(text: Seq<char>, limit: int)
    requires
        limit >= 4,
        has_no_fences(text),
    ensures
        rendering::all_fit(rendering::chunks_of(text, limit), limit),
{
    lemma_fence_room(text, limit);
    law_chunks_fit(text, limit);
}

// ---- balanced fences ----

pub open spec fn count_fences(lines: Seq<Seq<char>>) -> nat
    decreases lines.len(),
{
    if lines.len() == 0 {
        0
    } else {
        count_fences(lines.drop_last()) + if rendering::is_fence_line(lines.last()) {
            1nat
        } else {
            0nat
        }
    }
}

/// The number of lines of `s` that open or close a fence.
pub open spec fn fence_lines(s: Seq<char>) -> nat {
    count_fences(text::lines_inclusive(s))
}

/// Whether the fences of the current chunk are balanced but for the open one.
spec fn balanced(st: rendering::Split) -> bool {
    fence_lines(st.current) % 2 == if st.fence is Some {
        1nat
    } else {
        0nat
    }
}

spec fn fence_is_line(fence: Option<Seq<char>>) -> bool {
    fence matches Some(f) ==> {
        &&& rendering::is_fence_line(f)
        &&& forall|i: int| 0 <= i < f.len() ==> #[trigger] f[i] != '\n'
    }
}

spec fn all_balanced(chunks: Seq<Seq<char>>) -> bool {
    forall|i: int| 0 <= i < chunks.len() ==> fence_lines(#[trigger] chunks[i]) % 2 == 0
}

proof fn lemma_count_push(lines: Seq<Seq<char>>, line: Seq<char>)
    ensures
        count_fences(lines + seq![line]) == count_fences(lines) + if rendering::is_fence_line(
            line,
        ) {
            1nat
        } else {
            0nat
        },
{
    assert((lines + seq![line]).drop_last() =~= lines);
}

/// Adding one line to complete lines adds its fence.
proof fn lemma_fences_line(s: Seq<char>, line: Seq<char>)
    requires
        text::is_block(s),
        text::is_line(line),
    ensures
        fence_lines(s + line) == fence_lines(s) + if rendering::is_fence_line(line) {
            1nat
        } else {
            0nat
        },
{
    text::lemma_lines_concat(s, line, Seq::empty());
    text::lemma_lines_single(line, Seq::empty());
    assert(Seq::<char>::empty() + line =~= line);
    lemma_count_push(text::lines_inclusive(s), line);
}

/// A line feed at the end changes the number of fences of no text.
proof fn lemma_fences_newline(s: Seq<char>)
    ensures
        fence_lines(s.push('\n')) == fence_lines(s) || s.len() == 0,
    decreases s.len(),
{
    if s.len() > 0 {
        lemma_lines_newline(s, Seq::empty());
        let a = text::lines_inclusive(s);
        let b = text::lines_inclusive(s.push('\n'));
        text::lemma_lines_shape(s, Seq::empty());
        reveal_strlit("```");
        if s.last() == '\n' {
            lemma_count_push(a, seq!['\n']);
            assert(!rendering::is_fence_line(seq!['\n']));
        } else {
            let l = a.last();
            assert(b.drop_last() =~= a.drop_last());
            assert(b.last() == l.push('\n'));
            if l.len() >= 3 {
                assert(l.take(3) =~= l.push('\n').take(3));
            } else if rendering::is_fence_line(l.push('\n')) {
                assert(l.push('\n').take(3)[l.len() as int] == '\n');
            }
        }
    }
}

proof fn lemma_lines_newline(s: Seq<char>, cur: Seq<char>)
    requires
        cur.len() + s.len() > 0,
        s.len() == 0 ==> cur.last() != '\n',
    ensures
        ({
            let a = text::lines_from(s, cur);
            let b = text::lines_from(s.push('\n'), cur);
            &&& a.len() > 0
            &&& if s.len() > 0 && s.last() == '\n' {
                b == a + seq![seq!['\n']]
            } else {
                b == a.drop_last().push(a.last().push('\n'))
            }
        }),
    decreases s.len(),
{
    let t = s.push('\n');
    reveal_with_fuel(text::lines_from, 3);
    if s.len() == 0 {
        assert(t.drop_first() =~= Seq::<char>::empty());
        assert(text::lines_from(t, cur) =~= seq![cur.push('\n')]);
        assert(seq![cur].drop_last().push(cur.push('\n')) =~= seq![cur.push('\n')]);
    } else {
        assert(t.drop_first() =~= s.drop_first().push('\n'));
        if s[0] == '\n' {
            if s.len() == 1 {
                assert(s.drop_first() =~= Seq::<char>::empty());
                assert(t.drop_first().drop_first() =~= Seq::<char>::empty());
                assert(Seq::<char>::empty().push('\n') =~= seq!['\n']);
                assert(text::lines_from(s, cur) =~= seq![cur.push('\n')]);
                assert(text::lines_from(t, cur) =~= seq![cur.push('\n')] + seq![seq!['\n']]);
            } else {
                lemma_lines_newline(s.drop_first(), Seq::empty());
                let a = text::lines_from(s, cur);
                let b = text::lines_from(t, cur);
                let a1 = text::lines_from(s.drop_first(), Seq::empty());
                let head = seq![cur.push('\n')];
                if s.last() == '\n' {
                    assert(head + (a1 + seq![seq!['\n']]) =~= a + seq![seq!['\n']]);
                } else {
                    assert(head + a1.drop_last().push(a1.last().push('\n')) =~= a.drop_last().push(
                        a.last().push('\n'),
                    ));
                }
            }
        } else {
            lemma_lines_newline(s.drop_first(), cur.push(s[0]));
        }
    }
}

proof fn lemma_flush_balanced(st: rendering::Split)
    requires
        balanced(st),
        fence_is_line(st.fence),
        all_balanced(st.chunks),
    ensures
        all_balanced(rendering::flushed(st).chunks),
{
    reveal_strlit("```");
    if text::trim(st.current).len() > 0 {
        text::lemma_trim_ends(st.current);
        let c = st.current;
        if st.fence is Some {
            assert(text::is_line("```"@));
            assert("```"@.take(3) =~= "```"@);
            if text::ends_with(c, seq!['\n']) {
                assert(c.skip(c.len() - 1)[0] == '\n');
                lemma_fences_line(c, "```"@);
            } else {
                lemma_fences_newline(c);
                lemma_fences_line(c.push('\n'), "```"@);
                assert(c.push('\n') + "```"@ =~= c + (seq!['\n'] + "```"@));
            }
        } else {
            assert(c + Seq::<char>::empty() =~= c);
        }
        let chunk = c + rendering::closing(c, st.fence);
        assert(fence_lines(chunk) % 2 == 0);
        let next = st.chunks.push(chunk);
        assert forall|i: int| 0 <= i < next.len() implies fence_lines(#[trigger] next[i]) % 2
            == 0 by {
            if i < st.chunks.len() {
                assert(next[i] == st.chunks[i]);
            }
        }
    }
}

/// The name of a fence never spans lines.
proof fn lemma_fence_after_line(fence: Option<Seq<char>>, line: Seq<char>)
    requires
        fence_is_line(fence),
        text::is_line(line),
    ensures
        fence_is_line(rendering::fence_after(fence, line)),
{
    reveal_strlit("```");
    let t = text::trim_end(line);
    text::lemma_trim_end_shape(line);
    if text::starts_with(t, "```"@) && fence is None {
        let body = t.skip(3);
        let f = "```"@ + text::trim(body);
        assert forall|i: int| 0 <= i < t.len() implies #[trigger] t[i] != '\n' by {
            if i == line.len() - 1 {
                assert(t.last() == line[i]);
            } else {
                assert(line[i] != '\n');
            }
        }
        text::lemma_trim_start_shape(body);
        text::lemma_trim_end_shape(text::trim_start(body));
        assert forall|i: int| 0 <= i < f.len() implies #[trigger] f[i] != '\n' by {
            if i >= 3 {
                let off = body.len() - text::trim_start(body).len();
                assert(text::trim(body)[i - 3] == text::trim_start(body)[i - 3]);
                assert(text::trim_start(body)[i - 3] == body[off + i - 3]);
                assert(body[off + i - 3] == t[off + i]);
            }
        }
        assert(f.take(3) =~= "```"@);
    }
}

proof fn lemma_step_balanced(st: rendering::Split, line: Seq<char>, limit: int)
    requires
        balanced(st),
        text::is_block(st.current),
        fence_is_line(st.fence),
        all_balanced(st.chunks),
        text::is_line(line),
        rendering::is_fence_line(line) ==> rendering::is_fence_line(
            rendering::clipped(line, st.fence, limit),
        ),
    ensures
        ({
            let next = rendering::split_step(st, line, limit);
            &&& balanced(next)
            &&& fence_is_line(next.fence)
            &&& all_balanced(next.chunks)
            &&& line.last() == '\n' ==> text::is_block(next.current)
        }),
{
    reveal_strlit("```");
    reveal_strlit("...\n");
    lemma_step_fence(st, line);
    lemma_fence_after_line(st.fence, line);
    lemma_flush_balanced(st);
    let b = rendering::broken(st, line, limit);
    let body = rendering::clipped(line, st.fence, limit);
    // The state after the break is balanced.
    if b != st {
        assert(text::lines_inclusive(Seq::<char>::empty()) =~= Seq::<Seq<char>>::empty());
        if let Some(f) = st.fence {
            let l = f.push('\n');
            assert(l.take(3) =~= f.take(3));
            lemma_fences_line(Seq::empty(), l);
            assert(Seq::<char>::empty() + l =~= l);
        }
    }
    assert(balanced(b) && text::is_block(b.current));
    // The line, clipped, is a line with the same fence.
    if rendering::is_overlong(line, st.fence, limit) {
        let kept = rendering::kept_bytes(line, st.fence, limit);
        let head = text::prefix_within(line, kept);
        text::lemma_prefix_within(line, kept);
        if head.len() == line.len() {
            lemma_prefix_whole(line, kept, st.fence, limit);
        }
        assert forall|i: int| 0 <= i < body.len() - 1 implies #[trigger] body[i] != '\n' by {
            if i < head.len() {
                assert(head[i] == line[i]);
            }
        }
        if rendering::is_fence_line(body) {
            if head.len() >= 3 {
                assert(body.take(3) =~= line.take(3));
            } else {
                assert(body.take(3)[head.len() as int] == '.');
            }
        }
    }
    assert(text::is_line(body));
    lemma_fences_line(b.current, body);
    let next = rendering::split_step(st, line, limit);
    assert(next.current.last() == body.last());
}

/// A cut line has lost at least its last character.
proof fn lemma_prefix_whole(line: Seq<char>, kept: int, fence: Option<Seq<char>>, limit: int)
    requires
        rendering::is_overlong(line, fence, limit),
        kept == rendering::kept_bytes(line, fence, limit),
        line.len() > 0,
    ensures
        text::prefix_within(line, kept).len() < line.len(),
{
    text::lemma_prefix_within(line, kept);
    if text::prefix_within(line, kept).len() == line.len() {
        assert(line.take(line.len() as int) =~= line);
        assert(text::utf8_len(line) <= kept);
        assert(text::utf8_len(line) >= 1);
    }
}

/// Whether every fence line keeps its backticks when it is cut.
pub open spec fn fences_survive(text: Seq<char>, limit: int) -> bool {
    forall|k: int|
        0 <= k < text::lines_inclusive(text).len() && rendering::is_fence_line(
            text::lines_inclusive(text)[k],
        ) ==> rendering::is_fence_line(
            rendering::clipped(
                text::lines_inclusive(text)[k],
                (#[trigger] split_at(text, k, limit)).fence,
                limit,
            ),
        )
}

/// With room for its backticks, no fence line loses them.
pub proof fn lemma_backtick_room(text: Seq<char>, limit: int)
    requires
        rendering::has_backtick_room(text, limit),
    ensures
        fences_survive(text, limit),
{
    let lines = text::lines_inclusive(text);
    assert forall|k: int|
        0 <= k < lines.len() && rendering::is_fence_line(lines[k]) implies rendering::is_fence_line(
        rendering::clipped(lines[k], (#[trigger] split_at(text, k, limit)).fence, limit),
    ) by {
        let line = lines[k];
        let st = split_at(text, k, limit);
        reveal_strlit("```");
        lemma_fence_small(text, k, limit, limit - 11);
        if rendering::is_overlong(line, st.fence, limit) {
            let kept = rendering::kept_bytes(line, st.fence, limit);
            let head = text::prefix_within(line, kept);
            assert(text::utf8_len(line) <= limit - 11);
            assert(kept >= 3);
            lemma_kept_backticks(line, kept);
            let body = head + "...\n"@;
            assert(body.take(3) =~= line.take(3));
        }
    }
}

proof fn lemma_kept_backticks(line: Seq<char>, kept: int)
    requires
        rendering::is_fence_line(line),
        kept >= 3,
    ensures
        text::prefix_within(line, kept).len() >= 3,
        text::prefix_within(line, kept).take(3) == line.take(3),
{
    reveal_strlit("```");
    text::lemma_prefix_within(line, kept);
    let head = text::prefix_within(line, kept);
    assert(line.take(3)[0] == '`' && line.take(3)[1] == '`' && line.take(3)[2] == '`');
    if head.len() < 3 {
        reveal_with_fuel(text::utf8_len, 4);
        assert(text::width('`') == 1);
        assert(line[head.len() as int] == '`');
        assert(text::utf8_len(head) <= 2);
    }
    assert(head.take(3) =~= line.take(3));
}

proof fn lemma_fold_balanced(text: Seq<char>, k: int, limit: int)
    requires
        0 <= k <= text::lines_inclusive(text).len(),
        fences_survive(text, limit),
    ensures
        ({
            let st = split_at(text, k, limit);
            &&& balanced(st)
            &&& fence_is_line(st.fence)
            &&& all_balanced(st.chunks)
            &&& k < text::lines_inclusive(text).len() ==> text::is_block(st.current)
        }),
    decreases k,
{
    let lines = text::lines_inclusive(text);
    if k == 0 {
        assert(text::lines_inclusive(Seq::<char>::empty()) =~= Seq::<Seq<char>>::empty());
    } else {
        lemma_fold_balanced(text, k - 1, limit);
        assert(lines.take(k).drop_last() =~= lines.take(k - 1));
        assert(lines.take(k).last() == lines[k - 1]);
        text::lemma_lines_shape(text, Seq::empty());
        lemma_step_balanced(split_at(text, k - 1, limit), lines[k - 1], limit);
    }
}

/// Every chunk has an even number of fence lines, unless a fence line is cut down
/// to less than its backticks by a limit smaller than the fences themselves.
pub proof fn law_fences_balanced(text: Seq<char>, limit: int)
    requires
        fences_survive(text, limit),
    ensures
        forall|i: int|
            0 <= i < rendering::chunks_of(text, limit).len() ==> fence_lines(
                #[trigger] rendering::chunks_of(text, limit)[i],
            ) % 2 == 0,
{
    let lines = text::lines_inclusive(text);
    lemma_fold_balanced(text, lines.len() as int, limit);
    assert(lines.take(lines.len() as int) =~= lines);
    lemma_flush_balanced(rendering::split_fold(lines, limit));
}

// ---- nothing is lost ----

pub open spec fn visible(s: Seq<char>) -> Seq<char> {
    s.filter(|c: char| !text::is_whitespace(c))
}

pub open spec fn has_no_fences(text: Seq<char>) -> bool {
    forall|k: int|
        0 <= k < text::lines_inclusive(text).len() ==> !rendering::is_fence_line(
            #[trigger] text::lines_inclusive(text)[k],
        )
}

proof fn lemma_visible_concat(a: Seq<char>, b: Seq<char>)
    ensures
        visible(a + b) == visible(a) + visible(b),
{
    Seq::filter_distributes_over_add(a, b, |c: char| !text::is_whitespace(c));
}

proof fn lemma_visible_blank(s: Seq<char>)
    requires
        text::all_whitespace(s),
    ensures
        visible(s) == Seq::<char>::empty(),
    decreases s.len(),
{
    reveal(Seq::filter);
    if s.len() > 0 {
        assert forall|i: int| 0 <= i < s.drop_last().len() implies text::is_whitespace(
            #[trigger] s.drop_last()[i],
        ) by {
            assert(s[i] == s.drop_last()[i]);
        }
        lemma_visible_blank(s.drop_last());
        assert(text::is_whitespace(s[s.len() - 1]));
    }
}

proof fn lemma_flush_visible(st: rendering::Split)
    requires
        st.fence is None,
    ensures
        visible(text::concat(rendering::flushed(st).chunks)) == visible(text::concat(st.chunks)) + visible(
            st.current,
        ),
{
    text::lemma_trim_blank(st.current);
    if text::trim(st.current).len() == 0 {
        lemma_visible_blank(st.current);
        assert(visible(text::concat(st.chunks)) + Seq::<char>::empty() =~= visible(text::concat(st.chunks)));
    } else {
        let next = rendering::flushed(st).chunks;
        assert(st.current + Seq::<char>::empty() =~= st.current);
        assert(next.drop_last() =~= st.chunks);
        lemma_visible_concat(text::concat(st.chunks), st.current);
    }
}

proof fn lemma_fold_visible(lines: Seq<Seq<char>>, limit: int)
    requires
        forall|k: int|
            0 <= k < lines.len() ==> !rendering::is_fence_line(#[trigger] lines[k]) && text::utf8_len(
                lines[k],
            ) <= limit,
    ensures
        ({
            let st = rendering::split_fold(lines, limit);
            &&& st.fence is None
            &&& visible(text::concat(st.chunks)) + visible(st.current) == visible(text::concat(lines))
        }),
    decreases lines.len(),
{
    if lines.len() == 0 {
        lemma_visible_blank(Seq::<char>::empty());
        assert(text::concat(Seq::<Seq<char>>::empty()) =~= Seq::<char>::empty());
        assert(Seq::<char>::empty() + Seq::<char>::empty() =~= Seq::<char>::empty());
    } else {
        let init = lines.drop_last();
        let line = lines.last();
        assert(lines[lines.len() - 1] == line);
        assert forall|k: int| 0 <= k < init.len() implies !rendering::is_fence_line(
            #[trigger] init[k],
        ) && text::utf8_len(init[k]) <= limit by {
            assert(lines[k] == init[k]);
        }
        lemma_fold_visible(init, limit);
        let st = rendering::split_fold(init, limit);
        lemma_step_fence(st, line);
        lemma_flush_visible(st);
        lemma_visible_blank(Seq::<char>::empty());
        let b = rendering::broken(st, line, limit);
        assert(visible(text::concat(b.chunks)) + visible(b.current) =~= visible(text::concat(init)));
        lemma_visible_concat(b.current, line);
        lemma_visible_concat(text::concat(init), line);
        assert(visible(text::concat(b.chunks)) + (visible(b.current) + visible(line)) =~= visible(
            text::concat(init),
        ) + visible(line));
    }
}

/// Where no line is cut and no fence is added, the chunks hold every visible
/// character of the text, in order, and no other.
pub proof fn law_plain_nothing_lost(text: Seq<char>, limit: int)
    requires
        has_no_fences(text),
        forall|k: int|
            0 <= k < text::lines_inclusive(text).len() ==> text::utf8_len(
                #[trigger] text::lines_inclusive(text)[k],
            ) <= limit,
    ensures
        visible(text::concat(rendering::chunks_of(text, limit))) == visible(text),
{
    let lines = text::lines_inclusive(text);
    lemma_fold_visible(lines, limit);
    lemma_flush_visible(rendering::split_fold(lines, limit));
    text::lemma_lines_join(text, Seq::empty());
    assert(Seq::<char>::empty() + text =~= text);
}

/// A chunk taken apart: the fence that is reopened in it, what it holds of the text,
/// and what closes the fence that is open at its end.
pub struct Piece {
    pub opened: Seq<char>,
    pub body: Seq<char>,
    pub closed: Seq<char>,
}

/// Whether no line of the text is cut.
pub open spec fn no_line_cut(text: Seq<char>, limit: int) -> bool {
    forall|k: int|
        0 <= k < text::lines_inclusive(text).len() ==> !rendering::is_overlong(
            text::lines_inclusive(text)[k],
            (#[trigger] split_at(text, k, limit)).fence,
            limit,
        )
}

/// Whether `s` is nothing or one fence line.
pub open spec fn is_reopening(s: Seq<char>) -> bool {
    s.len() == 0 || (rendering::is_fence_line(s) && text::is_line(s) && s.last() == '\n')
}

/// Whether `s` is nothing or closes a fence.
pub open spec fn is_closing(s: Seq<char>) -> bool {
    s.len() == 0 || s == "```"@ || s == seq!['\n'] + "```"@
}

pub open spec fn bodies(pieces: Seq<Piece>) -> Seq<Seq<char>> {
    Seq::new(pieces.len(), |i: int| pieces[i].body)
}

/// Whether each chunk is a fence line or nothing, its piece of the text, and what
/// closes a fence or nothing, where a fence is reopened exactly behind one that was
/// closed.
pub open spec fn are_pieces(pieces: Seq<Piece>, chunks: Seq<Seq<char>>) -> bool {
    &&& pieces.len() == chunks.len()
    &&& forall|i: int|
        0 <= i < pieces.len() ==> {
            &&& chunks[i] == (#[trigger] pieces[i]).opened + pieces[i].body + pieces[i].closed
            &&& is_reopening(pieces[i].opened)
            &&& is_closing(pieces[i].closed)
        }
    &&& pieces.len() > 0 ==> pieces[0].opened.len() == 0
    &&& forall|i: int|
        0 < i < pieces.len() ==> ((#[trigger] pieces[i]).opened.len() > 0 <==> pieces[i - 1].closed.len()
            > 0)
}

/// The pieces of the finished chunks, and the current chunk taken apart.
struct Parts {
    done: Seq<Piece>,
    opened: Seq<char>,
    body: Seq<char>,
}

spec fn breaks(st: rendering::Split, line: Seq<char>, limit: int) -> bool {
    text::utf8_len(st.current) + text::utf8_len(line) + rendering::fence_reserve(st.fence, line)
        > limit
}

/// The pieces once the current chunk is ended.
spec fn ended(parts: Parts, st: rendering::Split) -> Seq<Piece> {
    if text::trim(st.current).len() == 0 {
        parts.done
    } else {
        parts.done.push(
            Piece {
                opened: parts.opened,
                body: parts.body,
                closed: rendering::closing(st.current, st.fence),
            },
        )
    }
}

spec fn parts_at(text: Seq<char>, k: int, limit: int) -> Parts
    decreases k,
{
    if k <= 0 {
        Parts { done: Seq::empty(), opened: Seq::empty(), body: Seq::empty() }
    } else {
        let before = parts_at(text, k - 1, limit);
        let st = split_at(text, k - 1, limit);
        let line = text::lines_inclusive(text)[k - 1];
        if breaks(st, line, limit) {
            Parts { done: ended(before, st), opened: rendering::reopened(st.fence), body: line }
        } else {
            Parts { body: before.body + line, ..before }
        }
    }
}

/// Whether the parts are those of the state, with what the text has up to it.
spec fn parts_fit(parts: Parts, st: rendering::Split, seen: Seq<Seq<char>>) -> bool {
    &&& are_pieces(parts.done, st.chunks)
    &&& st.current == parts.opened + parts.body
    &&& is_reopening(parts.opened)
    &&& parts.opened.len() > 0 <==> (parts.done.len() > 0 && parts.done.last().closed.len() > 0)
    &&& visible(text::concat(bodies(parts.done))) + visible(parts.body) == visible(
        text::concat(seen),
    )
}

/// Ending the current chunk ends its piece.
proof fn lemma_ended(parts: Parts, st: rendering::Split, seen: Seq<Seq<char>>)
    requires
        parts_fit(parts, st, seen),
        text::all_whitespace(st.current) ==> st.fence is None,
    ensures
        are_pieces(ended(parts, st), rendering::flushed(st).chunks),
        visible(text::concat(bodies(ended(parts, st)))) == visible(text::concat(seen)),
        st.fence is Some <==> (ended(parts, st).len() > 0 && ended(parts, st).last().closed.len() > 0),
{
    reveal_strlit("```");
    text::lemma_trim_blank(st.current);
    let pieces = ended(parts, st);
    let chunks = rendering::flushed(st).chunks;
    if text::trim(st.current).len() == 0 {
        // What is dropped is blank: neither a reopened fence nor anything visible.
        if parts.opened.len() > 0 {
            assert(parts.opened.take(3)[0] == '`');
            assert(st.current[0] == '`');
            assert(!text::is_whitespace('`'));
        }
        assert forall|i: int| 0 <= i < parts.body.len() implies text::is_whitespace(
            #[trigger] parts.body[i],
        ) by {
            assert(st.current[parts.opened.len() + i] == parts.body[i]);
        }
        lemma_visible_blank(parts.body);
        assert(visible(text::concat(bodies(parts.done))) + Seq::<char>::empty() =~= visible(
            text::concat(bodies(parts.done)),
        ));
    } else {
        let n = parts.done.len() as int;
        let last = pieces[n];
        assert(chunks[n] == st.current + rendering::closing(st.current, st.fence));
        assert forall|i: int| 0 <= i < pieces.len() implies chunks[i] == (
        #[trigger] pieces[i]).opened + pieces[i].body + pieces[i].closed && is_reopening(
            pieces[i].opened,
        ) && is_closing(pieces[i].closed) by {
            if i < n {
                assert(pieces[i] == parts.done[i]);
                assert(chunks[i] == st.chunks[i]);
            }
        }
        assert forall|i: int| 0 < i < pieces.len() implies ((#[trigger] pieces[i]).opened.len() > 0
            <==> pieces[i - 1].closed.len() > 0) by {
            assert(pieces[i - 1] == parts.done[i - 1]);
            if i < n {
                assert(pieces[i] == parts.done[i]);
            }
        }
        if n > 0 {
            assert(pieces[0] == parts.done[0]);
        }
        assert(bodies(pieces).drop_last() =~= bodies(parts.done));
        assert(bodies(pieces).last() == parts.body);
        lemma_visible_concat(text::concat(bodies(parts.done)), parts.body);
    }
}

proof fn lemma_parts(text: Seq<char>, k: int, limit: int)
    requires
        limit >= 0,
        0 <= k <= text::lines_inclusive(text).len(),
        no_line_cut(text, limit),
    ensures
        parts_fit(
            parts_at(text, k, limit),
            split_at(text, k, limit),
            text::lines_inclusive(text).take(k),
        ),
        fence_is_line(split_at(text, k, limit).fence),
        text::all_whitespace(split_at(text, k, limit).current) ==> split_at(
            text,
            k,
            limit,
        ).fence is None,
    decreases k,
{
    let lines = text::lines_inclusive(text);
    text::lemma_lines_shape(text, Seq::empty());
    assert forall|j: int| 0 <= j < lines.take(k).len() implies (
    #[trigger] lines.take(k)[j]).len() > 0 by {
        assert(text::is_line(text::lines_from(text, Seq::empty())[j]));
    }
    lemma_fold_blank(lines.take(k), limit);
    if k == 0 {
        lemma_visible_blank(Seq::<char>::empty());
        assert(bodies(Seq::<Piece>::empty()) =~= Seq::<Seq<char>>::empty());
        assert(text::concat(Seq::<Seq<char>>::empty()) =~= Seq::<char>::empty());
        assert(lines.take(0) =~= Seq::<Seq<char>>::empty());
        assert(Seq::<char>::empty() + Seq::<char>::empty() =~= Seq::<char>::empty());
    } else {
        lemma_parts(text, k - 1, limit);
        let line = lines[k - 1];
        let seen = lines.take(k - 1);
        let st = split_at(text, k - 1, limit);
        let before = parts_at(text, k - 1, limit);
        let parts = parts_at(text, k, limit);
        let next = split_at(text, k, limit);
        assert(lines.take(k).drop_last() =~= seen);
        assert(lines.take(k).last() == line);
        assert(text::is_line(text::lines_from(text, Seq::empty())[k - 1]));
        assert(!rendering::is_overlong(line, st.fence, limit));
        lemma_fence_after_line(st.fence, line);
        lemma_visible_concat(text::concat(seen), line);
        if breaks(st, line, limit) {
            lemma_ended(before, st, seen);
            if let Some(f) = st.fence {
                reveal_strlit("```");
                let l = f.push('\n');
                assert(l.take(3) =~= f.take(3));
                assert(text::is_line(l));
            }
        } else {
            lemma_visible_concat(before.body, line);
            assert(next.current =~= before.opened + (before.body + line));
            assert(visible(text::concat(bodies(before.done))) + (visible(before.body) + visible(
                line,
            )) =~= visible(text::concat(seen)) + visible(line));
        }
    }
}

/// Where no line is cut, the chunks hold every visible character of the text, in order,
/// and beside them only fence lines that are reopened and what closes them: a fence is
/// reopened at the start of a chunk exactly where it was closed at the end of the one
/// before.
pub proof fn law_nothing_lost(text: Seq<char>, limit: int)
    requires
        no_line_cut(text, limit),
    ensures
        exists|pieces: Seq<Piece>| #[trigger]
            are_pieces(pieces, rendering::chunks_of(text, limit)) && visible(
                text::concat(bodies(pieces)),
            ) == visible(text),
{
    let lines = text::lines_inclusive(text);
    let n = lines.len() as int;
    text::lemma_lines_join(text, Seq::empty());
    assert(Seq::<char>::empty() + text =~= text);
    assert(lines.take(n) =~= lines);
    if n == 0 {
        let none = Seq::<Piece>::empty();
        assert(text::trim(Seq::<char>::empty()).len() == 0);
        assert(bodies(none) =~= lines);
        assert(are_pieces(none, rendering::chunks_of(text, limit)));
    } else {
        assert(!rendering::is_overlong(lines[0], split_at(text, 0, limit).fence, limit));
        lemma_parts(text, n, limit);
        let parts = parts_at(text, n, limit);
        let st = split_at(text, n, limit);
        lemma_ended(parts, st, lines);
        assert(are_pieces(ended(parts, st), rendering::chunks_of(text, limit)));
    }
}

/// A text without fences that fits is its own only chunk; a blank one has none.
pub proof fn law_short_text(text: Seq<char>, limit: int)
    requires
        has_no_fences(text),
        text::utf8_len(text) <= limit,
    ensures
        rendering::chunks_of(text, limit) == if text::trim(text).len() == 0 {
            Seq::<Seq<char>>::empty()
        } else {
            seq![text]
        },
{
    let lines = text::lines_inclusive(text);
    text::lemma_lines_join(text, Seq::empty());
    assert(Seq::<char>::empty() + text =~= text);
    lemma_fold_short(lines, limit);
    assert(text + Seq::<char>::empty() =~= text);
    assert(Seq::<Seq<char>>::empty().push(text) =~= seq![text]);
}

proof fn lemma_fold_short(lines: Seq<Seq<char>>, limit: int)
    requires
        forall|k: int| 0 <= k < lines.len() ==> !rendering::is_fence_line(#[trigger] lines[k]),
        text::utf8_len(text::concat(lines)) <= limit,
    ensures
        rendering::split_fold(lines, limit) == (rendering::Split {
            chunks: Seq::empty(),
            current: text::concat(lines),
            fence: None,
        }),
    decreases lines.len(),
{
    if lines.len() > 0 {
        let init = lines.drop_last();
        let line = lines.last();
        assert(lines[lines.len() - 1] == line);
        assert forall|k: int| 0 <= k < init.len() implies !rendering::is_fence_line(
            #[trigger] init[k],
        ) by {
            assert(lines[k] == init[k]);
        }
        text::lemma_utf8_len_concat(text::concat(init), line);
        lemma_fold_short(init, limit);
        lemma_step_fence(rendering::split_fold(init, limit), line);
    }
}

// ---- one-line texts ----

/// Whether the only whitespace of `s` is the space.
pub open spec fn is_one_line(s: Seq<char>) -> bool {
    forall|i: int| 0 <= i < s.len() ==> #[trigger] s[i] == ' ' || !text::is_whitespace(s[i])
}

spec fn is_word(w: Seq<char>) -> bool {
    forall|i: int| 0 <= i < w.len() ==> !text::is_whitespace(#[trigger] w[i])
}

proof fn lemma_words_plain(s: Seq<char>, cur: Seq<char>)
    requires
        is_word(cur),
    ensures
        forall|k: int|
            0 <= k < text::words_from(s, cur).len() ==> is_word(
                #[trigger] text::words_from(s, cur)[k],
            ),
    decreases s.len(),
{
    if s.len() > 0 {
        if text::is_whitespace(s[0]) {
            lemma_words_plain(s.drop_first(), Seq::empty());
            let rest = text::words_from(s.drop_first(), Seq::empty());
            let all = text::words_from(s, cur);
            let n = all.len() - rest.len();
            assert forall|k: int| 0 <= k < all.len() implies is_word(#[trigger] all[k]) by {
                if k >= n {
                    assert(all[k] == rest[k - n]);
                } else {
                    assert(all[k] == cur);
                }
            }
        } else {
            lemma_words_plain(s.drop_first(), cur.push(s[0]));
            assert(text::words_from(s, cur) == text::words_from(s.drop_first(), cur.push(s[0])));
        }
    } else if cur.len() > 0 {
        assert(text::words_from(s, cur) == seq![cur]);
    } else {
        assert(text::words_from(s, cur).len() == 0);
    }
}

proof fn lemma_join_one_line(parts: Seq<Seq<char>>)
    requires
        forall|k: int| 0 <= k < parts.len() ==> is_one_line(#[trigger] parts[k]),
    ensures
        is_one_line(text::join(parts, " "@)),
    decreases parts.len(),
{
    reveal_strlit(" ");
    if parts.len() == 1 {
        assert(is_one_line(parts[0]));
    } else if parts.len() > 1 {
        let init = parts.drop_last();
        assert forall|k: int| 0 <= k < init.len() implies is_one_line(#[trigger] init[k]) by {
            assert(init[k] == parts[k]);
        }
        lemma_join_one_line(init);
        assert(is_one_line(parts[parts.len() - 1]));
        let a = text::join(init, " "@);
        let all = text::join(parts, " "@);
        assert forall|i: int| 0 <= i < all.len() implies #[trigger] all[i] == ' '
            || !text::is_whitespace(all[i]) by {
            if i < a.len() {
                assert(all[i] == a[i]);
            } else if i > a.len() {
                assert(all[i] == parts.last()[i - a.len() - 1]);
            }
        }
    }
}

/// A preview is one line: whatever whitespace the prompt holds, the preview holds
/// no other than spaces. It starts like the collapsed prompt, has at most `max`
/// characters, and is the whole of a prompt that has no more.
pub proof fn law_preview_is_one_line(prompt: Seq<char>, max: int)
    requires
        max >= 0,
    ensures
        is_one_line(rendering::preview(prompt, max)),
        rendering::preview(prompt, max).len() <= max,
        rendering::preview(prompt, max).is_prefix_of(rendering::collapsed(prompt)),
        rendering::collapsed(prompt).len() <= max ==> rendering::preview(prompt, max)
            == rendering::collapsed(prompt),
{
    let parts = text::words(prompt);
    lemma_words_plain(prompt, Seq::empty());
    assert forall|k: int| 0 <= k < parts.len() implies is_one_line(#[trigger] parts[k]) by {
        assert(is_word(text::words_from(prompt, Seq::empty())[k]));
    }
    lemma_join_one_line(parts);
    let all = rendering::collapsed(prompt);
    let p = rendering::preview(prompt, max);
    assert(p =~= all.take(p.len() as int));
    assert forall|i: int| 0 <= i < p.len() implies #[trigger] p[i] == ' ' || !text::is_whitespace(
        p[i],
    ) by {
        assert(p[i] == all[i]);
    }
}

/// The detail of a tool call is inline code on one line: between its backticks
/// there is neither a backtick nor a line feed.
pub proof fn law_detail_is_inline_code(tool: Seq<char>, state: crate::json::JsonTree)
    ensures
        rendering::detail_of(tool, state) matches Some(d) ==> {
            &&& d.len() >= 2
            &&& d[0] == '`'
            &&& d.last() == '`'
            &&& forall|i: int|
                0 < i < d.len() - 1 ==> (#[trigger] d[i]) != '`' && d[i] != '\n'
        },
{
    if let Some(raw) = rendering::raw_detail(tool, state) {
        reveal_strlit("`");
        reveal_strlit("...");
        let flat = text::replaced(raw, '\n', ' ');
        let line = text::trim(flat);
        text::lemma_trim_start_shape(flat);
        text::lemma_trim_end_shape(text::trim_start(flat));
        text::lemma_prefix_within(line, 120);
        let short = rendering::shortened(raw);
        let off = flat.len() - text::trim_start(flat).len();
        assert forall|i: int| 0 <= i < short.len() implies #[trigger] short[i] != '\n' by {
            if i < line.len() && short[i] == line[i] {
                assert(line[i] == text::trim_start(flat)[i]);
                assert(text::trim_start(flat)[i] == flat[off + i]);
            }
        }
        let d = rendering::detail_of(tool, state)->0;
        assert forall|i: int| 0 < i < d.len() - 1 implies (#[trigger] d[i]) != '`' && d[i]
            != '\n' by {
            assert(d[i] == text::replaced(short, '`', '\'')[i - 1]);
            assert(short[i - 1] != '\n');
        }
    }
}

} // verus!
