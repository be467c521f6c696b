//! Parsing of message suffixes that change delivery semantics.
//!
//! - `. queue` (any of `.!?,;:` + `queue`, with or without a period behind it, or
//!   `queue` on its own final line): deliver after the current run finishes instead
//!   of interrupting it.
//! - `. btw`: fork the session context into a new thread and answer there in
//!   parallel. `btw fix this` is not treated as a btw.
//!
//! The suffix is stripped before the prompt reaches the agent.

use crate::text;
use vstd::prelude::*;
use vstd::string::*;

verus! {

#[derive(Debug, Clone, Copy, PartialEq, Eq, Structural)]
pub enum Delivery {
    /// Plain message: interrupts the current run after a grace period.
    Normal,
    /// Wait for the current run to finish, then send.
    Queue,
    /// Fork context into a new thread and ask there.
    Btw,
}

#[derive(Debug, PartialEq, Eq)]
pub struct ParsedMessage {
    pub delivery: Delivery,
    /// Message text with the suffix stripped.
    pub prompt: String,
}

/// A final `queue`, behind punctuation, on its own line or alone.
pub const QUEUE_PATTERN: &'static str =
    r"(?i)(?:[.!?,;:]|^)\s*queue\.?\s*$|\n\s*queue\.?\s*$";

/// A final `btw`, behind punctuation or on its own line.
pub const BTW_PATTERN: &'static str = r"(?i)[.!?,;:]\s*btw\.?\s*$|\n\s*btw\.?\s*$";

pub open spec fn is_punctuation(c: char) -> bool {
    c == '.' || c == '!' || c == '?' || c == ',' || c == ';' || c == ':'
}

/// What may stand before the keyword: punctuation or a line feed.
pub open spec fn is_mark(c: char) -> bool {
    is_punctuation(c) || c == '\n'
}

/// Whether `s` is `word` in any mix of cases.
pub open spec fn is_word(s: Seq<char>, word: Seq<char>) -> bool {
    &&& s.len() == word.len()
    &&& forall|i: int| 0 <= i < s.len() ==> text::ascii_lower(#[trigger] s[i]) == word[i]
}

/// Whether `s` is the keyword, perhaps with a period, between whitespace.
pub open spec fn is_keyword(s: Seq<char>, word: Seq<char>) -> bool {
    is_word(text::trim(s), word) || is_word(text::trim(s), word.push('.'))
}

/// Whether a suffix with the keyword `word` starts at `i`; `bare` allows the
/// keyword to stand without anything before it.
pub open spec fn suffix_at(s: Seq<char>, word: Seq<char>, bare: bool, i: int) -> bool {
    ||| (0 <= i < s.len() && is_mark(s[i]) && is_keyword(s.skip(i + 1), word))
    ||| (bare && i == 0 && is_keyword(s, word))
}

/// The first position from `i` on where a suffix starts.
pub open spec fn suffix_from(s: Seq<char>, word: Seq<char>, bare: bool, i: int) -> Option<int>
    decreases s.len() - i + 1,
{
    if i > s.len() {
        None
    } else if suffix_at(s, word, bare, i) {
        Some(i)
    } else {
        suffix_from(s, word, bare, i + 1)
    }
}

/// Where the final `queue` of `s` starts.
pub open spec fn queue_start(s: Seq<char>) -> Option<int> {
    suffix_from(s, "queue"@, true, 0)
}

/// Where the final `btw` of `s` starts.
pub open spec fn btw_start(s: Seq<char>) -> Option<int> {
    suffix_from(s, "btw"@, false, 0)
}

/// Where the pattern first matches `s`.
pub open spec fn pattern_start(pattern: Seq<char>, s: Seq<char>) -> Option<int> {
    if pattern == QUEUE_PATTERN@ {
        queue_start(s)
    } else {
        btw_start(s)
    }
}

/// `regex::Regex::new` on one of the two patterns, then `Regex::find` on the text
/// and `Match::start` on what it finds: the byte offset of the leftmost position at
/// which the pattern matches, if there is one. The two patterns compile.
#[verifier::external_body]
fn find_start(pattern: &str, text: &str) -> (r: Option<usize>)
    requires
        pattern@ == QUEUE_PATTERN@ || pattern@ == BTW_PATTERN@,
    ensures
        match r {
            Some(offset) => pattern_start(pattern@, text@) matches Some(i) && offset == text::utf8_len(
                text@.take(i),
            ),
            None => pattern_start(pattern@, text@) is None,
        },
{
    regex::Regex::new(pattern).unwrap().find(text).map(|m| m.start())
}

pub proof fn lemma_suffix_from(s: Seq<char>, word: Seq<char>, bare: bool, i: int)
    requires
        0 <= i,
    ensures
        match suffix_from(s, word, bare, i) {
            Some(k) => i <= k <= s.len() && suffix_at(s, word, bare, k) && forall|j: int|
                i <= j < k ==> !#[trigger] suffix_at(s, word, bare, j),
            None => forall|j: int| i <= j ==> !#[trigger] suffix_at(s, word, bare, j),
        },
    decreases s.len() - i + 1,
{
    if i <= s.len() && !suffix_at(s, word, bare, i) {
        lemma_suffix_from(s, word, bare, i + 1);
    }
}

/// What stands before the suffix, trimmed.
pub open spec fn stripped(s: Seq<char>, start: Option<int>) -> Option<Seq<char>> {
    match start {
        Some(i) => Some(text::trim(s.take(i))),
        None => None,
    }
}

fn strip_match(text: &str, pattern: &str) -> (r: Option<String>)
    requires
        pattern@ == QUEUE_PATTERN@ || pattern@ == BTW_PATTERN@,
    ensures
        text::opt_view(r) == stripped(text@, pattern_start(pattern@, text@)),
{
    match find_start(pattern, text) {
        Some(offset) => {
            let head = text::truncate(text, offset);
            proof {
                lemma_suffix_from(text@, "queue"@, true, 0);
                lemma_suffix_from(text@, "btw"@, false, 0);
                text::lemma_prefix_within_take(text@, pattern_start(pattern@, text@)->0);
            }
            Some(text::trimmed(head.as_str()))
        },
        None => None,
    }
}

/// How a message is delivered, and with which prompt.
pub open spec fn parsed(s: Seq<char>) -> (Delivery, Seq<char>) {
    match stripped(s, queue_start(s)) {
        Some(prompt) if prompt.len() > 0 => (Delivery::Queue, prompt),
        _ => match stripped(s, btw_start(s)) {
            Some(prompt) if prompt.len() > 0 => (Delivery::Btw, prompt),
            _ => (Delivery::Normal, text::trim(s)),
        },
    }
}

/// How `text` asks to be delivered. A suffix without anything before it is
/// ordinary text.
pub fn parse_message(text: &str) -> (r: ParsedMessage)
    ensures
        (r.delivery, r.prompt@) == parsed(text@),
{
    proof {
        lemma_patterns_differ();
    }
    if let Some(prompt) = strip_match(text, QUEUE_PATTERN) {
        if !prompt.as_str().is_empty() {
            return ParsedMessage { delivery: Delivery::Queue, prompt };
        }
    }
    if let Some(prompt) = strip_match(text, BTW_PATTERN) {
        if !prompt.as_str().is_empty() {
            return ParsedMessage { delivery: Delivery::Btw, prompt };
        }
    }
    ParsedMessage { delivery: Delivery::Normal, prompt: text::trimmed(text) }
}

proof fn lemma_patterns_differ()
    ensures
        QUEUE_PATTERN@ != BTW_PATTERN@,
{
    reveal_strlit(r"(?i)(?:[.!?,;:]|^)\s*queue\.?\s*$|\n\s*queue\.?\s*$");
    reveal_strlit(r"(?i)[.!?,;:]\s*btw\.?\s*$|\n\s*btw\.?\s*$");
    assert(QUEUE_PATTERN@[4] == '(');
    assert(BTW_PATTERN@[4] == '[');
}

// ---- what holds of every message ----

/// A prompt never starts or ends with whitespace, a suffix is only taken off where
/// something is left, and an ordinary message keeps its whole text.
pub proof fn law_prompt_is_trimmed(s: Seq<char>)
    ensures
        text::trim(parsed(s).1) == parsed(s).1,
        parsed(s).0 != Delivery::Normal ==> parsed(s).1.len() > 0,
        parsed(s).0 == Delivery::Normal ==> parsed(s).1 == text::trim(s),
{
    text::lemma_trim_ends(s);
    if let Some(i) = queue_start(s) {
        text::lemma_trim_ends(s.take(i));
    }
    if let Some(i) = btw_start(s) {
        text::lemma_trim_ends(s.take(i));
    }
}

/// Without punctuation or a line feed there is no suffix to take off.
pub proof fn law_plain_is_normal(s: Seq<char>)
    requires
        forall|i: int| 0 <= i < s.len() ==> !is_mark(#[trigger] s[i]),
    ensures
        parsed(s) == (Delivery::Normal, text::trim(s)),
{
    lemma_suffix_from(s, "queue"@, true, 0);
    lemma_suffix_from(s, "btw"@, false, 0);
    assert(s.take(0) =~= Seq::<char>::empty());
    text::lemma_trim_blank(Seq::<char>::empty());
}

/// `s` does not end in the keyword `word` if its last two visible characters are
/// those of another keyword.
proof fn lemma_other_keyword(s: Seq<char>, k: Seq<char>, m: int)
    requires
        is_keyword(k, "btw"@),
        k.len() <= s.len(),
        s.skip(s.len() - k.len()) == k,
        0 <= m <= s.len(),
    ensures
        !is_keyword(s.skip(m), "queue"@),
{
    reveal_strlit("queue");
    reveal_strlit("btw");
    let tail = s.skip(m);
    if is_keyword(tail, "queue"@) {
        text::lemma_trim_blank(tail);
        text::lemma_trim_blank(k);
        let (p, q) = text::visible_bounds(tail);
        let (a, b) = text::visible_bounds(k);
        text::lemma_trim_range(tail, p, q);
        text::lemma_trim_range(k, a, b);
        let off = s.len() - k.len();
        assert(tail[q] == s[m + q]);
        assert(k[b] == s[off + b]);
        if m + q > off + b {
            assert(k[m + q - off] == s[m + q]);
        }
        if off + b > m + q {
            assert(tail[off + b - m] == s[off + b]);
        }
        assert(m + q == off + b);
        assert(tail[q - 1] == s[m + q - 1]);
        assert(k[b - 1] == s[off + b - 1]);
        let x = text::trim(tail);
        let y = text::trim(k);
        assert(x[x.len() - 1] == tail[q]);
        assert(x[x.len() - 2] == tail[q - 1]);
        assert(y[y.len() - 1] == k[b]);
        assert(y[y.len() - 2] == k[b - 1]);
        lemma_word_end(x, "queue"@, 'e');
        lemma_word_end(y, "btw"@, 'w');
    }
}

/// How a keyword ends.
proof fn lemma_word_end(s: Seq<char>, word: Seq<char>, c: char)
    requires
        word.len() > 0,
        word.last() == c,
        is_word(s, word) || is_word(s, word.push('.')),
        'a' <= c <= 'z',
    ensures
        s.len() == word.len() ==> text::ascii_lower(s.last()) == c,
        s.len() != word.len() ==> s.len() == word.len() + 1 && s.last() == '.' && text::ascii_lower(
            s[s.len() - 2],
        ) == c,
{
    if is_word(s, word) {
        assert(text::ascii_lower(s[s.len() - 1]) == word[s.len() - 1]);
    } else {
        let w = word.push('.');
        assert(text::ascii_lower(s[s.len() - 1]) == w[s.len() - 1]);
        assert(text::ascii_lower(s[s.len() - 2]) == w[s.len() - 2]);
    }
}

/// Nothing visible may stand between a suffix and its keyword.
proof fn lemma_keyword_alone(x: Seq<char>, k: Seq<char>, word: Seq<char>)
    requires
        word.len() > 0,
        'a' <= word.last() <= 'z',
        is_keyword(k, word),
        is_keyword(x + k, word),
    ensures
        text::all_whitespace(x),
{
    let s = x + k;
    if !text::all_whitespace(x) {
        text::lemma_trim_blank(k);
        let (a, b) = text::visible_bounds(k);
        text::lemma_trim_range(k, a, b);
        let (p, _) = text::visible_bounds(x);
        assert forall|i: int| 0 <= i < p implies text::is_whitespace(#[trigger] s[i]) by {
            assert(s[i] == x[i]);
        }
        let q = x.len() + b;
        assert forall|i: int| q < i < s.len() implies text::is_whitespace(#[trigger] s[i]) by {
            assert(s[i] == k[i - x.len()]);
        }
        assert(s[p] == x[p]);
        assert(s[q] == k[b]);
        text::lemma_trim_range(s, p, q);
        let y = text::trim(s);
        let z = text::trim(k);
        assert(y[y.len() - 1] == s[q]);
        assert(z[z.len() - 1] == k[b]);
        lemma_word_end(y, word, word.last());
        lemma_word_end(z, word, word.last());
    }
}

/// Where the suffix of `t + [c] + k` starts, and what is left of it.
proof fn lemma_suffix_found(t: Seq<char>, c: char, k: Seq<char>, word: Seq<char>, bare: bool)
    requires
        word.len() > 0,
        'a' <= word.last() <= 'z',
        is_mark(c),
        is_keyword(k, word),
        text::trim(t).len() > 0,
        c == '\n' ==> !is_mark(text::trim_end(t).last()),
    ensures
        stripped(t.push(c) + k, suffix_from(t.push(c) + k, word, bare, 0)) == Some(text::trim(t)),
{
    let s = t.push(c) + k;
    let n = t.len() as int;
    lemma_suffix_from(s, word, bare, 0);
    assert(s.skip(n + 1) =~= k);
    assert(s[n] == c);
    assert(suffix_at(s, word, bare, n));
    let i = suffix_from(s, word, bare, 0)->0;
    assert(0 <= i <= n);
    text::lemma_trim_blank(t);
    let (p, q) = text::visible_bounds(t);
    // Nothing visible stands between the suffix and the mark.
    if i < n {
        if is_mark(s[i]) && is_keyword(s.skip(i + 1), word) {
            let x = t.skip(i + 1).push(c);
            assert(s.skip(i + 1) =~= x + k);
            lemma_keyword_alone(x, k, word);
            assert(x[x.len() - 1] == c);
            assert(c == '\n');
            if q > i {
                assert(x[q - i - 1] == t[q]);
            }
            if q == i {
                assert forall|j: int| 0 <= j < t.skip(q + 1).len() implies text::is_whitespace(
                    #[trigger] t.skip(q + 1)[j],
                ) by {
                    assert(t.skip(q + 1)[j] == t[q + 1 + j]);
                }
                text::lemma_trim_end_at(t, q + 1);
                assert(text::trim_end(t).last() == t[q]);
                assert(s[i] == t[q]);
            }
        } else {
            let x = t.push(c);
            lemma_keyword_alone(x, k, word);
            assert(x[p] == t[p]);
        }
    }
    assert(q < i);
    let w = t.skip(i);
    assert forall|j: int| 0 <= j < w.len() implies text::is_whitespace(#[trigger] w[j]) by {
        assert(w[j] == t[i + j]);
    }
    text::lemma_trim_append(t.take(i), w);
    assert(t.take(i) + w =~= t);
    assert(s.take(i) =~= t.take(i));
}

/// `t`, punctuation or a line feed, and a final `queue` in any case, perhaps with a
/// period and whitespace around it, queue what `t` says. Where the keyword stands on
/// a line of its own, `t` does not itself end in punctuation: that would be taken
/// off with the keyword.
pub proof fn law_queue_suffix(t: Seq<char>, c: char, k: Seq<char>)
    requires
        is_mark(c),
        is_keyword(k, "queue"@),
        text::trim(t).len() > 0,
        c == '\n' ==> !is_mark(text::trim_end(t).last()),
    ensures
        parsed(t.push(c) + k) == (Delivery::Queue, text::trim(t)),
{
    reveal_strlit("queue");
    lemma_suffix_found(t, c, k, "queue"@, true);
}

/// The same for a final `btw`.
pub proof fn law_btw_suffix(t: Seq<char>, c: char, k: Seq<char>)
    requires
        is_mark(c),
        is_keyword(k, "btw"@),
        text::trim(t).len() > 0,
        c == '\n' ==> !is_mark(text::trim_end(t).last()),
    ensures
        parsed(t.push(c) + k) == (Delivery::Btw, text::trim(t)),
{
    reveal_strlit("btw");
    let s = t.push(c) + k;
    lemma_suffix_found(t, c, k, "btw"@, false);
    assert(s.skip(s.len() - k.len()) =~= k);
    lemma_suffix_from(s, "queue"@, true, 0);
    assert forall|j: int| 0 <= j implies !#[trigger] suffix_at(s, "queue"@, true, j) by {
        if j < s.len() {
            lemma_other_keyword(s, k, j + 1);
        }
        lemma_other_keyword(s, k, 0);
        assert(s.skip(0) =~= s);
    }
}

/// Whether a character is this letter, small or capital.
pub open spec fn is_letter(c: char, small: char, capital: char) -> bool {
    c == small || c == capital
}

/// Whether `s` is the word `queue` in any mix of cases, perhaps with a period, between
/// whitespace.
pub open spec fn says_queue(s: Seq<char>) -> bool {
    let w = text::trim(s);
    &&& w.len() == 5 || (w.len() == 6 && w[5] == '.')
    &&& is_letter(w[0], 'q', 'Q')
    &&& is_letter(w[1], 'u', 'U')
    &&& is_letter(w[2], 'e', 'E')
    &&& is_letter(w[3], 'u', 'U')
    &&& is_letter(w[4], 'e', 'E')
}

/// The same for `btw`.
pub open spec fn says_btw(s: Seq<char>) -> bool {
    let w = text::trim(s);
    &&& w.len() == 3 || (w.len() == 4 && w[3] == '.')
    &&& is_letter(w[0], 'b', 'B')
    &&& is_letter(w[1], 't', 'T')
    &&& is_letter(w[2], 'w', 'W')
}

/// Whether a character may stand before a suffix.
pub open spec fn is_break(c: char) -> bool {
    c == '.' || c == '!' || c == '?' || c == ',' || c == ';' || c == ':' || c == '\n'
}

/// The keywords are what they look like.
proof fn lemma_keywords(s: Seq<char>)
    ensures
        is_keyword(s, "queue"@) <==> says_queue(s),
        is_keyword(s, "btw"@) <==> says_btw(s),
{
    reveal_strlit("queue");
    reveal_strlit("btw");
    let w = text::trim(s);
    let q = "queue"@;
    let b = "btw"@;
    let qd = q.push('.');
    let bd = b.push('.');
    assert(q.len() == 5 && q[0] == 'q' && q[1] == 'u' && q[2] == 'e' && q[3] == 'u' && q[4] == 'e');
    assert(b.len() == 3 && b[0] == 'b' && b[1] == 't' && b[2] == 'w');
    assert(qd[0] == 'q' && qd[1] == 'u' && qd[2] == 'e' && qd[3] == 'u' && qd[4] == 'e' && qd[5]
        == '.');
    assert(bd[0] == 'b' && bd[1] == 't' && bd[2] == 'w' && bd[3] == '.');
    assert forall|c: char| #![auto]
        (text::ascii_lower(c) == 'q' <==> is_letter(c, 'q', 'Q')) && (text::ascii_lower(c) == 'u'
            <==> is_letter(c, 'u', 'U')) && (text::ascii_lower(c) == 'e' <==> is_letter(c, 'e', 'E'))
            && (text::ascii_lower(c) == 'b' <==> is_letter(c, 'b', 'B')) && (text::ascii_lower(c)
            == 't' <==> is_letter(c, 't', 'T')) && (text::ascii_lower(c) == 'w' <==> is_letter(
            c,
            'w',
            'W',
        )) && (text::ascii_lower(c) == '.' <==> c == '.') by {
    }
    if says_queue(s) {
        if w.len() == 5 {
            assert forall|i: int| 0 <= i < w.len() implies text::ascii_lower(#[trigger] w[i]) == q[i] by {
                assert(i == 0 || i == 1 || i == 2 || i == 3 || i == 4);
            }
            assert(is_word(w, q));
        } else {
            assert forall|i: int| 0 <= i < w.len() implies text::ascii_lower(#[trigger] w[i]) == qd[i] by {
                assert(i == 0 || i == 1 || i == 2 || i == 3 || i == 4 || i == 5);
            }
            assert(is_word(w, qd));
        }
    }
    if says_btw(s) {
        if w.len() == 3 {
            assert forall|i: int| 0 <= i < w.len() implies text::ascii_lower(#[trigger] w[i]) == b[i] by {
                assert(i == 0 || i == 1 || i == 2);
            }
            assert(is_word(w, b));
        } else {
            assert forall|i: int| 0 <= i < w.len() implies text::ascii_lower(#[trigger] w[i]) == bd[i] by {
                assert(i == 0 || i == 1 || i == 2 || i == 3);
            }
            assert(is_word(w, bd));
        }
    }
    if is_keyword(s, q) {
        assert(text::ascii_lower(w[0]) == 'q' && text::ascii_lower(w[1]) == 'u'
            && text::ascii_lower(w[2]) == 'e' && text::ascii_lower(w[3]) == 'u'
            && text::ascii_lower(w[4]) == 'e');
        if w.len() == 6 {
            assert(text::ascii_lower(w[5]) == '.');
        }
    }
    if is_keyword(s, b) {
        assert(text::ascii_lower(w[0]) == 'b' && text::ascii_lower(w[1]) == 't'
            && text::ascii_lower(w[2]) == 'w');
        if w.len() == 4 {
            assert(text::ascii_lower(w[3]) == '.');
        }
    }
}

/// A message is only ever queued, or asked aside, where it ends with the keyword for it
/// behind punctuation or a line feed, and its prompt is all that stands before that,
/// but for the whitespace around it.
pub proof fn law_delivery_needs_keyword(s: Seq<char>)
    ensures
        parsed(s).0 == Delivery::Queue ==> exists|i: int|
            0 <= i < s.len() && is_break(#[trigger] s[i]) && says_queue(s.skip(i + 1)) && parsed(s).1
                == text::trim(s.take(i)),
        parsed(s).0 == Delivery::Btw ==> exists|i: int|
            0 <= i < s.len() && is_break(#[trigger] s[i]) && says_btw(s.skip(i + 1)) && parsed(s).1
                == text::trim(s.take(i)),
{
    lemma_suffix_from(s, "queue"@, true, 0);
    lemma_suffix_from(s, "btw"@, false, 0);
    assert(s.take(0) =~= Seq::<char>::empty());
    text::lemma_trim_blank(Seq::<char>::empty());
    if parsed(s).0 == Delivery::Queue {
        let i = queue_start(s)->0;
        lemma_keywords(s.skip(i + 1));
        assert(i < s.len() && is_break(s[i]));
    }
    if parsed(s).0 == Delivery::Btw {
        let i = btw_start(s)->0;
        lemma_keywords(s.skip(i + 1));
        assert(i < s.len() && is_break(s[i]));
    }
}

} // verus!
