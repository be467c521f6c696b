//! Text as sequences of characters: UTF-8 widths, trimming, splitting, joining and
//! truncation. Everything else in the crate states what it does to text in terms
//! of the spec functions of this module.

use vstd::prelude::*;
use vstd::string::*;
use vstd::utf8::*;

verus! {

/// `String::push` appends one character.
pub assume_specification[ String::push ](s: &mut String, c: char)
    ensures
        final(s)@ == old(s)@.push(c),
;

// ---- characters ----

/// The Unicode `White_Space` property.
pub open spec fn is_whitespace(c: char) -> bool {
    let u = c as u32;
    ||| 0x09 <= u <= 0x0d
    ||| u == 0x20
    ||| u == 0x85
    ||| u == 0xa0
    ||| u == 0x1680
    ||| 0x2000 <= u <= 0x200a
    ||| u == 0x2028
    ||| u == 0x2029
    ||| u == 0x202f
    ||| u == 0x205f
    ||| u == 0x3000
}

pub fn char_is_whitespace(c: char) -> (r: bool)
    ensures
        r == is_whitespace(c),
{
    let u: u32 = c as u32;
    (0x09 <= u && u <= 0x0d) || u == 0x20 || u == 0x85 || u == 0xa0 || u == 0x1680 || (0x2000 <= u
        && u <= 0x200a) || u == 0x2028 || u == 0x2029 || u == 0x202f || u == 0x205f || u == 0x3000
}

/// The lower-case form of an ASCII letter, and anything else unchanged.
pub open spec fn ascii_lower(c: char) -> char {
    if 'A' <= c && c <= 'Z' {
        (c as u32 + 32) as char
    } else {
        c
    }
}

pub open spec fn all_whitespace(s: Seq<char>) -> bool {
    forall|i: int| 0 <= i < s.len() ==> is_whitespace(#[trigger] s[i])
}

/// Number of bytes of the UTF-8 encoding of `c`.
pub open spec fn width(c: char) -> nat {
    let u = c as u32;
    if u < 0x80 {
        1
    } else if u < 0x800 {
        2
    } else if u < 0x10000 {
        3
    } else {
        4
    }
}

pub fn char_width(c: char) -> (r: usize)
    ensures
        r == width(c),
{
    let u: u32 = c as u32;
    if u < 0x80 {
        1
    } else if u < 0x800 {
        2
    } else if u < 0x10000 {
        3
    } else {
        4
    }
}

/// Number of bytes of the UTF-8 encoding of `s`.
pub open spec fn utf8_len(s: Seq<char>) -> nat
    decreases s.len(),
{
    if s.len() == 0 {
        0
    } else {
        width(s[0]) + utf8_len(s.drop_first())
    }
}

pub proof fn lemma_utf8_len_encode(s: Seq<char>)
    ensures
        encode_utf8(s).len() == utf8_len(s),
    decreases s.len(),
{
    if s.len() > 0 {
        lemma_utf8_len_encode(s.drop_first());
        char_is_scalar(s[0]);
    }
}

pub proof fn lemma_utf8_len_concat(a: Seq<char>, b: Seq<char>)
    ensures
        utf8_len(a + b) == utf8_len(a) + utf8_len(b),
    decreases a.len(),
{
    if a.len() == 0 {
        assert(a + b =~= b);
    } else {
        lemma_utf8_len_concat(a.drop_first(), b);
        assert((a + b).drop_first() =~= a.drop_first() + b);
    }
}

pub proof fn lemma_encode_injective(a: Seq<char>, b: Seq<char>)
    ensures
        encode_utf8(a) == encode_utf8(b) ==> a == b,
{
    encode_utf8_decode_utf8(a);
    encode_utf8_decode_utf8(b);
}

/// The byte length of a string slice.
pub fn byte_len(s: &str) -> (r: usize)
    ensures
        r == utf8_len(s@),
{
    proof {
        lemma_utf8_len_encode(s@);
    }
    s.as_bytes().len()
}

// ---- conversions between strings and characters ----

/// The characters of `s`.
pub fn chars_of(s: &str) -> (r: Vec<char>)
    ensures
        r@ == s@,
{
    let mut v: Vec<char> = Vec::new();
    for c in it: s.chars()
        invariant
            it.seq() == s@,
            v@ == s@.take(it.index() as int),
    {
        proof {
            assert(s@.take(it.index() + 1) =~= s@.take(it.index() as int).push(c));
        }
        v.push(c);
    }
    proof {
        assert(s@.take(s@.len() as int) =~= s@);
    }
    v
}

/// The text made of `v[from..to]`.
pub fn text_of(v: &Vec<char>, from: usize, to: usize) -> (r: String)
    requires
        from <= to <= v@.len(),
    ensures
        r@ == v@.subrange(from as int, to as int),
{
    let mut s = String::new();
    let mut i: usize = from;
    while i < to
        invariant
            from <= i <= to <= v@.len(),
            s@ == v@.subrange(from as int, i as int),
        decreases to - i,
    {
        proof {
            assert(v@.subrange(from as int, i + 1) =~= v@.subrange(from as int, i as int).push(
                v@[i as int],
            ));
        }
        s.push(v[i]);
        i = i + 1;
    }
    s
}

/// Equality of the two texts.
pub fn same_text(a: &str, b: &str) -> (r: bool)
    ensures
        r == (a@ == b@),
{
    proof {
        lemma_encode_injective(a@, b@);
    }
    let x = a.as_bytes();
    let y = b.as_bytes();
    if x.len() != y.len() {
        return false;
    }
    let mut i: usize = 0;
    while i < x.len()
        invariant
            i <= x@.len(),
            x@.len() == y@.len(),
            x@ == encode_utf8(a@),
            y@ == encode_utf8(b@),
            forall|j: int| 0 <= j < i ==> x@[j] == y@[j],
        decreases x@.len() - i,
    {
        if x[i] != y[i] {
            return false;
        }
        i = i + 1;
    }
    proof {
        assert(x@ =~= y@);
    }
    true
}

/// The view of an optional string.
pub open spec fn opt_view(o: Option<String>) -> Option<Seq<char>> {
    match o {
        Some(s) => Some(s@),
        None => None,
    }
}

// ---- trimming ----

/// `s` without its leading whitespace.
pub open spec fn trim_start(s: Seq<char>) -> Seq<char>
    decreases s.len(),
{
    if s.len() > 0 && is_whitespace(s[0]) {
        trim_start(s.drop_first())
    } else {
        s
    }
}

/// `s` without its trailing whitespace.
pub open spec fn trim_end(s: Seq<char>) -> Seq<char>
    decreases s.len(),
{
    if s.len() > 0 && is_whitespace(s.last()) {
        trim_end(s.drop_last())
    } else {
        s
    }
}

/// `s` without leading and trailing whitespace.
pub open spec fn trim(s: Seq<char>) -> Seq<char> {
    trim_end(trim_start(s))
}

pub proof fn lemma_trim_start_at(s: Seq<char>, k: int)
    requires
        0 <= k <= s.len(),
        all_whitespace(s.take(k)),
        k == s.len() || !is_whitespace(s[k]),
    ensures
        trim_start(s) == s.skip(k),
    decreases k,
{
    if k == 0 {
        assert(s.skip(0) =~= s);
    } else {
        assert(is_whitespace(s.take(k)[0]));
        assert forall|i: int| 0 <= i < s.drop_first().take(k - 1).len() implies is_whitespace(
            #[trigger] s.drop_first().take(k - 1)[i],
        ) by {
            assert(s.take(k)[i + 1] == s.drop_first().take(k - 1)[i]);
        }
        lemma_trim_start_at(s.drop_first(), k - 1);
        assert(s.drop_first().skip(k - 1) =~= s.skip(k));
    }
}

pub proof fn lemma_trim_end_at(s: Seq<char>, k: int)
    requires
        0 <= k <= s.len(),
        all_whitespace(s.skip(k)),
        k == 0 || !is_whitespace(s[k - 1]),
    ensures
        trim_end(s) == s.take(k),
    decreases s.len() - k,
{
    if k == s.len() {
        assert(s.take(k) =~= s);
    } else {
        assert(is_whitespace(s.skip(k)[s.len() - k - 1]));
        assert forall|i: int| 0 <= i < s.drop_last().skip(k).len() implies is_whitespace(
            #[trigger] s.drop_last().skip(k)[i],
        ) by {
            assert(s.skip(k)[i] == s.drop_last().skip(k)[i]);
        }
        lemma_trim_end_at(s.drop_last(), k);
        assert(s.drop_last().take(k) =~= s.take(k));
    }
}

/// A trimmed text starts and ends with something else than whitespace, and
/// trimming it again changes nothing.
pub proof fn lemma_trim_ends(s: Seq<char>)
    ensures
        trim(s).len() <= s.len(),
        trim(s).len() > 0 ==> !is_whitespace(trim(s)[0]) && !is_whitespace(trim(s).last()),
        trim(trim(s)) == trim(s),
{
    lemma_trim_start_shape(s);
    lemma_trim_end_shape(trim_start(s));
    let t = trim(s);
    if t.len() > 0 {
        assert(t[0] == trim_start(s)[0]);
        assert(trim_start(t) == t);
        assert(trim_end(t) == t);
    }
}

pub proof fn lemma_trim_start_shape(s: Seq<char>)
    ensures
        trim_start(s).len() <= s.len(),
        trim_start(s) == s.skip(s.len() - trim_start(s).len()),
        trim_start(s).len() > 0 ==> !is_whitespace(trim_start(s)[0]),
    decreases s.len(),
{
    if s.len() > 0 && is_whitespace(s[0]) {
        lemma_trim_start_shape(s.drop_first());
        let n = trim_start(s).len();
        assert(s.drop_first().skip(s.drop_first().len() - n) =~= s.skip(s.len() - n));
    } else {
        assert(s.skip(0) =~= s);
    }
}

pub proof fn lemma_trim_end_shape(s: Seq<char>)
    ensures
        trim_end(s).len() <= s.len(),
        trim_end(s) == s.take(trim_end(s).len() as int),
        trim_end(s).len() > 0 ==> !is_whitespace(trim_end(s).last()),
    decreases s.len(),
{
    if s.len() > 0 && is_whitespace(s.last()) {
        lemma_trim_end_shape(s.drop_last());
        let n = trim_end(s).len() as int;
        assert(s.drop_last().take(n) =~= s.take(n));
    } else {
        assert(s.take(s.len() as int) =~= s);
    }
}

/// A text is blank exactly where trimming leaves nothing of it.
pub proof fn lemma_trim_blank(s: Seq<char>)
    ensures
        trim(s).len() == 0 <==> all_whitespace(s),
{
    if all_whitespace(s) {
        assert(s.take(s.len() as int) =~= s);
        lemma_trim_start_at(s, s.len() as int);
    } else {
        let i = choose|i: int| 0 <= i < s.len() && !is_whitespace(#[trigger] s[i]);
        lemma_trim_start_keeps(s, i);
        lemma_trim_start_shape(s);
        lemma_trim_end_keeps(trim_start(s));
    }
}

proof fn lemma_trim_start_keeps(s: Seq<char>, i: int)
    requires
        0 <= i < s.len(),
        !is_whitespace(s[i]),
    ensures
        trim_start(s).len() > 0,
    decreases s.len(),
{
    if is_whitespace(s[0]) {
        lemma_trim_start_keeps(s.drop_first(), i - 1);
    }
}

proof fn lemma_trim_end_keeps(s: Seq<char>)
    requires
        s.len() > 0,
        !is_whitespace(s[0]),
    ensures
        trim_end(s).len() > 0,
    decreases s.len(),
{
    if is_whitespace(s.last()) {
        lemma_trim_end_keeps(s.drop_last());
    }
}

/// Whether `p` and `q` are the first and the last visible character of `s`.
pub open spec fn visible_range(s: Seq<char>, p: int, q: int) -> bool {
    &&& 0 <= p <= q < s.len()
    &&& !is_whitespace(s[p])
    &&& !is_whitespace(s[q])
    &&& forall|i: int| 0 <= i < p ==> is_whitespace(#[trigger] s[i])
    &&& forall|i: int| q < i < s.len() ==> is_whitespace(#[trigger] s[i])
}

/// Trimming leaves what stands between the first and the last visible character.
pub proof fn lemma_trim_range(s: Seq<char>, p: int, q: int)
    requires
        visible_range(s, p, q),
    ensures
        trim(s) == s.subrange(p, q + 1),
{
    assert forall|i: int| 0 <= i < s.take(p).len() implies is_whitespace(
        #[trigger] s.take(p)[i],
    ) by {
        assert(s.take(p)[i] == s[i]);
    }
    lemma_trim_start_at(s, p);
    let t = s.skip(p);
    let n = q + 1 - p;
    assert forall|i: int| 0 <= i < t.skip(n).len() implies is_whitespace(
        #[trigger] t.skip(n)[i],
    ) by {
        assert(t.skip(n)[i] == s[q + 1 + i]);
    }
    assert(t[n - 1] == s[q]);
    lemma_trim_end_at(t, n);
    assert(t.take(n) =~= s.subrange(p, q + 1));
}

/// The first and the last visible character of a text that is not blank.
pub proof fn visible_bounds(s: Seq<char>) -> (r: (int, int))
    requires
        !all_whitespace(s),
    ensures
        visible_range(s, r.0, r.1),
    decreases s.len(),
{
    if is_whitespace(s[0]) {
        let rest = s.drop_first();
        let i = choose|i: int| 0 <= i < s.len() && !is_whitespace(#[trigger] s[i]);
        assert(rest[i - 1] == s[i]);
        let (p, q) = visible_bounds(rest);
        assert forall|j: int| 0 <= j < p + 1 implies is_whitespace(#[trigger] s[j]) by {
            if j > 0 {
                assert(s[j] == rest[j - 1]);
            }
        }
        assert forall|j: int| q + 1 < j < s.len() implies is_whitespace(#[trigger] s[j]) by {
            assert(s[j] == rest[j - 1]);
        }
        (p + 1, q + 1)
    } else {
        (0, last_visible(s))
    }
}

proof fn last_visible(s: Seq<char>) -> (q: int)
    requires
        s.len() > 0,
        !is_whitespace(s[0]),
    ensures
        0 <= q < s.len(),
        !is_whitespace(s[q]),
        forall|i: int| q < i < s.len() ==> is_whitespace(#[trigger] s[i]),
    decreases s.len(),
{
    if is_whitespace(s.last()) {
        let init = s.drop_last();
        let q = last_visible(init);
        assert forall|i: int| q < i < s.len() implies is_whitespace(#[trigger] s[i]) by {
            if i < s.len() - 1 {
                assert(s[i] == init[i]);
            }
        }
        q
    } else {
        s.len() - 1
    }
}

/// Whitespace at the end does not change what trimming leaves.
pub proof fn lemma_trim_append(a: Seq<char>, w: Seq<char>)
    requires
        all_whitespace(w),
    ensures
        trim(a + w) == trim(a),
{
    let s = a + w;
    assert forall|i: int| a.len() <= i < s.len() implies is_whitespace(#[trigger] s[i]) by {
        assert(s[i] == w[i - a.len()]);
    }
    if all_whitespace(a) {
        assert forall|i: int| 0 <= i < s.len() implies is_whitespace(#[trigger] s[i]) by {
            if i < a.len() {
                assert(s[i] == a[i]);
            }
        }
        lemma_trim_blank(a);
        lemma_trim_blank(s);
        assert(trim(s) =~= trim(a));
    } else {
        let (p, q) = visible_bounds(a);
        assert forall|i: int| 0 <= i < p implies is_whitespace(#[trigger] s[i]) by {
            assert(s[i] == a[i]);
        }
        assert forall|i: int| q < i < s.len() implies is_whitespace(#[trigger] s[i]) by {
            if i < a.len() {
                assert(s[i] == a[i]);
            }
        }
        lemma_trim_range(a, p, q);
        lemma_trim_range(s, p, q);
        assert(s.subrange(p, q + 1) =~= a.subrange(p, q + 1));
    }
}

/// The number of leading characters of `v[from..]` that are whitespace, added
/// to `from`.
fn skip_whitespace(v: &Vec<char>, from: usize) -> (r: usize)
    requires
        from <= v@.len(),
    ensures
        from <= r <= v@.len(),
        all_whitespace(v@.subrange(from as int, r as int)),
        r == v@.len() || !is_whitespace(v@[r as int]),
{
    let mut k: usize = from;
    while k < v.len() && char_is_whitespace(v[k])
        invariant
            from <= k <= v@.len(),
            all_whitespace(v@.subrange(from as int, k as int)),
        decreases v@.len() - k,
    {
        k = k + 1;
    }
    k
}

/// The end of `v` once its trailing whitespace is dropped, not before `from`.
fn drop_whitespace(v: &Vec<char>, from: usize) -> (r: usize)
    requires
        from <= v@.len(),
    ensures
        from <= r <= v@.len(),
        all_whitespace(v@.subrange(r as int, v@.len() as int)),
        r == from || !is_whitespace(v@[r - 1]),
{
    let mut k: usize = v.len();
    while k > from && char_is_whitespace(v[k - 1])
        invariant
            from <= k <= v@.len(),
            all_whitespace(v@.subrange(k as int, v@.len() as int)),
        decreases k,
    {
        let ghost tail = v@.subrange(k as int, v@.len() as int);
        k = k - 1;
        proof {
            let longer = v@.subrange(k as int, v@.len() as int);
            assert forall|i: int| 0 <= i < longer.len() implies is_whitespace(
                #[trigger] longer[i],
            ) by {
                if i > 0 {
                    assert(longer[i] == tail[i - 1]);
                }
            }
        }
    }
    k
}

/// `str::trim`.
pub fn trimmed(s: &str) -> (r: String)
    ensures
        r@ == trim(s@),
{
    let v = chars_of(s);
    let from = skip_whitespace(&v, 0);
    let to = drop_whitespace(&v, from);
    proof {
        assert(v@.subrange(0, from as int) =~= v@.take(from as int));
        lemma_trim_start_at(v@, from as int);
        let t = v@.skip(from as int);
        assert(t.skip(to - from) =~= v@.subrange(to as int, v@.len() as int));
        lemma_trim_end_at(t, to - from);
        assert(t.take(to - from) =~= v@.subrange(from as int, to as int));
    }
    text_of(&v, from, to)
}

/// `str::trim_end`.
pub fn trimmed_end(s: &str) -> (r: String)
    ensures
        r@ == trim_end(s@),
{
    let v = chars_of(s);
    let to = drop_whitespace(&v, 0);
    proof {
        assert(v@.skip(to as int) =~= v@.subrange(to as int, v@.len() as int));
        lemma_trim_end_at(v@, to as int);
        assert(v@.take(to as int) =~= v@.subrange(0, to as int));
    }
    text_of(&v, 0, to)
}

// ---- prefixes and suffixes ----

pub open spec fn starts_with(s: Seq<char>, p: Seq<char>) -> bool {
    p.len() <= s.len() && s.take(p.len() as int) == p
}

pub open spec fn ends_with(s: Seq<char>, p: Seq<char>) -> bool {
    p.len() <= s.len() && s.skip(s.len() - p.len()) == p
}

/// What follows the prefix `p` of `s`, if it has that prefix.
pub open spec fn after_prefix(s: Seq<char>, p: Seq<char>) -> Option<Seq<char>> {
    if starts_with(s, p) {
        Some(s.skip(p.len() as int))
    } else {
        None
    }
}

/// `str::starts_with` for a string pattern.
pub fn has_prefix(s: &str, p: &str) -> (r: bool)
    ensures
        r == starts_with(s@, p@),
{
    let v = chars_of(s);
    let w = chars_of(p);
    proof {
        assert(v@.skip(0) =~= v@);
    }
    prefix_at(&v, 0, &w)
}

/// Whether `w` occurs in `v` at `from`.
pub fn prefix_at(v: &Vec<char>, from: usize, w: &Vec<char>) -> (r: bool)
    requires
        from <= v@.len(),
    ensures
        r == starts_with(v@.skip(from as int), w@),
{
    if v.len() - from < w.len() {
        return false;
    }
    let mut i: usize = 0;
    while i < w.len()
        invariant
            i <= w@.len(),
            from + w@.len() <= v.len(),
            forall|j: int| 0 <= j < i ==> v@[from + j] == w@[j],
        decreases w@.len() - i,
    {
        if v[from + i] != w[i] {
            proof {
                let t = v@.skip(from as int).take(w@.len() as int);
                assert(t[i as int] == v@[from + i]);
                assert(t[i as int] != w@[i as int]);
            }
            return false;
        }
        i = i + 1;
    }
    proof {
        assert(v@.skip(from as int).take(w@.len() as int) =~= w@);
    }
    true
}

/// `str::strip_prefix` for a string pattern.
pub fn strip_prefix(s: &str, p: &str) -> (r: Option<String>)
    ensures
        opt_view(r) == after_prefix(s@, p@),
{
    let v = chars_of(s);
    let w = chars_of(p);
    proof {
        assert(v@.skip(0) =~= v@);
    }
    if prefix_at(&v, 0, &w) {
        proof {
            assert(v@.skip(w@.len() as int) =~= v@.subrange(w@.len() as int, v@.len() as int));
        }
        Some(text_of(&v, w.len(), v.len()))
    } else {
        None
    }
}

/// `s` without the characters of `set` at its start.
pub open spec fn trim_start_of(s: Seq<char>, set: Set<char>) -> Seq<char>
    decreases s.len(),
{
    if s.len() > 0 && set.contains(s[0]) {
        trim_start_of(s.drop_first(), set)
    } else {
        s
    }
}

// ---- splitting and joining ----

/// The texts of a sequence of strings.
pub open spec fn texts(v: Seq<String>) -> Seq<Seq<char>> {
    Seq::new(v.len(), |i: int| v[i]@)
}

/// The words of `cur + s`, where `cur` is the part of a word read so far.
pub open spec fn words_from(s: Seq<char>, cur: Seq<char>) -> Seq<Seq<char>>
    decreases s.len(),
{
    let head = if cur.len() == 0 {
        Seq::<Seq<char>>::empty()
    } else {
        seq![cur]
    };
    if s.len() == 0 {
        head
    } else if is_whitespace(s[0]) {
        head + words_from(s.drop_first(), Seq::empty())
    } else {
        words_from(s.drop_first(), cur.push(s[0]))
    }
}

/// The maximal runs of non-whitespace characters of `s`, in order.
pub open spec fn words(s: Seq<char>) -> Seq<Seq<char>> {
    words_from(s, Seq::empty())
}

/// The pieces of `cur + s` between the separators of `s`.
pub open spec fn split_from(s: Seq<char>, sep: char, cur: Seq<char>) -> Seq<Seq<char>>
    decreases s.len(),
{
    if s.len() == 0 {
        seq![cur]
    } else if s[0] == sep {
        seq![cur] + split_from(s.drop_first(), sep, Seq::empty())
    } else {
        split_from(s.drop_first(), sep, cur.push(s[0]))
    }
}

/// The pieces of `s` between its separators; one more than it has separators.
pub open spec fn split(s: Seq<char>, sep: char) -> Seq<Seq<char>> {
    split_from(s, sep, Seq::empty())
}

/// The parts with `sep` between each two of them.
pub open spec fn join(parts: Seq<Seq<char>>, sep: Seq<char>) -> Seq<char>
    decreases parts.len(),
{
    if parts.len() == 0 {
        Seq::empty()
    } else if parts.len() == 1 {
        parts[0]
    } else {
        join(parts.drop_last(), sep) + sep + parts.last()
    }
}

/// `str::split_whitespace`.
pub fn split_words(s: &str) -> (r: Vec<String>)
    ensures
        texts(r@) == words(s@),
{
    let v = chars_of(s);
    let mut out: Vec<String> = Vec::new();
    let mut cur = String::new();
    let mut i: usize = 0;
    proof {
        assert(v@.skip(0) =~= v@);
        assert(texts(out@) + words_from(v@, cur@) =~= words(s@));
    }
    while i < v.len()
        invariant
            i <= v@.len(),
            v@ == s@,
            texts(out@) + words_from(v@.skip(i as int), cur@) == words(s@),
        decreases v@.len() - i,
    {
        proof {
            assert(v@.skip(i as int).drop_first() =~= v@.skip(i + 1));
        }
        if char_is_whitespace(v[i]) {
            if !cur.as_str().is_empty() {
                let ghost before = texts(out@);
                out.push(cur);
                cur = String::new();
                proof {
                    assert(texts(out@) =~= before + seq![out@.last()@]);
                    assert(before + (seq![out@.last()@] + words_from(v@.skip(i + 1), cur@))
                        =~= texts(out@) + words_from(v@.skip(i + 1), cur@));
                }
            } else {
                proof {
                    assert(cur@ =~= Seq::<char>::empty());
                    assert(Seq::<Seq<char>>::empty() + words_from(v@.skip(i + 1), Seq::empty())
                        =~= words_from(v@.skip(i + 1), Seq::empty()));
                }
            }
        } else {
            cur.push(v[i]);
        }
        i = i + 1;
    }
    if !cur.as_str().is_empty() {
        let ghost before = texts(out@);
        out.push(cur);
        proof {
            assert(texts(out@) =~= before + seq![cur@]);
        }
    } else {
        proof {
            assert(texts(out@) =~= texts(out@) + Seq::<Seq<char>>::empty());
        }
    }
    out
}

/// `str::split` for a character.
pub fn split_char(s: &str, sep: char) -> (r: Vec<String>)
    ensures
        texts(r@) == split(s@, sep),
{
    let v = chars_of(s);
    let mut out: Vec<String> = Vec::new();
    let mut cur = String::new();
    let mut i: usize = 0;
    proof {
        assert(v@.skip(0) =~= v@);
        assert(texts(out@) + split_from(v@, sep, cur@) =~= split(s@, sep));
    }
    while i < v.len()
        invariant
            i <= v@.len(),
            v@ == s@,
            texts(out@) + split_from(v@.skip(i as int), sep, cur@) == split(s@, sep),
        decreases v@.len() - i,
    {
        proof {
            assert(v@.skip(i as int).drop_first() =~= v@.skip(i + 1));
        }
        if v[i] == sep {
            let ghost before = texts(out@);
            out.push(cur);
            cur = String::new();
            proof {
                assert(texts(out@) =~= before + seq![out@.last()@]);
                assert(before + (seq![out@.last()@] + split_from(v@.skip(i + 1), sep, cur@))
                    =~= texts(out@) + split_from(v@.skip(i + 1), sep, cur@));
            }
        } else {
            cur.push(v[i]);
        }
        i = i + 1;
    }
    let ghost before = texts(out@);
    out.push(cur);
    proof {
        assert(texts(out@) =~= before + seq![cur@]);
    }
    out
}

/// `[String]::join`.
pub fn join_texts(parts: &Vec<String>, sep: &str) -> (r: String)
    ensures
        r@ == join(texts(parts@), sep@),
{
    let mut s = String::new();
    let mut i: usize = 0;
    let ghost all = texts(parts@);
    proof {
        assert(all.take(0) =~= Seq::<Seq<char>>::empty());
    }
    while i < parts.len()
        invariant
            i <= parts@.len(),
            all == texts(parts@),
            s@ == join(all.take(i as int), sep@),
        decreases parts@.len() - i,
    {
        proof {
            assert(all.take(i + 1).drop_last() =~= all.take(i as int));
            assert(all.take(i + 1).last() == parts@[i as int]@);
        }
        if i > 0 {
            s.append(sep);
        }
        s.append(parts[i].as_str());
        proof {
            if i == 0 {
                assert(s@ =~= parts@[0]@);
            }
        }
        i = i + 1;
    }
    proof {
        assert(all.take(parts@.len() as int) =~= all);
    }
    s
}

// ---- truncation ----

/// The longest prefix of `s` whose UTF-8 encoding has at most `max` bytes.
pub open spec fn prefix_within(s: Seq<char>, max: int) -> Seq<char>
    decreases s.len(),
{
    if s.len() == 0 || width(s[0]) > max {
        Seq::empty()
    } else {
        seq![s[0]] + prefix_within(s.drop_first(), max - width(s[0]))
    }
}

/// `prefix_within` is a prefix, fits, and cannot be extended by the next
/// character.
pub proof fn lemma_prefix_within(s: Seq<char>, max: int)
    ensures
        prefix_within(s, max).len() <= s.len(),
        prefix_within(s, max) == s.take(prefix_within(s, max).len() as int),
        max >= 0 ==> utf8_len(prefix_within(s, max)) <= max,
        prefix_within(s, max).len() < s.len() ==> utf8_len(prefix_within(s, max)) + width(
            s[prefix_within(s, max).len() as int],
        ) > max,
        utf8_len(s) <= max ==> prefix_within(s, max) == s,
    decreases s.len(),
{
    if s.len() == 0 || width(s[0]) > max {
        assert(s.take(0) =~= Seq::<char>::empty());
    } else {
        let rest = s.drop_first();
        lemma_prefix_within(rest, max - width(s[0]));
        let p = prefix_within(rest, max - width(s[0]));
        let q = prefix_within(s, max);
        assert(q.drop_first() =~= p);
        assert(q =~= s.take(q.len() as int));
        if p.len() < rest.len() {
            assert(rest[p.len() as int] == s[q.len() as int]);
        }
        if utf8_len(s) <= max {
            assert(q =~= s);
        }
    }
}

/// The number of characters of `v[from..]` that fit into `max` bytes, added to
/// `from`.
pub fn fitting_end(v: &Vec<char>, from: usize, max: usize) -> (r: usize)
    requires
        from <= v@.len(),
    ensures
        from <= r <= v@.len(),
        v@.subrange(from as int, r as int) == prefix_within(v@.skip(from as int), max as int),
{
    let mut i: usize = from;
    let mut left: usize = max;
    proof {
        assert(v@.subrange(from as int, from as int) + prefix_within(
            v@.skip(from as int),
            left as int,
        ) =~= prefix_within(v@.skip(from as int), max as int));
    }
    while i < v.len() && char_width(v[i]) <= left
        invariant
            from <= i <= v@.len(),
            v@.subrange(from as int, i as int) + prefix_within(v@.skip(i as int), left as int)
                == prefix_within(v@.skip(from as int), max as int),
        decreases v@.len() - i,
    {
        proof {
            let t = v@.skip(i as int);
            let w = width(t[0]);
            assert(t.drop_first() =~= v@.skip(i + 1));
            assert(v@.subrange(from as int, i as int) + (seq![t[0]] + prefix_within(
                v@.skip(i + 1),
                left - w,
            )) =~= v@.subrange(from as int, i + 1) + prefix_within(v@.skip(i + 1), left - w));
        }
        left = left - char_width(v[i]);
        i = i + 1;
    }
    proof {
        assert(prefix_within(v@.skip(i as int), left as int) =~= Seq::<char>::empty());
        assert(v@.subrange(from as int, i as int) =~= v@.subrange(from as int, i as int)
            + Seq::<char>::empty());
    }
    i
}

/// The longest prefix of `s` of at most `max` bytes.
pub fn truncate(s: &str, max: usize) -> (r: String)
    ensures
        r@ == prefix_within(s@, max as int),
{
    let v = chars_of(s);
    let end = fitting_end(&v, 0, max);
    proof {
        assert(v@.skip(0) =~= v@);
    }
    text_of(&v, 0, end)
}

// ---- lines ----

/// The lines of `cur + s`, each with the line feed that ends it.
pub open spec fn lines_from(s: Seq<char>, cur: Seq<char>) -> Seq<Seq<char>>
    decreases s.len(),
{
    if s.len() == 0 {
        if cur.len() == 0 {
            Seq::empty()
        } else {
            seq![cur]
        }
    } else if s[0] == '\n' {
        seq![cur.push('\n')] + lines_from(s.drop_first(), Seq::empty())
    } else {
        lines_from(s.drop_first(), cur.push(s[0]))
    }
}

/// The lines of `s`, each with the line feed that ends it; only the last may
/// lack one.
pub open spec fn lines_inclusive(s: Seq<char>) -> Seq<Seq<char>> {
    lines_from(s, Seq::empty())
}

/// `str::split_inclusive` for the line feed.
pub fn split_lines(s: &str) -> (r: Vec<String>)
    ensures
        texts(r@) == lines_inclusive(s@),
{
    let v = chars_of(s);
    let mut out: Vec<String> = Vec::new();
    let mut cur = String::new();
    let mut i: usize = 0;
    proof {
        assert(v@.skip(0) =~= v@);
        assert(texts(out@) + lines_from(v@, cur@) =~= lines_inclusive(s@));
    }
    while i < v.len()
        invariant
            i <= v@.len(),
            v@ == s@,
            texts(out@) + lines_from(v@.skip(i as int), cur@) == lines_inclusive(s@),
        decreases v@.len() - i,
    {
        proof {
            assert(v@.skip(i as int).drop_first() =~= v@.skip(i + 1));
        }
        cur.push(v[i]);
        if v[i] == '\n' {
            let ghost before = texts(out@);
            out.push(cur);
            cur = String::new();
            proof {
                assert(texts(out@) =~= before + seq![out@.last()@]);
                assert(before + (seq![out@.last()@] + lines_from(v@.skip(i + 1), cur@))
                    =~= texts(out@) + lines_from(v@.skip(i + 1), cur@));
            }
        }
        i = i + 1;
    }
    if !cur.as_str().is_empty() {
        let ghost before = texts(out@);
        out.push(cur);
        proof {
            assert(texts(out@) =~= before + seq![cur@]);
        }
    } else {
        proof {
            assert(texts(out@) =~= texts(out@) + Seq::<Seq<char>>::empty());
        }
    }
    out
}

/// Whether `s` is one line: at most one line feed, at its end.
pub open spec fn is_line(s: Seq<char>) -> bool {
    &&& s.len() > 0
    &&& forall|i: int| 0 <= i < s.len() - 1 ==> #[trigger] s[i] != '\n'
}

/// Whether `s` is the concatenation of complete lines.
pub open spec fn is_block(s: Seq<char>) -> bool {
    s.len() == 0 || s.last() == '\n'
}

/// Every line of a text is a line, and all but the last end with a line feed.
pub proof fn lemma_lines_shape(s: Seq<char>, cur: Seq<char>)
    requires
        forall|i: int| 0 <= i < cur.len() ==> #[trigger] cur[i] != '\n',
    ensures
        forall|k: int|
            0 <= k < lines_from(s, cur).len() ==> is_line(#[trigger] lines_from(s, cur)[k]),
        forall|k: int|
            0 <= k < lines_from(s, cur).len() - 1 ==> (#[trigger] lines_from(s, cur)[k]).last()
                == '\n',
        cur.len() + s.len() > 0 ==> lines_from(s, cur).len() > 0,
    decreases s.len(),
{
    if s.len() > 0 {
        if s[0] == '\n' {
            lemma_lines_shape(s.drop_first(), Seq::empty());
            let rest = lines_from(s.drop_first(), Seq::empty());
            let all = lines_from(s, cur);
            assert forall|k: int| 0 <= k < all.len() implies is_line(#[trigger] all[k]) by {
                if k > 0 {
                    assert(all[k] == rest[k - 1]);
                }
            }
            assert forall|k: int| 0 <= k < all.len() - 1 implies (#[trigger] all[k]).last()
                == '\n' by {
                if k > 0 {
                    assert(all[k] == rest[k - 1]);
                }
            }
        } else {
            lemma_lines_shape(s.drop_first(), cur.push(s[0]));
        }
    }
}

/// The lines of complete lines followed by more text.
pub proof fn lemma_lines_concat(a: Seq<char>, b: Seq<char>, cur: Seq<char>)
    requires
        a.len() == 0 ==> cur.len() == 0,
        a.len() > 0 ==> a.last() == '\n',
    ensures
        lines_from(a + b, cur) == lines_from(a, cur) + lines_inclusive(b),
    decreases a.len(),
{
    if a.len() == 0 {
        assert(a + b =~= b);
        assert(cur =~= Seq::<char>::empty());
        assert(lines_from(a, cur) + lines_inclusive(b) =~= lines_inclusive(b));
    } else {
        assert((a + b).drop_first() =~= a.drop_first() + b);
        if a[0] == '\n' {
            lemma_lines_concat(a.drop_first(), b, Seq::empty());
            assert(lines_from(a + b, cur) =~= lines_from(a, cur) + lines_inclusive(b));
        } else {
            lemma_lines_concat(a.drop_first(), b, cur.push(a[0]));
        }
    }
}

/// One line has itself as its only line.
pub proof fn lemma_lines_single(s: Seq<char>, cur: Seq<char>)
    requires
        s.len() > 0,
        forall|i: int| 0 <= i < s.len() - 1 ==> #[trigger] s[i] != '\n',
    ensures
        lines_from(s, cur) == seq![cur + s],
    decreases s.len(),
{
    reveal_with_fuel(lines_from, 2);
    let rest = s.drop_first();
    if s.len() == 1 {
        assert(rest =~= Seq::<char>::empty());
        assert(cur.push(s[0]) =~= cur + s);
        assert(lines_from(s, cur) =~= seq![cur + s]);
    } else {
        lemma_lines_single(rest, cur.push(s[0]));
        assert(cur.push(s[0]) + rest =~= cur + s);
    }
}

/// The lines of a text, joined, are the text.
pub open spec fn concat(parts: Seq<Seq<char>>) -> Seq<char>
    decreases parts.len(),
{
    if parts.len() == 0 {
        Seq::empty()
    } else {
        concat(parts.drop_last()) + parts.last()
    }
}

pub proof fn lemma_concat_split(a: Seq<Seq<char>>, b: Seq<Seq<char>>)
    ensures
        concat(a + b) == concat(a) + concat(b),
    decreases b.len(),
{
    if b.len() == 0 {
        assert(a + b =~= a);
        assert(concat(a) + concat(b) =~= concat(a));
    } else {
        lemma_concat_split(a, b.drop_last());
        assert((a + b).drop_last() =~= a + b.drop_last());
        assert(concat(a + b) =~= concat(a) + concat(b));
    }
}

pub proof fn lemma_lines_join(s: Seq<char>, cur: Seq<char>)
    ensures
        concat(lines_from(s, cur)) == cur + s,
    decreases s.len(),
{
    reveal_with_fuel(concat, 2);
    if s.len() == 0 {
        assert(cur + s =~= cur);
        assert(concat(Seq::<Seq<char>>::empty()) =~= Seq::<char>::empty());
        assert(seq![cur].drop_last() =~= Seq::<Seq<char>>::empty());
        assert(concat(seq![cur]) =~= cur);
        if cur.len() == 0 {
            assert(cur =~= Seq::<char>::empty());
        }
    } else if s[0] == '\n' {
        lemma_lines_join(s.drop_first(), Seq::empty());
        let head = seq![cur.push('\n')];
        lemma_concat_split(head, lines_from(s.drop_first(), Seq::empty()));
        assert(head.drop_last() =~= Seq::<Seq<char>>::empty());
        assert(concat(head) =~= cur.push('\n'));
        assert(cur.push('\n') + (Seq::<char>::empty() + s.drop_first()) =~= cur + s);
    } else {
        lemma_lines_join(s.drop_first(), cur.push(s[0]));
        assert(cur.push(s[0]) + s.drop_first() =~= cur + s);
    }
}

// ---- replacing and searching ----

/// `s` with every `from` turned into `to`.
pub open spec fn replaced(s: Seq<char>, from: char, to: char) -> Seq<char> {
    Seq::new(
        s.len(),
        |i: int|
            if s[i] == from {
                to
            } else {
                s[i]
            },
    )
}

/// `str::replace` of a character by a character.
pub fn replace_char(s: &str, from: char, to: char) -> (r: String)
    ensures
        r@ == replaced(s@, from, to),
{
    let v = chars_of(s);
    let mut out = String::new();
    let mut i: usize = 0;
    while i < v.len()
        invariant
            i <= v@.len(),
            v@ == s@,
            out@ == replaced(s@, from, to).take(i as int),
        decreases v@.len() - i,
    {
        let c = if v[i] == from {
            to
        } else {
            v[i]
        };
        out.push(c);
        proof {
            assert(replaced(s@, from, to).take(i as int).push(c) =~= replaced(s@, from, to).take(
                i + 1,
            ));
        }
        i = i + 1;
    }
    proof {
        assert(replaced(s@, from, to).take(v@.len() as int) =~= replaced(s@, from, to));
    }
    out
}

/// `str::contains` for a character.
pub fn contains_char(s: &str, c: char) -> (r: bool)
    ensures
        r == s@.contains(c),
{
    let v = chars_of(s);
    let mut i: usize = 0;
    while i < v.len()
        invariant
            i <= v@.len(),
            v@ == s@,
            forall|j: int| 0 <= j < i ==> v@[j] != c,
        decreases v@.len() - i,
    {
        if v[i] == c {
            return true;
        }
        i = i + 1;
    }
    false
}

/// A prefix is the longest that fits into its own number of bytes.
pub proof fn lemma_prefix_within_take(s: Seq<char>, i: int)
    requires
        0 <= i <= s.len(),
    ensures
        prefix_within(s, utf8_len(s.take(i)) as int) == s.take(i),
    decreases s.len(),
{
    if i == 0 {
        assert(s.take(0) =~= Seq::<char>::empty());
    } else {
        lemma_prefix_within_take(s.drop_first(), i - 1);
        assert(s.take(i).drop_first() =~= s.drop_first().take(i - 1));
        assert(seq![s[0]] + s.drop_first().take(i - 1) =~= s.take(i));
    }
}

/// `str::trim_start_matches` for two characters.
pub fn trim_leading(s: &str, a: char, b: char) -> (r: String)
    ensures
        r@ == trim_start_of(s@, set![a, b]),
{
    let v = chars_of(s);
    let mut i: usize = 0;
    proof {
        assert(v@.skip(0) =~= v@);
    }
    while i < v.len() && (v[i] == a || v[i] == b)
        invariant
            i <= v@.len(),
            v@ == s@,
            trim_start_of(v@.skip(i as int), set![a, b]) == trim_start_of(s@, set![a, b]),
        decreases v@.len() - i,
    {
        proof {
            assert(v@.skip(i as int).drop_first() =~= v@.skip(i + 1));
        }
        i = i + 1;
    }
    proof {
        assert(v@.skip(i as int) =~= v@.subrange(i as int, v@.len() as int));
    }
    text_of(&v, i, v.len())
}

// ---- quoting ----

/// A text in quotes, with what is not printable escaped.
pub uninterp spec fn quoted(s: Seq<char>) -> Seq<char>;

/// Whether quoting has nothing to escape: printable ASCII without quotes and
/// backslashes.
pub open spec fn is_plain(s: Seq<char>) -> bool {
    forall|i: int|
        0 <= i < s.len() ==> ' ' <= #[trigger] s[i] && s[i] <= '~' && s[i] != '"' && s[i] != '\\'
            && s[i] != '\''
}

/// The `Debug` form of `str`: the text between double quotes, escaped by the rules of
/// `char::escape_debug`, which leave printable ASCII but quotes and backslashes alone.
#[verifier::external_body]
pub(crate) fn quote(s: &str) -> (r: String)
    ensures
        r@ == quoted(s@),
        is_plain(s@) ==> r@ == seq!['"'] + s@ + seq!['"'],
{
    format!("{:?}", s)
}

pub open spec fn quoted_all(parts: Seq<Seq<char>>) -> Seq<Seq<char>> {
    Seq::new(parts.len(), |i: int| quoted(parts[i]))
}

/// The `Debug` form of a list of texts.
pub open spec fn quoted_list(parts: Seq<Seq<char>>) -> Seq<char> {
    "["@ + join(quoted_all(parts), ", "@) + "]"@
}

/// The texts in quotes, separated by commas, in square brackets.
pub fn quote_list(parts: &Vec<String>) -> (r: String)
    ensures
        r@ == quoted_list(texts(parts@)),
{
    let mut out: Vec<String> = Vec::new();
    let mut i: usize = 0;
    let ghost all = quoted_all(texts(parts@));
    while i < parts.len()
        invariant
            i <= parts@.len(),
            all == quoted_all(texts(parts@)),
            texts(out@) == all.take(i as int),
        decreases parts@.len() - i,
    {
        let ghost before = texts(out@);
        out.push(quote(parts[i].as_str()));
        proof {
            assert(texts(out@) =~= before.push(out@.last()@));
            assert(all.take(i + 1) =~= all.take(i as int).push(all[i as int]));
        }
        i = i + 1;
    }
    proof {
        assert(all.take(parts@.len() as int) =~= all);
    }
    "[".to_owned().concat(join_texts(&out, ", ").as_str()).concat("]")
}

// ---- lines without their ends ----

/// A line without its line feed and the carriage return before it.
pub open spec fn line_body(line: Seq<char>) -> Seq<char> {
    if line.len() > 0 && line.last() == '\n' {
        let l = line.drop_last();
        if l.len() > 0 && l.last() == '\r' {
            l.drop_last()
        } else {
            l
        }
    } else {
        line
    }
}

/// The lines of `s` without their ends.
pub open spec fn lines(s: Seq<char>) -> Seq<Seq<char>> {
    lines_inclusive(s).map_values(|l: Seq<char>| line_body(l))
}

fn body_of(line: &str) -> (r: String)
    ensures
        r@ == line_body(line@),
{
    let v = chars_of(line);
    let mut end: usize = v.len();
    if end > 0 && v[end - 1] == '\n' {
        end = end - 1;
        if end > 0 && v[end - 1] == '\r' {
            end = end - 1;
        }
    }
    proof {
        assert(v@.subrange(0, end as int) =~= line_body(line@));
    }
    text_of(&v, 0, end)
}

/// `str::lines`.
pub fn text_lines(s: &str) -> (r: Vec<String>)
    ensures
        texts(r@) == lines(s@),
{
    let raw = split_lines(s);
    let mut out: Vec<String> = Vec::new();
    let mut i: usize = 0;
    while i < raw.len()
        invariant
            i <= raw@.len(),
            texts(raw@) == lines_inclusive(s@),
            texts(out@) == lines(s@).take(i as int),
        decreases raw@.len() - i,
    {
        let ghost before = texts(out@);
        proof {
            assert(texts(raw@)[i as int] == raw@[i as int]@);
        }
        out.push(body_of(raw[i].as_str()));
        proof {
            assert(texts(out@) =~= before.push(out@.last()@));
            assert(lines(s@).take(i + 1) =~= lines(s@).take(i as int).push(lines(s@)[i as int]));
        }
        i = i + 1;
    }
    proof {
        assert(lines(s@).take(raw@.len() as int) =~= lines(s@));
    }
    out
}

/// `s` without any number of `p` at its start.
pub open spec fn trim_start_matches(s: Seq<char>, p: Seq<char>) -> Seq<char>
    decreases s.len(),
{
    if p.len() > 0 && starts_with(s, p) {
        trim_start_matches(s.skip(p.len() as int), p)
    } else {
        s
    }
}

/// `str::trim_start_matches` for a string pattern that is not empty.
pub fn trim_prefixes(s: &str, p: &str) -> (r: String)
    requires
        p@.len() > 0,
    ensures
        r@ == trim_start_matches(s@, p@),
{
    let mut cur = s.to_owned();
    loop
        invariant
            p@.len() > 0,
            trim_start_matches(cur@, p@) == trim_start_matches(s@, p@),
        decreases cur@.len(),
    {
        match strip_prefix(cur.as_str(), p) {
            Some(rest) => {
                cur = rest;
            },
            None => {
                return cur;
            },
        }
    }
}

// ---- bytes ----

/// The text of some bytes, with what is not UTF-8 replaced.
pub uninterp spec fn lossy(bytes: Seq<u8>) -> Seq<char>;

/// `String::from_utf8_lossy`: the text that the bytes encode; bytes that are not
/// UTF-8 are replaced.
#[verifier::external_body]
pub(crate) fn decode_lossy(bytes: &Vec<u8>) -> (r: String)
    ensures
        r@ == lossy(bytes@),
        valid_utf8(bytes@) ==> r@ == decode_utf8(bytes@),
{
    String::from_utf8_lossy(bytes).into_owned()
}

} // verus!
