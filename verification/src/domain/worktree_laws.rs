//! What holds of every worktree name, title and directory.

use crate::domain::worktree;
use crate::numbers;
use crate::paths;
use crate::text;
use vstd::prelude::*;
use vstd::string::*;

verus! {

/// Whether `w` is a word of a slug.
pub open spec fn is_word(w: Seq<char>) -> bool {
    &&& w.len() > 0
    &&& forall|i: int| 0 <= i < w.len() ==> worktree::is_slug_char(#[trigger] w[i])
}

pub open spec fn all_words(parts: Seq<Seq<char>>) -> bool {
    forall|k: int| 0 <= k < parts.len() ==> is_word(#[trigger] parts[k])
}

proof fn lemma_words_are_words(s: Seq<char>, cur: Seq<char>)
    requires
        cur.len() == 0 || is_word(cur),
    ensures
        all_words(worktree::slug_words_from(s, cur)),
    decreases s.len(),
{
    let all = worktree::slug_words_from(s, cur);
    if s.len() > 0 {
        if worktree::is_slug_char(s[0]) {
            lemma_words_are_words(s.drop_first(), cur.push(s[0]));
            assert(all == worktree::slug_words_from(s.drop_first(), cur.push(s[0])));
        } else if !worktree::is_gap(s[0]) {
            lemma_words_are_words(s.drop_first(), cur);
            assert(all == worktree::slug_words_from(s.drop_first(), cur));
        } else {
            lemma_words_are_words(s.drop_first(), Seq::empty());
            let rest = worktree::slug_words_from(s.drop_first(), Seq::empty());
            let n = all.len() - rest.len();
            assert forall|k: int| 0 <= k < all.len() implies is_word(#[trigger] all[k]) by {
                if k >= n {
                    assert(all[k] == rest[k - n]);
                } else {
                    assert(all[k] == cur);
                }
            }
        }
    } else if cur.len() > 0 {
        assert(all == seq![cur]);
    } else {
        assert(all.len() == 0);
    }
}

proof fn lemma_join_is_slug(parts: Seq<Seq<char>>)
    requires
        all_words(parts),
    ensures
        worktree::is_slug(text::join(parts, "-"@)),
        parts.len() > 0 ==> text::join(parts, "-"@).len() > 0,
    decreases parts.len(),
{
    reveal_strlit("-");
    let s = text::join(parts, "-"@);
    if parts.len() == 1 {
        assert(is_word(parts[0]));
        assert(s == parts[0]);
        assert forall|i: int| 0 < i < s.len() && s[i] == '-' implies #[trigger] s[i - 1] != '-' by {
            assert(worktree::is_slug_char(s[i]));
        }
    } else if parts.len() > 1 {
        let init = parts.drop_last();
        assert forall|k: int| 0 <= k < init.len() implies is_word(#[trigger] init[k]) by {
            assert(init[k] == parts[k]);
        }
        lemma_join_is_slug(init);
        let a = text::join(init, "-"@);
        let b = parts.last();
        assert(is_word(parts[parts.len() - 1]));
        assert(a.len() > 0);
        assert forall|i: int| 0 <= i < s.len() implies worktree::is_slug_char(#[trigger] s[i])
            || s[i] == '-' by {
            if i < a.len() {
                assert(s[i] == a[i]);
            } else if i > a.len() {
                assert(s[i] == b[i - a.len() - 1]);
            }
        }
        assert(s[0] == a[0]);
        assert(s.last() == b.last());
        assert(worktree::is_slug_char(b[b.len() - 1]));
        assert forall|i: int| 0 < i < s.len() && s[i] == '-' implies #[trigger] s[i - 1] != '-' by {
            if i < a.len() {
                assert(s[i] == a[i] && s[i - 1] == a[i - 1]);
            } else if i == a.len() {
                assert(s[i - 1] == a.last());
            } else {
                assert(s[i] == b[i - a.len() - 1]);
                assert(worktree::is_slug_char(b[i - a.len() - 1]));
            }
        }
    }
}

/// A slug holds [a-z0-9] and single dashes between them, and nothing else.
pub proof fn law_slug_shape(s: Seq<char>)
    ensures
        worktree::is_slug(worktree::slug_of(s)),
{
    lemma_words_are_words(s, Seq::empty());
    lemma_join_is_slug(worktree::slug_words(s));
}

pub proof fn lemma_filter_same(s: Seq<char>, p: spec_fn(char) -> bool, q: spec_fn(char) -> bool)
    requires
        forall|i: int| 0 <= i < s.len() ==> p(#[trigger] s[i]) == q(s[i]),
    ensures
        s.filter(p) == s.filter(q),
    decreases s.len(),
{
    reveal(Seq::filter);
    if s.len() > 0 {
        assert forall|i: int| 0 <= i < s.drop_last().len() implies p(
            #[trigger] s.drop_last()[i],
        ) == q(s.drop_last()[i]) by {
            assert(s[i] == s.drop_last()[i]);
        }
        lemma_filter_same(s.drop_last(), p, q);
        assert(p(s[s.len() - 1]) == q(s[s.len() - 1]));
    }
}

/// The words of a text hold its slug characters, in order.
proof fn lemma_words_keep(s: Seq<char>, cur: Seq<char>)
    ensures
        text::concat(worktree::slug_words_from(s, cur)) == cur + s.filter(
            |c: char| worktree::is_slug_char(c),
        ),
    decreases s.len(),
{
    let keep = |c: char| worktree::is_slug_char(c);
    let all = worktree::slug_words_from(s, cur);
    reveal(Seq::filter);
    if s.len() == 0 {
        if cur.len() > 0 {
            lemma_concat_front(cur, Seq::empty());
            assert(seq![cur] + Seq::<Seq<char>>::empty() =~= seq![cur]);
        }
        assert(s.filter(keep) =~= Seq::<char>::empty());
        assert(all.len() == 0 ==> text::concat(all) == Seq::<char>::empty());
        assert(cur + Seq::<char>::empty() =~= cur);
    } else {
        let tail = s.drop_first();
        assert(seq![s[0]] + tail =~= s);
        Seq::filter_distributes_over_add(seq![s[0]], tail, keep);
        assert(seq![s[0]].drop_last() =~= Seq::<char>::empty());
        assert(seq![s[0]].last() == s[0]);
        assert(Seq::<char>::empty().filter(keep) =~= Seq::<char>::empty());
        assert(seq![s[0]].filter(keep) =~= if keep(s[0]) {
            seq![s[0]]
        } else {
            Seq::<char>::empty()
        });
        if keep(s[0]) {
            lemma_words_keep(tail, cur.push(s[0]));
            assert(cur.push(s[0]) + tail.filter(keep) =~= cur + (seq![s[0]] + tail.filter(keep)));
        } else if worktree::is_gap(s[0]) {
            lemma_words_keep(tail, Seq::empty());
            let rest = worktree::slug_words_from(tail, Seq::empty());
            if cur.len() > 0 {
                lemma_concat_front(cur, rest);
                assert(all == seq![cur] + rest);
            } else {
                assert(all =~= rest);
            }
            assert(text::concat(all) =~= cur + s.filter(keep));
        } else {
            lemma_words_keep(tail, cur);
            assert(Seq::<char>::empty() + tail.filter(keep) =~= tail.filter(keep));
        }
    }
}

proof fn lemma_concat_front(first: Seq<char>, rest: Seq<Seq<char>>)
    ensures
        text::concat(seq![first] + rest) == first + text::concat(rest),
    decreases rest.len(),
{
    let all = seq![first] + rest;
    reveal_with_fuel(text::concat, 2);
    if rest.len() == 0 {
        assert(all.drop_last() =~= Seq::<Seq<char>>::empty());
        assert(text::concat(all) =~= first + text::concat(rest));
    } else {
        lemma_concat_front(first, rest.drop_last());
        assert(all.drop_last() =~= seq![first] + rest.drop_last());
        assert(all.last() == rest.last());
        assert(text::concat(all) =~= first + text::concat(rest));
    }
}

/// Without its dashes, a join of words is their concatenation.
proof fn lemma_join_keeps(parts: Seq<Seq<char>>)
    requires
        all_words(parts),
    ensures
        text::join(parts, "-"@).filter(|c: char| c != '-') == text::concat(parts),
    decreases parts.len(),
{
    let keep = |c: char| c != '-';
    reveal_strlit("-");
    reveal(Seq::filter);
    if parts.len() > 0 {
        let init = parts.drop_last();
        let b = parts.last();
        assert(is_word(parts[parts.len() - 1]));
        assert forall|k: int| 0 <= k < init.len() implies is_word(#[trigger] init[k]) by {
            assert(init[k] == parts[k]);
        }
        lemma_join_keeps(init);
        lemma_filter_all(b, keep);
        if parts.len() == 1 {
            assert(init =~= Seq::<Seq<char>>::empty());
            assert(Seq::<char>::empty() + b =~= b);
        } else {
            let a = text::join(init, "-"@);
            Seq::filter_distributes_over_add(a + "-"@, b, keep);
            Seq::filter_distributes_over_add(a, "-"@, keep);
            assert("-"@.drop_last() =~= Seq::<char>::empty());
            assert(Seq::<char>::empty().filter(keep) =~= Seq::<char>::empty());
            assert("-"@.filter(keep) =~= Seq::<char>::empty());
            assert(text::join(parts, "-"@) =~= a + "-"@ + b);
            assert(a.filter(keep) + Seq::<char>::empty() =~= a.filter(keep));
        }
    }
}

proof fn lemma_filter_all(s: Seq<char>, p: spec_fn(char) -> bool)
    requires
        forall|i: int| 0 <= i < s.len() ==> p(#[trigger] s[i]),
    ensures
        s.filter(p) == s,
    decreases s.len(),
{
    reveal(Seq::filter);
    if s.len() > 0 {
        assert forall|i: int| 0 <= i < s.drop_last().len() implies p(
            #[trigger] s.drop_last()[i],
        ) by {
            assert(s[i] == s.drop_last()[i]);
        }
        lemma_filter_all(s.drop_last(), p);
        assert(p(s[s.len() - 1]));
        assert(s.drop_last().push(s.last()) =~= s);
    }
}

/// Without its dashes, a slug is the text without all but [a-z0-9], in order; it is
/// empty exactly where the text has none of these.
pub proof fn law_slug_keeps_letters(s: Seq<char>)
    ensures
        worktree::slug_of(s).filter(|c: char| c != '-') == s.filter(
            |c: char| worktree::is_slug_char(c),
        ),
        worktree::slug_of(s).len() == 0 <==> forall|i: int|
            0 <= i < s.len() ==> !worktree::is_slug_char(#[trigger] s[i]),
{
    let keep = |c: char| worktree::is_slug_char(c);
    let parts = worktree::slug_words(s);
    lemma_words_are_words(s, Seq::empty());
    lemma_words_keep(s, Seq::empty());
    lemma_join_keeps(parts);
    lemma_join_is_slug(parts);
    assert(Seq::<char>::empty() + s.filter(keep) =~= s.filter(keep));
    let left = s.filter(keep);
    if worktree::slug_of(s).len() == 0 {
        assert(parts.len() == 0);
        assert(left.len() == 0);
        assert forall|i: int| 0 <= i < s.len() implies !worktree::is_slug_char(#[trigger] s[i]) by {
            if keep(s[i]) {
                s.lemma_filter_contains(keep, i);
            }
        }
    } else if forall|i: int| 0 <= i < s.len() ==> !worktree::is_slug_char(#[trigger] s[i]) {
        assert(is_word(parts[0]));
        if left.len() > 0 {
            s.lemma_filter_contains_rev(keep, left[0]);
            s.lemma_filter_pred(keep, 0);
            let j = choose|j: int| 0 <= j < s.len() && s[j] == left[0];
            assert(worktree::is_slug_char(s[j]));
        }
        lemma_concat_front(parts[0], parts.drop_first());
        assert(seq![parts[0]] + parts.drop_first() =~= parts);
    }
}

/// The words of two texts with a dash between them.
proof fn lemma_words_dash(a: Seq<char>, b: Seq<char>, cur: Seq<char>)
    ensures
        worktree::slug_words_from(a + seq!['-'] + b, cur) == worktree::slug_words_from(a, cur)
            + worktree::slug_words(b),
    decreases a.len(),
{
    let s = a + seq!['-'] + b;
    if a.len() == 0 {
        assert(s.drop_first() =~= b);
        assert(s[0] == '-');
    } else {
        assert(s.drop_first() =~= a.drop_first() + seq!['-'] + b);
        assert(s[0] == a[0]);
        if worktree::is_slug_char(a[0]) {
            lemma_words_dash(a.drop_first(), b, cur.push(a[0]));
        } else if !worktree::is_gap(a[0]) {
            lemma_words_dash(a.drop_first(), b, cur);
        } else {
            lemma_words_dash(a.drop_first(), b, Seq::empty());
            assert(worktree::slug_words_from(s, cur) =~= worktree::slug_words_from(a, cur) + worktree::slug_words(b));
        }
    }
}

proof fn lemma_words_of_word(w: Seq<char>, cur: Seq<char>)
    requires
        forall|i: int| 0 <= i < w.len() ==> worktree::is_slug_char(#[trigger] w[i]),
        cur.len() + w.len() > 0,
    ensures
        worktree::slug_words_from(w, cur) == seq![cur + w],
    decreases w.len(),
{
    if w.len() == 0 {
        assert(cur + w =~= cur);
    } else {
        lemma_words_of_word(w.drop_first(), cur.push(w[0]));
        assert(cur.push(w[0]) + w.drop_first() =~= cur + w);
    }
}

proof fn lemma_words_of_join(parts: Seq<Seq<char>>)
    requires
        all_words(parts),
    ensures
        worktree::slug_words(text::join(parts, "-"@)) == parts,
    decreases parts.len(),
{
    reveal_strlit("-");
    if parts.len() == 0 {
        assert(worktree::slug_words(Seq::<char>::empty()) =~= parts);
    } else {
        let init = parts.drop_last();
        let b = parts.last();
        assert(is_word(parts[parts.len() - 1]));
        lemma_words_of_word(b, Seq::empty());
        assert(Seq::<char>::empty() + b =~= b);
        if parts.len() == 1 {
            assert(seq![b] =~= parts);
        } else {
            assert forall|k: int| 0 <= k < init.len() implies is_word(#[trigger] init[k]) by {
                assert(init[k] == parts[k]);
            }
            lemma_words_of_join(init);
            assert("-"@ =~= seq!['-']);
            lemma_words_dash(text::join(init, "-"@), b, Seq::empty());
            assert(init + seq![b] =~= parts);
        }
    }
}

/// The slug of a name is its own slug.
pub proof fn law_slug_is_fixed(name: Seq<char>)
    ensures
        worktree::slug_for(worktree::slug_for(name)) == worktree::slug_for(name),
{
    let s = worktree::lowered(name);
    let slug = worktree::slug_of(s);
    lemma_words_are_words(s, Seq::empty());
    lemma_words_of_join(worktree::slug_words(s));
    law_slug_shape(s);
    assert forall|i: int| 0 <= i < slug.len() implies (#[trigger] slug[i] as u32) < 128
        && text::ascii_lower(slug[i]) == slug[i] by {
        assert(worktree::is_slug_char(slug[i]) || slug[i] == '-');
    }
    assert(worktree::lowered(slug) =~= slug);
}

/// Splitting words that are joined by dashes gives them back.
proof fn lemma_split_of_join(parts: Seq<Seq<char>>)
    requires
        all_words(parts),
        parts.len() > 0,
    ensures
        text::split(text::join(parts, "-"@), '-') == parts,
    decreases parts.len(),
{
    reveal_strlit("-");
    let init = parts.drop_last();
    let b = parts.last();
    assert(is_word(parts[parts.len() - 1]));
    lemma_split_of_word(b, Seq::empty());
    assert(Seq::<char>::empty() + b =~= b);
    if parts.len() == 1 {
        assert(seq![b] =~= parts);
    } else {
        assert forall|k: int| 0 <= k < init.len() implies is_word(#[trigger] init[k]) by {
            assert(init[k] == parts[k]);
        }
        lemma_split_of_join(init);
        assert("-"@ =~= seq!['-']);
        lemma_split_dash(text::join(init, "-"@), b, Seq::empty());
        assert(init + seq![b] =~= parts);
    }
}

proof fn lemma_split_of_word(w: Seq<char>, cur: Seq<char>)
    requires
        forall|i: int| 0 <= i < w.len() ==> worktree::is_slug_char(#[trigger] w[i]),
    ensures
        text::split_from(w, '-', cur) == seq![cur + w],
    decreases w.len(),
{
    if w.len() == 0 {
        assert(cur + w =~= cur);
    } else {
        assert(worktree::is_slug_char(w[0]));
        lemma_split_of_word(w.drop_first(), cur.push(w[0]));
        assert(cur.push(w[0]) + w.drop_first() =~= cur + w);
    }
}

proof fn lemma_split_dash(a: Seq<char>, b: Seq<char>, cur: Seq<char>)
    ensures
        text::split_from(a + seq!['-'] + b, '-', cur) == text::split_from(a, '-', cur) + text::split(b, '-'),
    decreases a.len(),
{
    let s = a + seq!['-'] + b;
    if a.len() == 0 {
        assert(s.drop_first() =~= b);
        assert(s[0] == '-');
    } else {
        assert(s.drop_first() =~= a.drop_first() + seq!['-'] + b);
        assert(s[0] == a[0]);
        if a[0] == '-' {
            lemma_split_dash(a.drop_first(), b, Seq::empty());
            assert(text::split_from(s, '-', cur) =~= text::split_from(a, '-', cur) + text::split(b, '-'));
        } else {
            lemma_split_dash(a.drop_first(), b, cur.push(a[0]));
        }
    }
}

proof fn lemma_without_vowels(w: Seq<char>)
    requires
        is_word(w),
    ensures
        is_word(worktree::without_vowels(w)),
        worktree::without_vowels(w)[0] == w[0],
        worktree::without_vowels(w).len() <= w.len(),
        forall|i: int|
            0 < i < worktree::without_vowels(w).len() ==> !worktree::is_vowel(
                #[trigger] worktree::without_vowels(w)[i],
            ),
{
    let keep = |c: char| !worktree::is_vowel(c);
    let rest = w.drop_first();
    let out = worktree::without_vowels(w);
    rest.lemma_filter_len(keep);
    assert forall|i: int| 0 <= i < out.len() implies worktree::is_slug_char(#[trigger] out[i]) by {
        if i == 0 {
            assert(worktree::is_slug_char(w[0]));
        } else {
            let f = rest.filter(keep);
            rest.lemma_filter_contains_rev(keep, f[i - 1]);
            let j = choose|j: int| 0 <= j < rest.len() && rest[j] == f[i - 1];
            assert(rest[j] == w[j + 1]);
        }
    }
    assert forall|i: int| 0 < i < out.len() implies !worktree::is_vowel(#[trigger] out[i]) by {
        rest.lemma_filter_pred(keep, i - 1);
    }
}

/// Compressing a slug gives a slug again, word for word: each keeps its first
/// character and no vowel behind it.
pub proof fn law_compressed_slug(s: Seq<char>)
    ensures
        ({
            let slug = worktree::slug_of(s);
            let short = worktree::compressed(slug);
            &&& worktree::slug_of(short) == short
            &&& text::utf8_len(slug) <= 20 ==> short == slug
            &&& text::utf8_len(slug) > 20 ==> {
                &&& worktree::slug_words(short).len() == worktree::slug_words(slug).len()
                &&& forall|k: int|
                    0 <= k < worktree::slug_words(slug).len() ==> #[trigger] worktree::slug_words(short)[k]
                        == worktree::without_vowels(worktree::slug_words(slug)[k])
            }
        }),
{
    let slug = worktree::slug_of(s);
    let parts = worktree::slug_words(s);
    lemma_words_are_words(s, Seq::empty());
    lemma_words_of_join(parts);
    if text::utf8_len(slug) > 20 {
        assert(parts.len() > 0);
        lemma_split_of_join(parts);
        let short = parts.map_values(|w: Seq<char>| worktree::without_vowels(w));
        assert forall|k: int| 0 <= k < short.len() implies is_word(#[trigger] short[k]) by {
            assert(is_word(parts[k]));
            lemma_without_vowels(parts[k]);
        }
        lemma_words_of_join(short);
    }
}

/// A slug is got back from the branch that is named after it.
pub proof fn law_branch_round_trip(slug: Seq<char>)
    ensures
        worktree::slug_of_branch(worktree::branch_of(slug)) == slug,
{
    let p = worktree::BRANCH_PREFIX@;
    let b = worktree::branch_of(slug);
    assert(b.take(p.len() as int) =~= p);
    assert(b.skip(p.len() as int) =~= slug);
}

/// Merging takes back the mark that making the worktree put before a title. Leading
/// spaces and colons of the title itself go with it.
pub proof fn law_title_round_trip(name: Seq<char>)
    ensures
        worktree::unmarked_title(worktree::marked_title(name)) == Some(
            text::trim_start_of(name, set![' ', ':']),
        ),
        name.len() > 0 && name[0] != ' ' && name[0] != ':' ==> worktree::unmarked_title(
            worktree::marked_title(name),
        ) == Some(name),
{
    reveal_strlit("⬦ worktree: ");
    let p = worktree::THREAD_PREFIX@;
    assert(p.len() == 12);
    assert(p[11] == ' ' && p[10] == ':');
    assert(text::is_whitespace(' '));
    assert(!text::is_whitespace(':'));
    assert(p.drop_last().last() == ':');
    assert(text::trim_end(p) == text::trim_end(p.drop_last()));
    assert(text::trim_end(p) =~= p.take(11));
    let mark = text::trim_end(p);
    let title = worktree::marked_title(name);
    assert(title.take(11) =~= mark);
    let rest = title.skip(11);
    assert(rest[0] == ' ');
    assert(rest.drop_first() =~= name);
}

proof fn lemma_hex(n: nat, k: nat)
    ensures
        numbers::hex(n, k).len() == k,
        forall|i: int| 0 <= i < k ==> #[trigger] numbers::hex(n, k)[i] != '/',
    decreases k,
{
    if k > 0 {
        lemma_hex(n / 16, (k - 1) as nat);
    }
}

/// Every worktree of a project lies under one directory of the data directory, and
/// two slugs never share a directory.
pub proof fn law_directories(data: Seq<char>, project: Seq<char>, a: Seq<char>, b: Seq<char>)
    requires
        worktree::is_slug(a),
        worktree::is_slug(b),
    ensures
        exists|hash: Seq<char>|
            #![trigger paths::joined(paths::joined(data, "worktrees"@), hash)]
            hash.len() == 8 && worktree::directory_of(data, project, a) == paths::joined(
                paths::joined(data, "worktrees"@),
                hash,
            ).push('/') + a,
        worktree::directory_of(data, project, a) == worktree::directory_of(data, project, b)
            ==> a == b,
{
    let hash = numbers::hex(
        worktree::fnv(vstd::utf8::encode_utf8(project)) as nat % 0x1_0000_0000,
        8,
    );
    lemma_hex(worktree::fnv(vstd::utf8::encode_utf8(project)) as nat % 0x1_0000_0000, 8);
    let top = paths::joined(data, "worktrees"@);
    let root = paths::joined(top, hash);
    assert(hash[0] != '/' && hash[7] != '/');
    assert(root.last() == hash.last());
    let x = worktree::directory_of(data, project, a);
    let y = worktree::directory_of(data, project, b);
    if a.len() > 0 {
        assert(worktree::is_slug_char(a[0]) || a[0] == '-');
    }
    if b.len() > 0 {
        assert(worktree::is_slug_char(b[0]) || b[0] == '-');
    }
    assert(x == root.push('/') + a);
    assert(y == root.push('/') + b);
    if x == y {
        let n = root.len() + 1;
        assert(x.skip(n as int) =~= a);
        assert(y.skip(n as int) =~= b);
    }
}

} // verus!
