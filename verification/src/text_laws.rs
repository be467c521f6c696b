//! What holds of texts, numbers and paths: what taking a text apart and putting it
//! together again keeps of it.

use crate::domain::worktree;
use crate::numbers;
use crate::numbers::IntError;
use crate::paths;
use crate::text;
use vstd::prelude::*;
use vstd::string::*;

verus! {

/// The characters of a text that are not whitespace, in order.
pub open spec fn ink(s: Seq<char>) -> Seq<char> {
    s.filter(|c: char| !text::is_whitespace(c))
}

/// Trimming takes off whitespace at both ends, all of it and nothing else: a text is its
/// trimmed form between two blank ones.
pub proof fn law_trim_takes_off_whitespace(s: Seq<char>)
    ensures
        exists|a: Seq<char>, b: Seq<char>|
            s == #[trigger] (a + text::trim(s) + b) && text::all_whitespace(a)
                && text::all_whitespace(b),
        text::trim(s).len() > 0 ==> !text::is_whitespace(text::trim(s)[0]) && !text::is_whitespace(
            text::trim(s).last(),
        ),
{
    text::lemma_trim_ends(s);
    text::lemma_trim_start_shape(s);
    lemma_trimmed_start(s);
    let rest = text::trim_start(s);
    text::lemma_trim_end_shape(rest);
    lemma_trimmed_end(rest);
    let a = s.take(s.len() - rest.len());
    let b = rest.skip(text::trim_end(rest).len() as int);
    assert(s =~= a + text::trim(s) + b);
}

proof fn lemma_trimmed_start(s: Seq<char>)
    ensures
        text::trim_start(s).len() <= s.len(),
        text::all_whitespace(s.take(s.len() - text::trim_start(s).len())),
    decreases s.len(),
{
    text::lemma_trim_start_shape(s);
    if s.len() > 0 && text::is_whitespace(s[0]) {
        let t = s.drop_first();
        lemma_trimmed_start(t);
        let n = s.len() - text::trim_start(s).len();
        assert forall|i: int| 0 <= i < n implies text::is_whitespace(#[trigger] s.take(n)[i]) by {
            if i > 0 {
                assert(t.take(n - 1)[i - 1] == s[i]);
            }
        }
    }
}

proof fn lemma_trimmed_end(s: Seq<char>)
    ensures
        text::trim_end(s).len() <= s.len(),
        text::all_whitespace(s.skip(text::trim_end(s).len() as int)),
    decreases s.len(),
{
    text::lemma_trim_end_shape(s);
    if s.len() > 0 && text::is_whitespace(s.last()) {
        let t = s.drop_last();
        lemma_trimmed_end(t);
        let n = text::trim_end(s).len() as int;
        assert forall|i: int| 0 <= i < s.len() - n implies text::is_whitespace(
            #[trigger] s.skip(n)[i],
        ) by {
            if n + i < s.len() - 1 {
                assert(t.skip(n)[i] == s[n + i]);
            }
        }
    }
}

/// The words of a text hold all its characters but the whitespace, in order, and no
/// word is empty or holds any.
pub proof fn law_words_keep_all(s: Seq<char>)
    ensures
        text::concat(text::words(s)) == ink(s),
        forall|k: int|
            0 <= k < text::words(s).len() ==> (#[trigger] text::words(s)[k]).len() > 0,
{
    lemma_words(s, Seq::empty());
    assert(Seq::<char>::empty() + ink(s) =~= ink(s));
}

proof fn lemma_words(s: Seq<char>, cur: Seq<char>)
    ensures
        text::concat(text::words_from(s, cur)) == cur + ink(s),
        forall|k: int|
            0 <= k < text::words_from(s, cur).len() ==> (#[trigger] text::words_from(s, cur)[k]).len()
                > 0,
    decreases s.len(),
{
    let p = |c: char| !text::is_whitespace(c);
    let head = if cur.len() == 0 {
        Seq::<Seq<char>>::empty()
    } else {
        seq![cur]
    };
    assert(text::concat(head) =~= cur) by {
        if cur.len() > 0 {
            assert(head.drop_last() =~= Seq::<Seq<char>>::empty());
            assert(text::concat(Seq::<Seq<char>>::empty()) =~= Seq::<char>::empty());
        }
    }
    if s.len() == 0 {
        assert(s.filter(p) =~= Seq::<char>::empty()) by {
            reveal(Seq::filter);
        }
        assert(cur + ink(s) =~= cur);
    } else {
        let t = s.drop_first();
        assert(s =~= seq![s[0]] + t);
        Seq::filter_distributes_over_add(seq![s[0]], t, p);
        assert(seq![s[0]].filter(p) =~= if p(s[0]) {
            seq![s[0]]
        } else {
            Seq::<char>::empty()
        }) by {
            reveal(Seq::filter);
            assert(seq![s[0]].drop_last() =~= Seq::<char>::empty());
            assert(Seq::<char>::empty().filter(p) =~= Seq::<char>::empty());
        }
        if text::is_whitespace(s[0]) {
            lemma_words(t, Seq::empty());
            text::lemma_concat_split(head, text::words_from(t, Seq::empty()));
            assert(cur + (Seq::<char>::empty() + ink(t)) =~= cur + ink(s));
        } else {
            lemma_words(t, cur.push(s[0]));
            assert(cur.push(s[0]) + ink(t) =~= cur + ink(s));
        }
    }
}

/// Cutting a text at a separator and joining the pieces with it gives the text back.
pub proof fn law_split_and_join(s: Seq<char>, sep: char)
    ensures
        text::join(text::split(s, sep), seq![sep]) == s,
        forall|k: int, i: int|
            #![trigger text::split(s, sep)[k][i]]
            0 <= k < text::split(s, sep).len() && 0 <= i < text::split(s, sep)[k].len()
                ==> text::split(s, sep)[k][i] != sep,
{
    lemma_split(s, sep, Seq::empty());
    assert(Seq::<char>::empty() + s =~= s);
}

proof fn lemma_join_front(first: Seq<char>, rest: Seq<Seq<char>>, sep: Seq<char>)
    requires
        rest.len() > 0,
    ensures
        text::join(seq![first] + rest, sep) == first + sep + text::join(rest, sep),
    decreases rest.len(),
{
    let all = seq![first] + rest;
    if rest.len() == 1 {
        assert(all.drop_last() =~= seq![first]);
        assert(all.last() == rest[0]);
        assert(text::join(seq![first], sep) == first);
    } else {
        lemma_join_front(first, rest.drop_last(), sep);
        assert(all.drop_last() =~= seq![first] + rest.drop_last());
        assert(all.last() == rest.last());
        assert(first + sep + text::join(rest.drop_last(), sep) + sep + rest.last() =~= first + sep
            + text::join(rest, sep));
    }
}

proof fn lemma_split(s: Seq<char>, sep: char, cur: Seq<char>)
    requires
        forall|i: int| 0 <= i < cur.len() ==> #[trigger] cur[i] != sep,
    ensures
        text::split_from(s, sep, cur).len() > 0,
        text::join(text::split_from(s, sep, cur), seq![sep]) == cur + s,
        forall|k: int, i: int|
            #![trigger text::split_from(s, sep, cur)[k][i]]
            0 <= k < text::split_from(s, sep, cur).len() && 0 <= i < text::split_from(
                s,
                sep,
                cur,
            )[k].len() ==> text::split_from(s, sep, cur)[k][i] != sep,
    decreases s.len(),
{
    if s.len() == 0 {
        assert(cur + s =~= cur);
    } else if s[0] == sep {
        let t = s.drop_first();
        lemma_split(t, sep, Seq::empty());
        let rest = text::split_from(t, sep, Seq::empty());
        lemma_join_front(cur, rest, seq![sep]);
        assert(cur + seq![sep] + (Seq::<char>::empty() + t) =~= cur + s);
        let all = seq![cur] + rest;
        assert forall|k: int, i: int|
            #![trigger all[k][i]]
            0 <= k < all.len() && 0 <= i < all[k].len() implies all[k][i] != sep by {
            if k > 0 {
                assert(all[k] == rest[k - 1]);
                assert(rest[k - 1][i] != sep);
            }
        }
    } else {
        let t = s.drop_first();
        let next = cur.push(s[0]);
        lemma_split(t, sep, next);
        assert(next + t =~= cur + s);
    }
}

/// Replacing a character changes it everywhere and nothing else.
pub proof fn law_replaced_everywhere(s: Seq<char>, from: char, to: char)
    ensures
        text::replaced(s, from, to).len() == s.len(),
        forall|i: int|
            0 <= i < s.len() ==> #[trigger] text::replaced(s, from, to)[i] == if s[i] == from {
                to
            } else {
                s[i]
            },
{
}

/// A text starts with a prefix exactly where something stands behind it, and that is
/// what is left.
pub proof fn law_prefix_is_taken_off(s: Seq<char>, p: Seq<char>, rest: Seq<char>)
    ensures
        text::after_prefix(p + rest, p) == Some(rest),
        text::after_prefix(s, p) matches Some(r) ==> s == p + r,
        text::after_prefix(s, p) is Some <==> text::starts_with(s, p),
{
    assert((p + rest).take(p.len() as int) =~= p);
    assert((p + rest).skip(p.len() as int) =~= rest);
    if text::starts_with(s, p) {
        assert(s =~= p + s.skip(p.len() as int));
    }
}

// ---- numbers ----

/// A number that is written can be read again, and is the same.
pub proof fn law_number_round_trip(n: nat, max: nat)
    requires
        n <= max,
    ensures
        numbers::unsigned_value(numbers::decimal(n), max) == Ok::<nat, IntError>(n),
{
    lemma_decimal_shape(n);
    lemma_decimal_read(n, max, IntError::TooLarge, Seq::empty());
    assert(numbers::decimal(n) + Seq::<char>::empty() =~= numbers::decimal(n));
}

proof fn lemma_decimal_shape(n: nat)
    ensures
        numbers::decimal(n).len() > 0,
        numbers::is_digit(numbers::decimal(n)[0]),
    decreases n,
{
    if n >= 10 {
        lemma_decimal_shape(n / 10);
        assert(numbers::decimal(n)[0] == numbers::decimal(n / 10)[0]);
    }
}

proof fn lemma_decimal_read(n: nat, max: nat, over: IntError, rest: Seq<char>)
    requires
        n <= max,
    ensures
        numbers::digits_value(numbers::decimal(n) + rest, 0, max, over) == numbers::digits_value(
            rest,
            n,
            max,
            over,
        ),
    decreases n,
{
    if n < 10 {
        let s = numbers::decimal(n) + rest;
        assert(s[0] == numbers::digit(n));
        assert(s.drop_first() =~= rest);
    } else {
        let d = numbers::digit(n % 10);
        lemma_decimal_read(n / 10, max, over, seq![d] + rest);
        assert(numbers::decimal(n) + rest =~= numbers::decimal(n / 10) + (seq![d] + rest));
        let s = seq![d] + rest;
        assert(s[0] == d);
        assert(s.drop_first() =~= rest);
        assert((n / 10) * 10 + n % 10 == n);
    }
}

/// A negative number is written with its sign before its amount.
pub proof fn law_signed_number_round_trip(n: int)
    requires
        -0x8000_0000_0000_0000 <= n <= 0x7fff_ffff_ffff_ffff,
    ensures
        numbers::signed_value(numbers::decimal_int(n)) == Ok::<int, IntError>(n),
{
    let m: nat = if n < 0 {
        (-n) as nat
    } else {
        n as nat
    };
    lemma_decimal_shape(m);
    let s = numbers::decimal(m);
    assert(s + Seq::<char>::empty() =~= s);
    if n < 0 {
        lemma_decimal_read(m, 9223372036854775808, IntError::TooSmall, Seq::empty());
        assert((seq!['-'] + s).drop_first() =~= s);
        assert((seq!['-'] + s)[0] == '-');
    } else {
        lemma_decimal_read(m, 9223372036854775807, IntError::TooLarge, Seq::empty());
    }
}

/// What is read as a number holds nothing but digits, behind a plus sign at most.
pub proof fn law_number_is_digits(s: Seq<char>, max: nat)
    requires
        numbers::unsigned_value(s, max) is Ok,
    ensures
        s.len() > 0,
        forall|i: int| 0 < i < s.len() ==> numbers::is_digit(#[trigger] s[i]),
        numbers::is_digit(s[0]) || (s[0] == '+' && s.len() > 1),
        numbers::unsigned_value(s, max)->Ok_0 <= max,
{
    if s[0] == '+' {
        lemma_all_digits(s.drop_first(), 0, max, IntError::TooLarge);
        assert forall|i: int| 0 < i < s.len() implies numbers::is_digit(#[trigger] s[i]) by {
            assert(s.drop_first()[i - 1] == s[i]);
        }
    } else {
        lemma_all_digits(s, 0, max, IntError::TooLarge);
    }
}

proof fn lemma_all_digits(s: Seq<char>, acc: nat, max: nat, over: IntError)
    requires
        numbers::digits_value(s, acc, max, over) is Ok,
        acc <= max,
    ensures
        forall|i: int| 0 <= i < s.len() ==> numbers::is_digit(#[trigger] s[i]),
        numbers::digits_value(s, acc, max, over)->Ok_0 <= max,
    decreases s.len(),
{
    if s.len() > 0 {
        let t = s.drop_first();
        lemma_all_digits(t, acc * 10 + (s[0] as u32 - 48) as nat, max, over);
        assert forall|i: int| 0 <= i < s.len() implies numbers::is_digit(#[trigger] s[i]) by {
            if i > 0 {
                assert(t[i - 1] == s[i]);
            }
        }
    }
}

// ---- paths ----

/// Joining paths keeps both, with one separator between them; a second path that is
/// absolute stands alone.
pub proof fn law_joined_paths(a: Seq<char>, b: Seq<char>)
    ensures
        b.len() > 0 && b[0] == '/' ==> paths::joined(a, b) == b,
        (b.len() == 0 || b[0] != '/') && a.len() > 0 && a.last() != '/' ==> paths::joined(a, b)
            == a + seq!['/'] + b,
        (b.len() == 0 || b[0] != '/') && a.len() > 0 && a.last() == '/' ==> paths::joined(a, b) == a
            + b,
        (b.len() == 0 || b[0] != '/') && a.len() == 0 ==> paths::joined(a, b) == b,
{
    assert(a.push('/') + b =~= a + seq!['/'] + b);
    assert(Seq::<char>::empty() + b =~= b);
    if a.len() == 0 {
        assert(a + b =~= b);
    }
}

// ---- names ----

/// A shortened word loses its vowels behind the first character and nothing else: all
/// other characters stay, in order.
pub proof fn law_shortened_word_keeps_consonants(word: Seq<char>)
    requires
        word.len() > 0,
    ensures
        worktree::without_vowels(word).len() > 0,
        worktree::without_vowels(word)[0] == word[0],
        worktree::without_vowels(word).drop_first() == word.drop_first().filter(
            |c: char| !(c == 'a' || c == 'e' || c == 'i' || c == 'o' || c == 'u'),
        ),
{
    let p = |c: char| !(c == 'a' || c == 'e' || c == 'i' || c == 'o' || c == 'u');
    let q = |c: char| !worktree::is_vowel(c);
    assert(p =~= q);
    assert(worktree::without_vowels(word).drop_first() =~= word.drop_first().filter(q));
}

/// Words that a name has apart stay apart in its slug: a dash or whitespace between two
/// of them is one dash, and a character that cannot stand in a slug is no gap.
pub proof fn law_slug_words_stay_apart(a: Seq<char>, gap: char, b: Seq<char>, cur: Seq<char>)
    requires
        gap == '-' || text::is_whitespace(gap),
    ensures
        worktree::slug_words_from(a + seq![gap] + b, cur) == worktree::slug_words_from(a, cur)
            + worktree::slug_words(b),
    decreases a.len(),
{
    let whole = a + seq![gap] + b;
    if a.len() == 0 {
        assert(whole =~= seq![gap] + b);
        assert(whole.drop_first() =~= b);
        lemma_gap_is_no_letter(gap);
    } else {
        let t = a.drop_first();
        assert(whole.drop_first() =~= t + seq![gap] + b);
        assert(whole[0] == a[0]);
        let head = if cur.len() == 0 {
            Seq::<Seq<char>>::empty()
        } else {
            seq![cur]
        };
        if worktree::is_slug_char(a[0]) {
            law_slug_words_stay_apart(t, gap, b, cur.push(a[0]));
        } else if worktree::is_gap(a[0]) {
            law_slug_words_stay_apart(t, gap, b, Seq::empty());
            assert(head + (worktree::slug_words_from(t, Seq::empty()) + worktree::slug_words(b))
                =~= (head + worktree::slug_words_from(t, Seq::empty())) + worktree::slug_words(b));
        } else {
            law_slug_words_stay_apart(t, gap, b, cur);
        }
    }
}

proof fn lemma_gap_is_no_letter(gap: char)
    requires
        gap == '-' || text::is_whitespace(gap),
    ensures
        !worktree::is_slug_char(gap),
        worktree::is_gap(gap),
{
}

} // verus!
