//! Worktree domain: naming rules, on-disk layout, merge outcomes, and the
//! conflict-resolution instructions handed to the agent. The git steps that act
//! on these live in `connector::git`.

use crate::domain::worktree_laws;
use crate::numbers;
use crate::paths;
use crate::text;
use vstd::prelude::*;
use vstd::string::*;

verus! {

/// Branch prefix for worktrees created by lily.
pub const BRANCH_PREFIX: &'static str = "lily/";

/// Thread title prefix marking an unmerged worktree thread.
pub const THREAD_PREFIX: &'static str = "⬦ worktree: ";

/// A thread's worktree assignment, persisted between restarts.
#[derive(Debug)]
pub struct ThreadWorktree {
    pub thread_id: String,
    pub worktree_name: String,
    pub worktree_directory: Option<String>,
    pub project_directory: String,
    pub status: String,
    pub error_message: Option<String>,
}

/// The value of a worktree assignment.
pub struct Assignment {
    pub thread: Seq<char>,
    pub name: Seq<char>,
    pub directory: Option<Seq<char>>,
    pub project: Seq<char>,
    pub status: Seq<char>,
    pub error: Option<Seq<char>>,
}

impl View for ThreadWorktree {
    type V = Assignment;

    open spec fn view(&self) -> Assignment {
        Assignment {
            thread: self.thread_id@,
            name: self.worktree_name@,
            directory: text::opt_view(self.worktree_directory),
            project: self.project_directory@,
            status: self.status@,
            error: text::opt_view(self.error_message),
        }
    }
}

impl Clone for ThreadWorktree {
    fn clone(&self) -> (r: Self)
        ensures
            r@ == self@,
    {
        ThreadWorktree {
            thread_id: self.thread_id.clone(),
            worktree_name: self.worktree_name.clone(),
            worktree_directory: self.worktree_directory.clone(),
            project_directory: self.project_directory.clone(),
            status: self.status.clone(),
            error_message: self.error_message.clone(),
        }
    }
}

/// Result of merging a worktree back onto its target branch.
#[derive(Debug)]
pub enum MergeOutcome {
    Success {
        target_branch: String,
        branch_name: String,
        commit_count: u64,
        short_sha: String,
        /// Set when the merge landed but post-merge cleanup (branch delete,
        /// worktree removal) partially failed and may need manual attention.
        cleanup_warning: Option<String>,
    },
    /// Rebase stopped on conflicts; git is left mid-rebase so the agent can
    /// resolve them, after which /merge-worktree is run again.
    RebaseConflict { target_branch: String },
    DirtyWorktree,
    TargetDirty { target_branch: String },
    NothingToMerge,
}

/// The value of a merge outcome.
pub enum Merge {
    Success {
        target: Seq<char>,
        branch: Seq<char>,
        commits: nat,
        sha: Seq<char>,
        warning: Option<Seq<char>>,
    },
    RebaseConflict(Seq<char>),
    DirtyWorktree,
    TargetDirty(Seq<char>),
    NothingToMerge,
}

impl View for MergeOutcome {
    type V = Merge;

    open spec fn view(&self) -> Merge {
        match *self {
            MergeOutcome::Success {
                target_branch,
                branch_name,
                commit_count,
                short_sha,
                cleanup_warning,
            } => Merge::Success {
                target: target_branch@,
                branch: branch_name@,
                commits: commit_count as nat,
                sha: short_sha@,
                warning: text::opt_view(cleanup_warning),
            },
            MergeOutcome::RebaseConflict { target_branch } => Merge::RebaseConflict(
                target_branch@,
            ),
            MergeOutcome::DirtyWorktree => Merge::DirtyWorktree,
            MergeOutcome::TargetDirty { target_branch } => Merge::TargetDirty(target_branch@),
            MergeOutcome::NothingToMerge => Merge::NothingToMerge,
        }
    }
}

// ---- hashing ----

/// One step of the FNV-1a hash.
pub open spec fn fnv_step(hash: u64, byte: u8) -> u64 {
    let mixed = hash ^ (byte as u64);
    ((mixed as nat * 0x100000001b3) % 0x1_0000_0000_0000_0000) as u64
}

/// The 64-bit FNV-1a hash of some bytes.
pub open spec fn fnv(bytes: Seq<u8>) -> u64
    decreases bytes.len(),
{
    if bytes.len() == 0 {
        0xcbf29ce484222325
    } else {
        fnv_step(fnv(bytes.drop_last()), bytes.last())
    }
}

/// The FNV-1a hash of the UTF-8 encoding of `data`.
pub fn fnv1a64(data: &str) -> (r: u64)
    ensures
        r == fnv(vstd::utf8::encode_utf8(data@)),
{
    let bytes = data.as_bytes();
    let mut hash: u64 = 0xcbf29ce484222325;
    let mut i: usize = 0;
    proof {
        assert(bytes@.take(0) =~= Seq::<u8>::empty());
    }
    while i < bytes.len()
        invariant
            i <= bytes@.len(),
            bytes@ == vstd::utf8::encode_utf8(data@),
            hash == fnv(bytes@.take(i as int)),
        decreases bytes@.len() - i,
    {
        proof {
            assert(bytes@.take(i + 1).drop_last() =~= bytes@.take(i as int));
        }
        hash = hash ^ (bytes[i] as u64);
        hash = hash.wrapping_mul(0x100000001b3);
        i = i + 1;
    }
    proof {
        assert(bytes@.take(bytes@.len() as int) =~= bytes@);
    }
    hash
}

// ---- names ----

/// Whether `c` is one of [a-z0-9].
pub open spec fn is_slug_char(c: char) -> bool {
    ('a' <= c && c <= 'z') || ('0' <= c && c <= '9')
}

fn slug_char(c: char) -> (r: bool)
    ensures
        r == is_slug_char(c),
{
    ('a' <= c && c <= 'z') || ('0' <= c && c <= '9')
}

/// Whether `c` separates the words of a slug.
pub open spec fn is_gap(c: char) -> bool {
    c == '-' || text::is_whitespace(c)
}

/// The words of `cur + s`, where `cur` is the part of a word read so far.
pub open spec fn slug_words_from(s: Seq<char>, cur: Seq<char>) -> Seq<Seq<char>>
    decreases s.len(),
{
    let head = if cur.len() == 0 {
        Seq::<Seq<char>>::empty()
    } else {
        seq![cur]
    };
    if s.len() == 0 {
        head
    } else if is_slug_char(s[0]) {
        slug_words_from(s.drop_first(), cur.push(s[0]))
    } else if is_gap(s[0]) {
        head + slug_words_from(s.drop_first(), Seq::empty())
    } else {
        slug_words_from(s.drop_first(), cur)
    }
}

/// The words between the whitespace and dashes of `s`, without the characters that
/// are not in [a-z0-9]; a word of which nothing is left falls away.
pub open spec fn slug_words(s: Seq<char>) -> Seq<Seq<char>> {
    slug_words_from(s, Seq::empty())
}

/// The words of a slug with one dash between each two.
pub open spec fn slug_of(s: Seq<char>) -> Seq<char> {
    text::join(slug_words(s), "-"@)
}

/// Whether `s` is made of words of [a-z0-9] with one dash between each two.
pub open spec fn is_slug(s: Seq<char>) -> bool {
    &&& forall|i: int| 0 <= i < s.len() ==> is_slug_char(#[trigger] s[i]) || s[i] == '-'
    &&& s.len() > 0 ==> s[0] != '-' && s.last() != '-'
    &&& forall|i: int| 0 < i < s.len() && s[i] == '-' ==> #[trigger] s[i - 1] != '-'
}

/// The lower-case form of a text that is not ASCII.
pub uninterp spec fn lowercase(s: Seq<char>) -> Seq<char>;

pub open spec fn is_ascii_text(s: Seq<char>) -> bool {
    forall|i: int| 0 <= i < s.len() ==> (#[trigger] s[i] as u32) < 128
}

/// The lower-case form of a text.
pub open spec fn lowered(s: Seq<char>) -> Seq<char> {
    if is_ascii_text(s) {
        Seq::new(s.len(), |i: int| text::ascii_lower(s[i]))
    } else {
        lowercase(s)
    }
}

pub open spec fn is_capital(c: char) -> bool {
    'A' <= c && c <= 'Z'
}

/// `str::to_lowercase` is the lower-case form of the text: on ASCII text the letters
/// `A` to `Z` become `a` to `z` and nothing else changes; of no text is a letter `A`
/// to `Z` left.
pub assume_specification[ str::to_lowercase ](s: &str) -> (r: String)
    ensures
        r@ == if is_ascii_text(s@) {
            Seq::new(s@.len(), |i: int| text::ascii_lower(s@[i]))
        } else {
            lowercase(s@)
        },
        forall|i: int| 0 <= i < r@.len() ==> !is_capital(#[trigger] r@[i]),
;

/// The slug of a text that is in lower case already.
pub fn slug_from(lower: &str) -> (r: String)
    ensures
        r@ == slug_of(lower@),
{
    let v = text::chars_of(lower);
    let mut out: Vec<String> = Vec::new();
    let mut cur = String::new();
    let mut i: usize = 0;
    proof {
        assert(v@.skip(0) =~= v@);
        assert(text::texts(out@) + slug_words_from(v@, cur@) =~= slug_words(lower@));
    }
    while i < v.len()
        invariant
            i <= v@.len(),
            v@ == lower@,
            text::texts(out@) + slug_words_from(v@.skip(i as int), cur@) == slug_words(lower@),
        decreases v@.len() - i,
    {
        let c = v[i];
        proof {
            assert(v@.skip(i as int).drop_first() =~= v@.skip(i + 1));
        }
        if slug_char(c) {
            cur.push(c);
        } else if c == '-' || text::char_is_whitespace(c) {
            if !cur.as_str().is_empty() {
                let ghost before = text::texts(out@);
                out.push(cur);
                cur = String::new();
                proof {
                    assert(text::texts(out@) =~= before + seq![out@.last()@]);
                    assert(before + (seq![out@.last()@] + slug_words_from(v@.skip(i + 1), cur@))
                        =~= text::texts(out@) + slug_words_from(v@.skip(i + 1), cur@));
                }
            } else {
                proof {
                    assert(cur@ =~= Seq::<char>::empty());
                    assert(Seq::<Seq<char>>::empty() + slug_words_from(
                        v@.skip(i + 1),
                        Seq::empty(),
                    ) =~= slug_words_from(v@.skip(i + 1), Seq::empty()));
                }
            }
        }
        i = i + 1;
    }
    if !cur.as_str().is_empty() {
        let ghost before = text::texts(out@);
        out.push(cur);
        proof {
            assert(text::texts(out@) =~= before + seq![cur@]);
        }
    } else {
        proof {
            assert(text::texts(out@) =~= text::texts(out@) + Seq::<Seq<char>>::empty());
        }
    }
    text::join_texts(&out, "-")
}

/// The slug of a name.
pub open spec fn slug_for(name: Seq<char>) -> Seq<char> {
    slug_of(lowered(name))
}

/// Whether `c` is an ASCII letter or digit.
pub open spec fn is_ascii_alphanumeric(c: char) -> bool {
    is_slug_char(c) || is_capital(c)
}

/// Lowercase, collapse whitespace to dashes, drop anything but [a-z0-9-]. What is left
/// is a slug with every ASCII letter and digit of the lower-case name, in order, and
/// is its own slug.
pub fn slugify(name: &str) -> (r: String)
    ensures
        r@ == slug_for(name@),
        is_slug(r@),
        r@.filter(|c: char| c != '-') == lowered(name@).filter(
            |c: char| is_ascii_alphanumeric(c),
        ),
        slug_for(r@) == r@,
{
    let lower = name.to_lowercase();
    proof {
        worktree_laws::law_slug_shape(lower@);
        worktree_laws::law_slug_keeps_letters(lower@);
        worktree_laws::law_slug_is_fixed(name@);
        worktree_laws::lemma_filter_same(
            lower@,
            |c: char| is_slug_char(c),
            |c: char| is_ascii_alphanumeric(c),
        );
    }
    slug_from(lower.as_str())
}

pub open spec fn is_vowel(c: char) -> bool {
    c == 'a' || c == 'e' || c == 'i' || c == 'o' || c == 'u'
}

/// `word` without the vowels behind its first letter.
pub open spec fn without_vowels(word: Seq<char>) -> Seq<char> {
    if word.len() == 0 {
        word
    } else {
        seq![word[0]] + word.drop_first().filter(|c: char| !is_vowel(c))
    }
}

/// The words of a slug without the vowels behind their first letters, if the slug
/// is longer than 20 bytes.
pub open spec fn compressed(slug: Seq<char>) -> Seq<char> {
    if text::utf8_len(slug) <= 20 {
        slug
    } else {
        text::join(text::split(slug, '-').map_values(|w: Seq<char>| without_vowels(w)), "-"@)
    }
}

fn strip_vowels(word: &str) -> (r: String)
    ensures
        r@ == without_vowels(word@),
{
    let v = text::chars_of(word);
    let mut out = String::new();
    if v.len() == 0 {
        return out;
    }
    out.push(v[0]);
    let mut i: usize = 1;
    let ghost rest = word@.drop_first();
    let ghost keep = |c: char| !is_vowel(c);
    proof {
        assert(rest.take(0) =~= Seq::<char>::empty());
        reveal(Seq::filter);
        assert(out@ =~= seq![word@[0]] + rest.take(0).filter(keep));
    }
    while i < v.len()
        invariant
            1 <= i <= v@.len(),
            v@ == word@,
            rest == word@.drop_first(),
            keep == (|c: char| !is_vowel(c)),
            out@ == seq![word@[0]] + rest.take(i - 1).filter(keep),
        decreases v@.len() - i,
    {
        let c = v[i];
        proof {
            let a = rest.take(i - 1);
            assert(rest.take(i as int) =~= a.push(c));
            assert(a.push(c).drop_last() =~= a);
            reveal(Seq::filter);
            assert(seq![word@[0]] + a.filter(keep).push(c) =~= (seq![word@[0]] + a.filter(
                keep,
            )).push(c));
        }
        if c != 'a' && c != 'e' && c != 'i' && c != 'o' && c != 'u' {
            out.push(c);
        }
        i = i + 1;
    }
    proof {
        assert(rest.take(v@.len() - 1) =~= rest);
    }
    out
}

/// Compress long auto-derived slugs by stripping vowels from each word, keeping the
/// first letter: `configurable-sidebar-width` becomes `cnfgrbl-sdbr-wdth`.
pub fn compress_slug(slug: &str) -> (r: String)
    ensures
        r@ == compressed(slug@),
{
    if text::byte_len(slug) <= 20 {
        return slug.to_owned();
    }
    let parts = text::split_char(slug, '-');
    let ghost words = text::split(slug@, '-').map_values(|w: Seq<char>| without_vowels(w));
    let mut out: Vec<String> = Vec::new();
    let mut i: usize = 0;
    while i < parts.len()
        invariant
            i <= parts@.len(),
            text::texts(parts@) == text::split(slug@, '-'),
            words == text::split(slug@, '-').map_values(|w: Seq<char>| without_vowels(w)),
            text::texts(out@) == words.take(i as int),
        decreases parts@.len() - i,
    {
        let ghost before = text::texts(out@);
        proof {
            assert(text::texts(parts@)[i as int] == parts@[i as int]@);
        }
        out.push(strip_vowels(parts[i].as_str()));
        proof {
            assert(text::texts(out@) =~= before.push(out@.last()@));
            assert(words.take(i + 1) =~= words.take(i as int).push(words[i as int]));
        }
        i = i + 1;
    }
    proof {
        assert(words.take(parts@.len() as int) =~= words);
    }
    text::join_texts(&out, "-")
}

/// The branch of a slug.
pub open spec fn branch_of(slug: Seq<char>) -> Seq<char> {
    BRANCH_PREFIX@ + slug
}

pub fn branch_name(slug: &str) -> (r: String)
    ensures
        r@ == branch_of(slug@),
{
    BRANCH_PREFIX.to_owned().concat(slug)
}

/// The slug that a branch was named after; a branch of another making is taken as
/// it is.
pub open spec fn slug_of_branch(branch: Seq<char>) -> Seq<char> {
    match text::after_prefix(branch, BRANCH_PREFIX@) {
        Some(slug) => slug,
        None => branch,
    }
}

pub fn branch_slug(branch: &str) -> (r: String)
    ensures
        r@ == slug_of_branch(branch@),
{
    match text::strip_prefix(branch, BRANCH_PREFIX) {
        Some(slug) => slug,
        None => branch.to_owned(),
    }
}

/// `<data_dir>/worktrees/<project-hash>/<slug>`, where the hash is the eight last
/// hexadecimal digits of the project directory's hash.
pub open spec fn directory_of(data_dir: Seq<char>, project: Seq<char>, slug: Seq<char>) -> Seq<
    char,
> {
    let hash = numbers::hex(fnv(vstd::utf8::encode_utf8(project)) as nat % 0x1_0000_0000, 8);
    paths::joined(paths::joined(paths::joined(data_dir, "worktrees"@), hash), slug)
}

/// Directory for a worktree: `<data_dir>/worktrees/<project-hash>/<slug>`.
pub fn worktree_directory(data_dir: &str, project_directory: &str, slug: &str) -> (r: String)
    ensures
        r@ == directory_of(data_dir@, project_directory@, slug@),
{
    let full: u64 = fnv1a64(project_directory);
    let low: u32 = (full % 0x1_0000_0000) as u32;
    let hash = numbers::hex_u32(low);
    let root = paths::join_path(data_dir, "worktrees");
    let project = paths::join_path(root.as_str(), hash.as_str());
    paths::join_path(project.as_str(), slug)
}

// ---- thread titles ----

/// The title of a thread with an unmerged worktree.
pub open spec fn marked_title(name: Seq<char>) -> Seq<char> {
    THREAD_PREFIX@ + name
}

/// The title of a thread whose worktree was merged, where it was marked.
pub open spec fn unmarked_title(title: Seq<char>) -> Option<Seq<char>> {
    match text::after_prefix(title, text::trim_end(THREAD_PREFIX@)) {
        Some(rest) => Some(text::trim_start_of(rest, set![' ', ':'])),
        None => None,
    }
}

/// The title that marks a worktree thread, unless it is marked already.
pub fn mark_title(title: &str) -> (r: Option<String>)
    ensures
        text::opt_view(r) == if text::starts_with(title@, THREAD_PREFIX@) {
            None
        } else {
            Some(marked_title(title@))
        },
{
    if text::has_prefix(title, THREAD_PREFIX) {
        None
    } else {
        Some(THREAD_PREFIX.to_owned().concat(title))
    }
}

/// The title without the mark, if it has one.
pub fn unmark_title(title: &str) -> (r: Option<String>)
    ensures
        text::opt_view(r) == unmarked_title(title@),
{
    let mark = text::trimmed_end(THREAD_PREFIX);
    match text::strip_prefix(title, mark.as_str()) {
        Some(rest) => Some(text::trim_leading(rest.as_str(), ' ', ':')),
        None => None,
    }
}

/// Prompt sent to the agent when a merge rebase hits conflicts.
pub open spec fn conflict_prompt(target: Seq<char>) -> Seq<char> {
    "The rebase onto `"@ + target
        + "` stopped on conflicts. Resolve them: run `git status` to find conflicted files, understand both sides using the merge base and commit messages, edit the files to resolve every conflict marker, `git add` them, then `git rebase --continue`. Repeat until the rebase completes. Do not abort the rebase. When it is done, tell the user to run /merge-worktree again to complete the merge."@
}

pub fn conflict_resolution_prompt(target_branch: &str) -> (r: String)
    ensures
        r@ == conflict_prompt(target_branch@),
{
    "The rebase onto `".to_owned().concat(target_branch).concat(
        "` stopped on conflicts. Resolve them: run `git status` to find conflicted files, understand both sides using the merge base and commit messages, edit the files to resolve every conflict marker, `git add` them, then `git rebase --continue`. Repeat until the rebase completes. Do not abort the rebase. When it is done, tell the user to run /merge-worktree again to complete the merge.",
    )
}

} // verus!
