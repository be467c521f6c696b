//! What holds of every merge, whatever git replies.

use crate::application::flow;
use crate::application::flow::{Act, Answer, Heard, Path};
use crate::connector::git;
use crate::connector::git::MergeJob;
use crate::domain::worktree::Merge;
use vstd::prelude::*;
use vstd::string::*;

verus! {

/// Where a merge stands after the first `k` replies of `log`.
pub open spec fn after(job: MergeJob, log: Seq<Answer>, k: int) -> Path<Result<Merge, Seq<char>>> {
    git::merging(job, log.take(k), 0)
}

/// Whether an effect is the push that moves the target branch.
pub open spec fn is_push(p: Path<Result<Merge, Seq<char>>>) -> bool {
    p matches Path::Do(Act::Git { directory, args }) && args.len() > 0 && args[0] == "push"@
}

/// Whether an effect changes the repository: a rebase, a push, a checkout, or the
/// removal of a branch or a worktree.
pub open spec fn is_change(p: Path<Result<Merge, Seq<char>>>) -> bool {
    p matches Path::Do(Act::Git { directory, args }) && args.len() > 0 && (args[0] == "push"@
        || args[0] == "rebase"@ || args[0] == "checkout"@ || args[0] == "branch"@ || args[0]
        == "worktree"@)
}

proof fn lemma_commands()
    ensures
        "push"@ != "status"@,
        "push"@ != "merge-base"@,
        "push"@ != "rev-list"@,
        "push"@ != "rev-parse"@,
        "push"@ != "rebase"@,
        "push"@ != "symbolic-ref"@,
        "push"@ != "checkout"@,
        "push"@ != "branch"@,
        "push"@ != "worktree"@,
        "status"@ != "rebase"@ && "status"@ != "checkout"@ && "status"@ != "branch"@ && "status"@
            != "worktree"@,
        "merge-base"@ != "rebase"@ && "merge-base"@ != "checkout"@ && "merge-base"@ != "branch"@
            && "merge-base"@ != "worktree"@,
        "rev-list"@ != "rebase"@ && "rev-list"@ != "checkout"@ && "rev-list"@ != "branch"@
            && "rev-list"@ != "worktree"@,
        "rev-parse"@ != "rebase"@ && "rev-parse"@ != "checkout"@ && "rev-parse"@ != "branch"@
            && "rev-parse"@ != "worktree"@,
{
    reveal_strlit("push");
    reveal_strlit("status");
    reveal_strlit("merge-base");
    reveal_strlit("rev-list");
    reveal_strlit("rev-parse");
    reveal_strlit("rebase");
    reveal_strlit("symbolic-ref");
    reveal_strlit("checkout");
    reveal_strlit("branch");
    reveal_strlit("worktree");
    assert("push"@[0] == 'p' && "status"@[0] == 's' && "merge-base"@[0] == 'm' && "rev-list"@[0]
        == 'r' && "rev-parse"@[0] == 'r' && "rebase"@[0] == 'r' && "symbolic-ref"@[0] == 's'
        && "checkout"@[0] == 'c' && "branch"@[0] == 'b' && "worktree"@[0] == 'w');
    assert("rev-list"@[2] == 'v' && "rev-parse"@[2] == 'v' && "rebase"@[2] == 'b');
}

/// The first `k` replies say what the whole log says of them, and nothing of the
/// next.
pub proof fn lemma_prefix(log: Seq<Answer>, k: int)
    requires
        0 <= k <= log.len(),
    ensures
        forall|j: int|
            0 <= j < k ==> #[trigger] flow::heard(log.take(k), j) == flow::heard(log, j),
        forall|j: int| 0 <= j < k ==> #[trigger] flow::tried(log.take(k), j),
        flow::heard(log.take(k), k) is Pending,
        !flow::tried(log.take(k), k),
{
}

/// Before anything else a merge asks four times whether a rebase is in progress.
proof fn lemma_rebasing(dir: Seq<char>, log: Seq<Answer>, i: int)
    ensures
        git::rebasing(dir, log, i) matches Path::Done(Ok(false), n) ==> n == i + 4,
        git::rebasing(dir, log, i) matches Path::Done(Ok(true), n) ==> n == i + 2 || n == i + 4,
        git::rebasing(dir, log, i) matches Path::Do(Act::Git { directory, args }) ==> args.len() > 0
            && args[0] == "rev-parse"@,
{
}

/// The push is only asked for after the worktree was found clean and the target was
/// found to be an ancestor of its head.
pub proof fn law_push_is_guarded(job: MergeJob, log: Seq<Answer>)
    requires
        is_push(git::merging(job, log, 0)),
    ensures
        exists|k: int|
            0 <= k < log.len() && #[trigger] after(job, log, k) == git::in_worktree(
                job,
                git::status_args(),
            ) && git::ran_ok(git::status_args(), log, k) == Heard::<Seq<char>>::Value(Seq::empty()),
        exists|k: int|
            0 <= k < log.len() && #[trigger] after(job, log, k) == git::in_worktree(
                job,
                git::ancestor_args(job),
            ) && git::went_well(log, k),
{
    lemma_commands();
    lemma_rebasing(job.dir, log, 0);
    let n = 4int;
    assert(git::rebasing(job.dir, log, 0) matches Path::Done(Ok(false), _));
    lemma_prefix(log, n);
    lemma_rebasing(job.dir, log.take(n), 0);
    assert(after(job, log, n) == git::in_worktree(job, git::status_args()));
    let s = git::ran_ok(git::status_args(), log, n)->Value_0;
    assert(s =~= Seq::<char>::empty());
    let base = git::ran_ok(git::merge_base_args(job), log, 5)->Value_0;
    let tip = git::ran_ok(git::tip_args(job), log, 7)->Value_0;
    let k = if base == tip {
        8int
    } else {
        9int
    };
    if base != tip {
        lemma_rebasing(job.dir, log, 9);
    }
    assert(git::went_well(log, k));
    lemma_prefix(log, k);
    lemma_rebasing(job.dir, log.take(k), 0);
    assert(after(job, log, k) == git::in_worktree(job, git::ancestor_args(job)));
}

/// Where the push stands in a merge that reached it.
spec fn push_index(job: MergeJob, log: Seq<Answer>) -> int {
    let base = git::ran_ok(git::merge_base_args(job), log, 5)->Value_0;
    let tip = git::ran_ok(git::tip_args(job), log, 7)->Value_0;
    let head = if base == tip {
        9int
    } else {
        10int
    };
    let h = git::ran_ok(git::head_args(), log, head);
    if h == Heard::<Seq<char>>::Value(job.target) || (h is Failed && job.target.len() == 0) {
        head + 3
    } else {
        head + 2
    }
}

/// A merge is only reported as a success after the push went well.
pub proof fn law_success_was_pushed(job: MergeJob, log: Seq<Answer>, n: int)
    requires
        git::merging(job, log, 0) matches Path::Done(Ok(Merge::Success { .. }), m) && m == n,
    ensures
        exists|k: int|
            0 <= k < n && is_push(#[trigger] after(job, log, k)) && git::went_well(log, k),
{
    lemma_rebasing(job.dir, log, 0);
    let k = push_index(job, log);
    lemma_rebasing(job.dir, log, 9);
    assert(git::went_well(log, k));
    lemma_prefix(log, k);
    lemma_rebasing(job.dir, log.take(k), 0);
    assert(is_push(after(job, log, k)));
}

/// A worktree with uncommitted changes, or without commits to merge, is left as it
/// is: no command that changes anything is asked for before the refusal.
pub proof fn law_refusal_changes_nothing(job: MergeJob, log: Seq<Answer>, n: int, k: int)
    requires
        git::merging(job, log, 0) matches Path::Done(Ok(m), e) && e == n && (m is DirtyWorktree
            || m is NothingToMerge),
        0 <= k < n,
    ensures
        !is_change(after(job, log, k)),
{
    lemma_commands();
    lemma_rebasing(job.dir, log, 0);
    assert(n == 5 || n == 7);
    lemma_prefix(log, k);
    lemma_rebasing(job.dir, log.take(k), 0);
    if k < 4 {
        assert(git::merging(job, log.take(k), 0) matches Path::Do(a) && a
            == git::rebasing(job.dir, log.take(k), 0)->Do_0);
    }
}

/// Whether the replies before `at` lead to the push.
spec fn leads_to_push(job: MergeJob, log: Seq<Answer>, at: int) -> bool {
    let base = git::ran_ok(git::merge_base_args(job), log, 5)->Value_0;
    let raw = git::ran_ok(git::count_args(base), log, 6)->Value_0;
    let tip = git::ran_ok(git::tip_args(job), log, 7)->Value_0;
    let head = if base == tip {
        9int
    } else {
        10int
    };
    let h = git::ran_ok(git::head_args(), log, head);
    let guarded = h == Heard::<Seq<char>>::Value(job.target) || (h is Failed && job.target.len()
        == 0);
    &&& git::rebasing(job.dir, log, 0) == Path::<Result<bool, Seq<char>>>::Done(Ok(false), 4)
    &&& git::ran_ok(git::status_args(), log, 4) matches Heard::Value(s) && s.len() == 0
    &&& git::ran_ok(git::merge_base_args(job), log, 5) is Value
    &&& git::ran_ok(git::count_args(base), log, 6) is Value
    &&& git::commit_count(raw) != 0
    &&& git::ran_ok(git::tip_args(job), log, 7) is Value
    &&& base != tip ==> (git::ran(git::rebase_args(job), log, 8) matches Heard::Value(o)
        && o.success)
    &&& git::ran(git::ancestor_args(job), log, head - 1) matches Heard::Value(o) && o.success
    &&& !(h is Pending)
    &&& guarded ==> (git::ran_ok(git::status_args(), log, head + 1) matches Heard::Value(s)
        && s.len() == 0)
    &&& at == if guarded {
        head + 2
    } else {
        head + 1
    }
}

spec fn commits_of(job: MergeJob, log: Seq<Answer>) -> nat {
    let base = git::ran_ok(git::merge_base_args(job), log, 5)->Value_0;
    git::commit_count(git::ran_ok(git::count_args(base), log, 6)->Value_0)
}

proof fn lemma_push_reached(job: MergeJob, log: Seq<Answer>)
    requires
        is_push(git::merging(job, log, 0)),
    ensures
        leads_to_push(job, log, push_index(job, log) - 1),
        push_index(job, log) <= log.len(),
{
    lemma_commands();
    lemma_rebasing(job.dir, log, 0);
    lemma_rebasing(job.dir, log, 9);
}

proof fn lemma_push_follows(job: MergeJob, log: Seq<Answer>, at: int)
    requires
        leads_to_push(job, log, at),
    ensures
        git::merging(job, log, 0) == git::pushing(job, commits_of(job, log), log, at),
{
}

proof fn lemma_push_extends(job: MergeJob, log: Seq<Answer>, k: int, at: int)
    requires
        0 <= k <= log.len(),
        at <= k,
        leads_to_push(job, log.take(k), at),
    ensures
        leads_to_push(job, log, at),
{
    lemma_prefix(log, k);
    let pre = log.take(k);
    assert(forall|j: int|
        0 <= j < at ==> #[trigger] flow::heard(log, j) == flow::heard(pre, j));
    assert(git::rebasing(job.dir, log, 0) == git::rebasing(job.dir, pre, 0));
}

/// A merge uses no more replies than there are.
proof fn lemma_replies_used(job: MergeJob, log: Seq<Answer>)
    ensures
        git::merging(job, log, 0) matches Path::Done(_, n) ==> n <= log.len(),
{
    lemma_rebasing(job.dir, log, 0);
    lemma_rebasing(job.dir, log, 9);
    assert(git::rebasing(job.dir, log, 0) matches Path::Done(_, n) ==> n <= log.len());
    assert(git::rebasing(job.dir, log, 9) matches Path::Done(_, n) ==> n <= log.len());
}

/// A merge that ends in anything but a success or a failure has not moved the target:
/// the push was never asked for.
pub proof fn law_only_success_pushes(job: MergeJob, log: Seq<Answer>, n: int, k: int)
    requires
        git::merging(job, log, 0) matches Path::Done(Ok(m), e) && e == n && !(m is Success),
        0 <= k < n,
    ensures
        !is_push(after(job, log, k)),
{
    lemma_replies_used(job, log);
    if is_push(after(job, log, k)) {
        let pre = log.take(k);
        lemma_push_reached(job, pre);
        let at = push_index(job, pre) - 1;
        lemma_push_extends(job, log, k, at);
        lemma_push_follows(job, log, at);
    }
}

/// While a rebase is in progress a merge does nothing but look.
pub proof fn law_conflict_is_reported(job: MergeJob, log: Seq<Answer>)
    requires
        git::rebasing(job.dir, log, 0) matches Path::Done(Ok(true), _),
    ensures
        git::merging(job, log, 0) matches Path::Done(Ok(Merge::RebaseConflict(t)), _) && t
            == job.target,
{
}

// ---- what more replies do not change ----

/// A merge that has ended stays ended, whatever is replied later, and has used no more
/// replies than there were.
pub proof fn lemma_merge_stays(job: MergeJob, log: Seq<Answer>, i: int, k: int)
    requires
        0 <= i <= log.len(),
        0 <= k <= log.len(),
    ensures
        git::merging(job, log, i) matches Path::Done(r, n) ==> i <= n <= log.len() && (n <= k
            ==> git::merging(job, log.take(k), i) == Path::<Result<Merge, Seq<char>>>::Done(r, n)),
{
    lemma_prefix(log, k);
    lemma_rebasing_stays(job.dir, log, i, k);
    if let Path::Done(Ok(false), n) = git::rebasing(job.dir, log, i) {
        if n + 1 <= log.len() {
            lemma_measuring_stays(job, log, n + 1, k);
        }
    }
}

proof fn lemma_rebasing_stays(dir: Seq<char>, log: Seq<Answer>, i: int, k: int)
    requires
        0 <= i <= log.len(),
        0 <= k <= log.len(),
    ensures
        git::rebasing(dir, log, i) matches Path::Done(r, n) ==> i <= n <= log.len() && (n <= k
            ==> git::rebasing(dir, log.take(k), i) == Path::<Result<bool, Seq<char>>>::Done(r, n)),
{
    lemma_prefix(log, k);
}

proof fn lemma_measuring_stays(job: MergeJob, log: Seq<Answer>, i: int, k: int)
    requires
        0 <= i <= log.len(),
        0 <= k <= log.len(),
    ensures
        git::measuring(job, log, i) matches Path::Done(r, n) ==> i <= n <= log.len() && (n <= k
            ==> git::measuring(job, log.take(k), i) == Path::<Result<Merge, Seq<char>>>::Done(r, n)),
{
    lemma_prefix(log, k);
    if i + 3 <= log.len() {
        let base = git::ran_ok(git::merge_base_args(job), log, i)->Value_0;
        let commits = git::commit_count(git::ran_ok(git::count_args(base), log, i + 1)->Value_0);
        lemma_checking_stays(job, commits, log, i + 3, k);
        lemma_replaying_stays(job, commits, log, i + 3, k);
    }
}

proof fn lemma_replaying_stays(job: MergeJob, commits: nat, log: Seq<Answer>, i: int, k: int)
    requires
        0 <= i <= log.len(),
        0 <= k <= log.len(),
    ensures
        git::replaying(job, commits, log, i) matches Path::Done(r, n) ==> i <= n <= log.len() && (n
            <= k ==> git::replaying(job, commits, log.take(k), i) == Path::<
            Result<Merge, Seq<char>>,
        >::Done(r, n)),
{
    lemma_prefix(log, k);
    if i + 1 <= log.len() {
        lemma_checking_stays(job, commits, log, i + 1, k);
        lemma_rebasing_stays(job.dir, log, i + 1, k);
    }
}

proof fn lemma_checking_stays(job: MergeJob, commits: nat, log: Seq<Answer>, i: int, k: int)
    requires
        0 <= i <= log.len(),
        0 <= k <= log.len(),
    ensures
        git::checking(job, commits, log, i) matches Path::Done(r, n) ==> i <= n <= log.len() && (n
            <= k ==> git::checking(job, commits, log.take(k), i) == Path::<
            Result<Merge, Seq<char>>,
        >::Done(r, n)),
{
    lemma_prefix(log, k);
    if i + 2 <= log.len() {
        lemma_pushing_stays(job, commits, log, i + 2, k);
    }
    if i + 3 <= log.len() {
        lemma_pushing_stays(job, commits, log, i + 3, k);
    }
}

proof fn lemma_pushing_stays(job: MergeJob, commits: nat, log: Seq<Answer>, i: int, k: int)
    requires
        0 <= i <= log.len(),
        0 <= k <= log.len(),
    ensures
        git::pushing(job, commits, log, i) matches Path::Done(r, n) ==> i <= n <= log.len() && (n
            <= k ==> git::pushing(job, commits, log.take(k), i) == Path::<
            Result<Merge, Seq<char>>,
        >::Done(r, n)),
{
    lemma_prefix(log, k);
    if i + 3 <= log.len() {
        if let Heard::Value(sha) = git::ran_ok(git::sha_args(), log, i + 2) {
            lemma_cleaning_stays(job, commits, sha, log, i + 3, k);
        }
    }
}

proof fn lemma_cleaning_stays(
    job: MergeJob,
    commits: nat,
    sha: Seq<char>,
    log: Seq<Answer>,
    i: int,
    k: int,
)
    requires
        0 <= i <= log.len(),
        0 <= k <= log.len(),
    ensures
        git::cleaning(job, commits, sha, log, i) matches Path::Done(r, n) ==> i <= n <= log.len()
            && (n <= k ==> git::cleaning(job, commits, sha, log.take(k), i) == Path::<
            Result<Merge, Seq<char>>,
        >::Done(r, n)),
{
    lemma_prefix(log, k);
}

} // verus!
