//! What holds of the git commands that are asked for: which ones, where and in which
//! order, and what their output means.

use crate::application::command_laws::Saying;
use crate::application::flow::{Act, Answer, Path};
use crate::application::task_laws::Running;
use crate::connector::git;
use crate::connector::git::MergeJob;
use crate::domain::worktree::Merge;
use crate::numbers;
use crate::paths;
use crate::text;
use vstd::prelude::*;
use vstd::string::*;

verus! {

/// Where a merge stands.
pub type Merging = Path<Result<Merge, Seq<char>>>;

/// Whether a reply says that a git command went well, with this output.
pub open spec fn gave(a: Answer, stdout: Seq<char>) -> bool {
    a matches Answer::Output(o) && o.success && text::trim(o.stdout) == stdout
}

/// Whether a reply says that a git command went well.
pub open spec fn worked(a: Answer) -> bool {
    a matches Answer::Output(o) && o.success
}

/// Whether a reply says that a git command ran and failed, with this complaint.
pub open spec fn complained(a: Answer, stderr: Seq<char>) -> bool {
    a matches Answer::Output(o) && !o.success && text::trim(o.stderr) == stderr
}

// ---- making a worktree ----

/// A worktree is made from the project: the directory around it is made sure of, and git
/// adds the worktree there, on the branch of its name and from the base that was given,
/// or from the head. A base that was given is looked at first.
pub proof fn law_creation_steps(
    project: Seq<char>,
    dir: Seq<char>,
    slug: Seq<char>,
    base: Option<Seq<char>>,
    log: Seq<Answer>,
    i: int,
)
    requires
        0 <= i <= log.len(),
        base is Some && log.len() > i ==> worked(log[i]),
        base is Some && log.len() > i + 1 ==> log[i + 1] is Done,
        base is None && log.len() > i ==> log[i] is Done,
        base is None && log.len() > i + 1 ==> worked(log[i + 1]),
        base is Some && log.len() > i + 2 ==> worked(log[i + 2]),
    ensures
        ({
            let path = git::creating(project, dir, slug, base, log, i);
            let k = log.len() - i;
            let checked = if base is Some {
                1int
            } else {
                0int
            };
            let from = match base {
                Some(b) => b,
                None => "HEAD"@,
            };
            &&& k == 0 ==> (base matches Some(b) ==> path == Running::Do(
                Act::Git {
                    directory: project,
                    args: seq!["check-ref-format"@, "--branch"@, b],
                },
            ))
            &&& k == checked ==> path == Running::Do(Act::CreateParent { path: dir })
            &&& k == checked + 1 ==> path == Running::Do(
                Act::Git {
                    directory: project,
                    args: seq!["worktree"@, "add"@, dir, "-B"@, "lily/"@ + slug, from],
                },
            )
            &&& k >= checked + 2 ==> path == Running::Done(Ok(()), i + checked + 2)
        }),
{
}

/// A base that is no branch name is refused by name before anything is made, and what
/// git complains about when it cannot add the worktree is handed on.
pub proof fn law_creation_fails(
    project: Seq<char>,
    dir: Seq<char>,
    slug: Seq<char>,
    base: Seq<char>,
    complaint: Seq<char>,
    log: Seq<Answer>,
    i: int,
)
    requires
        0 <= i < log.len(),
    ensures
        complained(log[i], complaint) ==> git::creating(project, dir, slug, Some(base), log, i)
            == Running::Done(Err("invalid base branch: "@ + base), i + 1),
        log[i] is Done && i + 1 < log.len() && complained(log[i + 1], complaint) ==> (git::creating(
            project,
            dir,
            slug,
            None,
            log,
            i,
        ) matches Path::Done(Err(e), n) && n == i + 2 && complaint.is_suffix_of(e)),
{
    let args = git::add_args(dir, slug, "HEAD"@);
    let e = "git "@ + text::quoted_list(args) + " failed: "@ + complaint;
    assert(e.subrange(e.len() - complaint.len(), e.len() as int) =~= complaint);
    assert(complaint.is_suffix_of(e));
}

// ---- the default branch ----

/// The branch to merge into, where none is named, is the one that the remote's head
/// names; without a remote it is `main`, else `master`, whichever is there, and else the
/// branch that is checked out.
pub proof fn law_default_branch(
    project: Seq<char>,
    name: Seq<char>,
    head: Seq<char>,
    log: Seq<Answer>,
    i: int,
)
    requires
        0 <= i <= log.len(),
    ensures
        ({
            let path = git::finding_default(project, log, i);
            let k = log.len() - i;
            &&& k == 0 ==> path == Saying::Do(
                Act::Git {
                    directory: project,
                    args: seq!["symbolic-ref"@, "--short"@, "refs/remotes/origin/HEAD"@],
                },
            )
            &&& k >= 1 && gave(log[i], "origin/"@ + name) ==> path == Saying::Done(
                Ok(name),
                i + 1,
            )
            &&& k >= 1 && (log[i] matches Answer::Output(o) && !o.success) ==> {
                &&& k == 1 ==> path == Saying::Do(
                    Act::Git {
                        directory: project,
                        args: seq!["show-ref"@, "--verify"@, "refs/heads/"@ + "main"@],
                    },
                )
                &&& k >= 2 && worked(log[i + 1]) ==> path == Saying::Done(Ok("main"@), i + 2)
                &&& k >= 2 && (log[i + 1] matches Answer::Output(o) && !o.success) ==> {
                    &&& k == 2 ==> path == Saying::Do(
                        Act::Git {
                            directory: project,
                            args: seq!["show-ref"@, "--verify"@, "refs/heads/"@ + "master"@],
                        },
                    )
                    &&& k >= 3 && worked(log[i + 2]) ==> path == Saying::Done(
                        Ok("master"@),
                        i + 3,
                    )
                    &&& k >= 3 && (log[i + 2] matches Answer::Output(o) && !o.success) ==> {
                        &&& k == 3 ==> path == Saying::Do(
                            Act::Git {
                                directory: project,
                                args: seq!["symbolic-ref"@, "--short"@, "HEAD"@],
                            },
                        )
                        &&& k >= 4 && gave(log[i + 3], head) ==> path == Saying::Done(
                            Ok(head),
                            i + 4,
                        )
                    }
                }
            }
        }),
{
    let whole = "origin/"@ + name;
    assert(whole.take("origin/"@.len() as int) =~= "origin/"@);
    assert(whole.skip("origin/"@.len() as int) =~= name);
}

// ---- merging ----

/// A merge begins with a look for a rebase that was left unfinished, in the worktree
/// itself: for the state of either kind of rebase. If there is one, that is reported,
/// and nothing else is asked for.
pub proof fn law_merge_looks_for_rebase(
    job: MergeJob,
    one: Seq<char>,
    two: Seq<char>,
    log: Seq<Answer>,
    i: int,
)
    requires
        0 <= i <= log.len(),
        log.len() > i ==> gave(log[i], one),
        log.len() > i + 1 ==> log[i + 1] is Flag,
        log.len() > i + 2 ==> gave(log[i + 2], two),
        log.len() > i + 3 ==> log[i + 3] is Flag,
    ensures
        ({
            let path = git::merging(job, log, i);
            let k = log.len() - i;
            &&& k == 0 ==> path == Merging::Do(
                Act::Git {
                    directory: job.dir,
                    args: seq!["rev-parse"@, "--git-path"@, "rebase-merge"@],
                },
            )
            &&& k == 1 ==> path == Merging::Do(Act::PathExists { path: paths::joined(job.dir, one) })
            &&& k >= 2 && log[i + 1] == Answer::Flag(true) ==> path == Merging::Done(
                Ok(Merge::RebaseConflict(job.target)),
                i + 2,
            )
            &&& k >= 2 && log[i + 1] == Answer::Flag(false) ==> {
                &&& k == 2 ==> path == Merging::Do(
                    Act::Git {
                        directory: job.dir,
                        args: seq!["rev-parse"@, "--git-path"@, "rebase-apply"@],
                    },
                )
                &&& k == 3 ==> path == Merging::Do(
                    Act::PathExists { path: paths::joined(job.dir, two) },
                )
                &&& k >= 4 && log[i + 3] == Answer::Flag(true) ==> path == Merging::Done(
                    Ok(Merge::RebaseConflict(job.target)),
                    i + 4,
                )
                &&& k == 4 && log[i + 3] == Answer::Flag(false) ==> path == Merging::Do(
                    Act::Git { directory: job.dir, args: seq!["status"@, "--porcelain"@] },
                )
            }
        }),
{
}

/// Whether no rebase was left unfinished, as the first four replies say.
pub open spec fn no_rebase(log: Seq<Answer>, i: int) -> bool {
    &&& 0 <= i
    &&& i + 4 <= log.len()
    &&& worked(log[i])
    &&& log[i + 1] == Answer::Flag(false)
    &&& worked(log[i + 2])
    &&& log[i + 3] == Answer::Flag(false)
}

/// A worktree with changes that are not committed is not merged; a clean one is measured
/// against the target: without commits of its own there is nothing to merge, otherwise
/// they are rebased where the target has moved on since, and only there.
pub proof fn law_merge_measures(
    job: MergeJob,
    base: Seq<char>,
    count: Seq<char>,
    tip: Seq<char>,
    log: Seq<Answer>,
    i: int,
)
    requires
        no_rebase(log, i),
        log.len() > i + 5 ==> gave(log[i + 5], base),
        log.len() > i + 6 ==> gave(log[i + 6], count),
        log.len() > i + 7 ==> gave(log[i + 7], tip),
    ensures
        ({
            let path = git::merging(job, log, i);
            let k = log.len() - i;
            &&& k >= 5 ==> (log[i + 4] matches Answer::Output(o) ==> (o.success && text::trim(
                o.stdout,
            ).len() > 0 ==> path == Merging::Done(Ok(Merge::DirtyWorktree), i + 5)))
            &&& k >= 5 && gave(log[i + 4], Seq::empty()) ==> {
                &&& k == 5 ==> path == Merging::Do(
                    Act::Git {
                        directory: job.dir,
                        args: seq!["merge-base"@, "HEAD"@, job.target],
                    },
                )
                &&& k == 6 ==> path == Merging::Do(
                    Act::Git {
                        directory: job.dir,
                        args: seq!["rev-list"@, "--count"@, base + "..HEAD"@],
                    },
                )
                &&& k >= 7 && numbers::unsigned_value(count, u64::MAX as nat) == Ok::<
                    nat,
                    numbers::IntError,
                >(0) ==> path == Merging::Done(Ok(Merge::NothingToMerge), i + 7)
                &&& k >= 7 ==> (numbers::unsigned_value(count, u64::MAX as nat) matches Ok(c)
                    ==> c > 0 ==> {
                    &&& k == 7 ==> path == Merging::Do(
                        Act::Git { directory: job.dir, args: seq!["rev-parse"@, job.target] },
                    )
                    &&& k == 8 && base != tip ==> path == Merging::Do(
                        Act::Git { directory: job.dir, args: seq!["rebase"@, job.target] },
                    )
                    &&& k == 8 && base == tip ==> path == Merging::Do(
                        Act::Git {
                            directory: job.dir,
                            args: seq!["merge-base"@, "--is-ancestor"@, job.target, "HEAD"@],
                        },
                    )
                    &&& k >= 8 && base == tip ==> path == git::checking(job, c, log, i + 8)
                    &&& k >= 9 && base != tip && worked(log[i + 8]) ==> path == git::checking(
                        job,
                        c,
                        log,
                        i + 9,
                    )
                })
            }
        }),
{
    assert(text::trim(Seq::<char>::empty()).len() == 0) by {
        text::lemma_trim_blank(Seq::<char>::empty());
    }
}

/// A rebase that stopped is a conflict exactly where git is left in the middle of it;
/// otherwise it failed, and git's complaint is handed on.
pub proof fn law_stopped_rebase(
    job: MergeJob,
    commits: nat,
    complaint: Seq<char>,
    log: Seq<Answer>,
    i: int,
)
    requires
        0 <= i,
        i + 5 <= log.len(),
        complained(log[i], complaint),
        worked(log[i + 1]),
        log[i + 2] is Flag,
        worked(log[i + 3]),
        log[i + 4] is Flag,
    ensures
        log[i + 2] == Answer::Flag(true) ==> git::replaying(job, commits, log, i) == Merging::Done(
            Ok(Merge::RebaseConflict(job.target)),
            i + 3,
        ),
        log[i + 2] == Answer::Flag(false) && log[i + 4] == Answer::Flag(true) ==> git::replaying(
            job,
            commits,
            log,
            i,
        ) == Merging::Done(Ok(Merge::RebaseConflict(job.target)), i + 5),
        log[i + 2] == Answer::Flag(false) && log[i + 4] == Answer::Flag(false) ==> git::replaying(
            job,
            commits,
            log,
            i,
        ) == Merging::Done(Err("rebase failed: "@ + complaint), i + 5),
{
}

/// Before the target moves, it has to be an ancestor of the worktree's head, and where
/// it is checked out in the project it has to be clean there; then the head is pushed to
/// the target in the project's own repository.
pub proof fn law_push_steps(
    job: MergeJob,
    commits: nat,
    head: Seq<char>,
    common: Seq<char>,
    log: Seq<Answer>,
    i: int,
)
    requires
        0 <= i <= log.len(),
        log.len() > i + 1 ==> gave(log[i + 1], head),
        head == job.target && log.len() > i + 3 ==> gave(log[i + 3], common),
        head != job.target && log.len() > i + 2 ==> gave(log[i + 2], common),
    ensures
        ({
            let path = git::checking(job, commits, log, i);
            let k = log.len() - i;
            let guarded = if head == job.target {
                3int
            } else {
                2int
            };
            &&& k == 0 ==> path == Merging::Do(
                Act::Git {
                    directory: job.dir,
                    args: seq!["merge-base"@, "--is-ancestor"@, job.target, "HEAD"@],
                },
            )
            &&& k >= 1 && (log[i] matches Answer::Output(o) && !o.success) ==> path == Merging::Done(
                Err("merge would not be a fast-forward after rebase"@),
                i + 1,
            )
            &&& k >= 1 && worked(log[i]) ==> {
                &&& k == 1 ==> path == Merging::Do(
                    Act::Git {
                        directory: job.repo,
                        args: seq!["symbolic-ref"@, "--short"@, "HEAD"@],
                    },
                )
                &&& k == 2 && head == job.target ==> path == Merging::Do(
                    Act::Git { directory: job.repo, args: seq!["status"@, "--porcelain"@] },
                )
                &&& k >= 3 && head == job.target ==> (log[i + 2] matches Answer::Output(o)
                    ==> (o.success && text::trim(o.stdout).len() > 0 ==> path == Merging::Done(
                    Ok(Merge::TargetDirty(job.target)),
                    i + 3,
                )))
                &&& head != job.target || (k >= 3 && gave(log[i + 2], Seq::empty())) ==> {
                    &&& k == guarded ==> path == Merging::Do(
                        Act::Git {
                            directory: job.dir,
                            args: seq!["rev-parse"@, "--git-common-dir"@],
                        },
                    )
                    &&& k == guarded + 1 ==> path == Merging::Do(
                        Act::Git {
                            directory: job.dir,
                            args: seq![
                                "push"@,
                                "--receive-pack=git -c receive.denyCurrentBranch=updateInstead receive-pack"@,
                                paths::joined(job.dir, common),
                                "HEAD:"@ + job.target,
                            ],
                        },
                    )
                    &&& k > guarded + 1 ==> path == git::pushing(job, commits, log, i + guarded)
                }
            }
        }),
{
    assert(text::trim(Seq::<char>::empty()).len() == 0) by {
        text::lemma_trim_blank(Seq::<char>::empty());
    }
}

/// After the push the worktree is taken apart: its head leaves the branch, the branch is
/// deleted and the worktree removed, by force where it has to be, and what is left of it
/// is pruned. The merge is then reported with its commits and where the target is, and
/// with what could not be cleaned up, and only that.
pub proof fn law_cleanup_steps(
    job: MergeJob,
    commits: nat,
    sha: Seq<char>,
    log: Seq<Answer>,
    i: int,
)
    requires
        0 <= i,
        i + 2 <= log.len(),
        worked(log[i]),
        worked(log[i + 1]),
        log.len() > i + 2 ==> gave(log[i + 2], sha),
        log.len() > i + 5 ==> log[i + 5] is Output,
    ensures
        ({
            let path = git::pushing(job, commits, log, i);
            let k = log.len() - i;
            let forced = k > 5 && !worked(log[i + 5]);
            let removed = if forced {
                7int
            } else {
                6int
            };
            &&& k == 2 ==> path == Merging::Do(
                Act::Git { directory: job.dir, args: seq!["rev-parse"@, "--short"@, "HEAD"@] },
            )
            &&& k == 3 ==> path == Merging::Do(
                Act::Git { directory: job.dir, args: seq!["checkout"@, "--detach"@, job.target] },
            )
            &&& k == 4 ==> path == Merging::Do(
                Act::Git { directory: job.repo, args: seq!["branch"@, "-D"@, job.branch] },
            )
            &&& k == 5 ==> path == Merging::Do(
                Act::Git { directory: job.repo, args: seq!["worktree"@, "remove"@, job.dir] },
            )
            &&& k == 6 && forced ==> path == Merging::Do(
                Act::Git {
                    directory: job.repo,
                    args: seq!["worktree"@, "remove"@, "--force"@, job.dir],
                },
            )
            &&& k == removed && k >= 6 ==> path == Merging::Do(
                Act::Git { directory: job.repo, args: seq!["worktree"@, "prune"@] },
            )
            &&& k > removed && k > 6 ==> {
                let kept_branch = !worked(log[i + 4]);
                let kept_tree = forced && !worked(log[i + 6]);
                path matches Path::Done(Ok(Merge::Success { target, branch, commits: c, sha: s, warning }), n)
                    && n == i + removed + 1 && target == job.target && branch == job.branch && c
                    == commits && s == sha && (warning is None <==> !kept_branch && !kept_tree) && (
                kept_branch && !kept_tree ==> warning == Some(
                    "could not delete branch `"@ + job.branch + "`"@,
                )) && (!kept_branch && kept_tree ==> warning == Some(
                    "could not remove worktree `"@ + job.dir + "`"@,
                )) && (kept_branch && kept_tree ==> warning == Some(
                    "could not delete branch `"@ + job.branch + "`"@ + "; "@ + (
                    "could not remove worktree `"@ + job.dir + "`"@),
                ))
            }
        }),
{
}

/// The merge of a slug works on the branch that carries its name.
pub proof fn law_job_is_of_the_slug(
    dir: Seq<char>,
    repo: Seq<char>,
    slug: Seq<char>,
    target: Seq<char>,
)
    ensures
        git::job_of(dir, repo, slug, target) == (MergeJob {
            dir,
            repo,
            branch: "lily/"@ + slug,
            target,
        }),
{
}

// ---- the worktrees that git knows ----

/// Whether a line says nothing of where a worktree is or what is checked out in it.
pub open spec fn is_silent(line: Seq<char>) -> bool {
    &&& !text::starts_with(line, "worktree "@)
    &&& !text::starts_with(line, "branch "@)
    &&& line != "detached"@
}

proof fn lemma_silent(lines: Seq<Seq<char>>, more: Seq<Seq<char>>)
    requires
        forall|i: int| 0 <= i < more.len() ==> is_silent(#[trigger] more[i]),
    ensures
        git::list_fold(lines + more) == git::list_fold(lines),
    decreases more.len(),
{
    if more.len() == 0 {
        assert(lines + more =~= lines);
    } else {
        let init = more.drop_last();
        assert forall|i: int| 0 <= i < init.len() implies is_silent(#[trigger] init[i]) by {
            assert(init[i] == more[i]);
        }
        lemma_silent(lines, init);
        assert((lines + more).drop_last() =~= lines + init);
        assert((lines + more).last() == more.last());
        assert(is_silent(more[more.len() - 1]));
    }
}

/// Every worktree that git lists is found with its path and its branch, in order, and
/// what was found before it stays: lines about other things change nothing, and a
/// worktree without a branch is shown as detached.
pub proof fn law_listed_worktree_is_found(
    before: Seq<Seq<char>>,
    path: Seq<char>,
    between: Seq<Seq<char>>,
    branch: Seq<char>,
)
    requires
        forall|i: int| 0 <= i < between.len() ==> is_silent(#[trigger] between[i]),
        !text::starts_with(branch, "refs/heads/"@),
    ensures
        git::list_fold(
            (before.push("worktree "@ + path) + between).push("branch "@ + ("refs/heads/"@ + branch)),
        ).found == git::list_fold(before).found.push((path, branch)),
        git::list_fold((before.push("worktree "@ + path) + between).push("detached"@)).found
            == git::list_fold(before).found.push((path, "(detached)"@)),
{
    reveal_strlit("worktree ");
    reveal_strlit("branch ");
    reveal_strlit("detached");
    reveal_strlit("refs/heads/");
    let opened = before.push("worktree "@ + path);
    assert(opened.drop_last() =~= before);
    lemma_prefix_of("worktree "@, path);
    lemma_silent(opened, between);
    let st = git::list_fold(opened);
    assert(st.path == Some(path));
    let named = "branch "@ + ("refs/heads/"@ + branch);
    lemma_prefix_of("branch "@, "refs/heads/"@ + branch);
    lemma_prefix_of("refs/heads/"@, branch);
    assert(named[0] == 'b');
    assert("worktree "@[0] == 'w' && "detached"@[0] == 'd' && "branch "@[0] == 'b');
    assert(!text::starts_with(named, "worktree "@)) by {
        assert(named.take("worktree "@.len() as int)[0] == 'b');
    }
    assert(!text::starts_with("detached"@, "worktree "@));
    assert(!text::starts_with("detached"@, "branch "@)) by {
        assert("detached"@.take("branch "@.len() as int)[0] == 'd');
    }
    let a = (opened + between).push(named);
    let b = (opened + between).push("detached"@);
    assert(a.drop_last() =~= opened + between && a.last() == named);
    assert(b.drop_last() =~= opened + between && b.last() == "detached"@);
    assert(text::trim_start_matches("refs/heads/"@ + branch, "refs/heads/"@) == branch) by {
        reveal_with_fuel(text::trim_start_matches, 3);
    }
}

proof fn lemma_prefix_of(p: Seq<char>, rest: Seq<char>)
    ensures
        text::after_prefix(p + rest, p) == Some(rest),
        text::starts_with(p + rest, p),
{
    assert((p + rest).take(p.len() as int) =~= p);
    assert((p + rest).skip(p.len() as int) =~= rest);
}

} // verus!
