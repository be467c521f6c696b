//! The worktree lifecycle (create, rebase-merge, list) as a conversation with git.
//! Naming rules and outcome types live in `domain::worktree`.

use crate::application::flow;
use crate::application::flow::{Act, Answer, Effect, Flow, GitOutput, Got, Heard, Path, Ran, Reply};
use crate::domain::worktree;
use crate::domain::worktree::{Merge, MergeOutcome};
use crate::numbers;
use crate::paths;
use crate::text;
use vstd::prelude::*;
use vstd::string::*;

verus! {

// ---- one command ----

/// The reply to a git command; one that could not be started is a failure.
pub open spec fn ran(args: Seq<Seq<char>>, log: Seq<Answer>, i: int) -> Heard<GitOutput> {
    match flow::heard_output(log, i) {
        Heard::Failed(e) => Heard::Failed(
            flow::context("failed to spawn git "@ + text::quoted_list(args), e),
        ),
        h => h,
    }
}

/// The trimmed output of a git command; one that ends badly is a failure.
pub open spec fn ran_ok(args: Seq<Seq<char>>, log: Seq<Answer>, i: int) -> Heard<Seq<char>> {
    match ran(args, log, i) {
        Heard::Pending => Heard::Pending,
        Heard::Failed(e) => Heard::Failed(e),
        Heard::Value(o) => if o.success {
            Heard::Value(text::trim(o.stdout))
        } else {
            Heard::Failed("git "@ + text::quoted_list(args) + " failed: "@ + text::trim(o.stderr))
        },
    }
}

/// The reply to a git command that ended, from what it wrote.
pub fn output_reply(success: bool, stdout: &Vec<u8>, stderr: &Vec<u8>) -> (r: Reply)
    ensures
        r@ == Answer::Output(
            (GitOutput {
                success,
                stdout: text::lossy(stdout@),
                stderr: text::lossy(stderr@),
            }),
        ),
        vstd::utf8::valid_utf8(stdout@) ==> text::lossy(stdout@) == vstd::utf8::decode_utf8(stdout@),
        vstd::utf8::valid_utf8(stderr@) ==> text::lossy(stderr@) == vstd::utf8::decode_utf8(stderr@),
{
    Reply::Output {
        success,
        stdout: text::decode_lossy(stdout),
        stderr: text::decode_lossy(stderr),
    }
}

fn git(args: &Vec<String>, log: &Vec<Reply>, i: usize) -> (r: Got<Ran>)
    ensures
        flow::is_heard(
            r,
            ran(text::texts(args@), flow::answers(log@), i as int),
            |t: Ran, v: GitOutput| t@ == v,
            log@,
            i as int,
        ),
{
    match flow::got_output(log, i) {
        Got::Failed(e) => {
            let what = "failed to spawn git ".to_owned().concat(text::quote_list(args).as_str());
            Got::Failed(flow::with_context(what.as_str(), e.as_str()))
        },
        got => got,
    }
}

fn git_ok(args: &Vec<String>, log: &Vec<Reply>, i: usize) -> (r: Got<String>)
    ensures
        flow::is_heard(
            r,
            ran_ok(text::texts(args@), flow::answers(log@), i as int),
            |t: String, v: Seq<char>| t@ == v,
            log@,
            i as int,
        ),
{
    match git(args, log, i) {
        Got::Pending => Got::Pending,
        Got::Failed(e) => Got::Failed(e),
        Got::Value(o) => if o.success {
            Got::Value(text::trimmed(o.stdout.as_str()))
        } else {
            Got::Failed(
                "git ".to_owned().concat(text::quote_list(args).as_str()).concat(" failed: ").concat(
                    text::trimmed(o.stderr.as_str()).as_str(),
                ),
            )
        },
    }
}

fn args2(a: &str, b: &str) -> (r: Vec<String>)
    ensures
        text::texts(r@) == seq![a@, b@],
{
    let mut v: Vec<String> = Vec::new();
    v.push(a.to_owned());
    v.push(b.to_owned());
    proof {
        assert(text::texts(v@) =~= seq![a@, b@]);
    }
    v
}

fn args3(a: &str, b: &str, c: &str) -> (r: Vec<String>)
    ensures
        text::texts(r@) == seq![a@, b@, c@],
{
    let mut v = args2(a, b);
    let ghost before = text::texts(v@);
    v.push(c.to_owned());
    proof {
        assert(text::texts(v@) =~= before.push(c@));
        assert(before.push(c@) =~= seq![a@, b@, c@]);
    }
    v
}

fn args4(a: &str, b: &str, c: &str, d: &str) -> (r: Vec<String>)
    ensures
        text::texts(r@) == seq![a@, b@, c@, d@],
{
    let mut v = args3(a, b, c);
    let ghost before = text::texts(v@);
    v.push(d.to_owned());
    proof {
        assert(text::texts(v@) =~= before.push(d@));
        assert(before.push(d@) =~= seq![a@, b@, c@, d@]);
    }
    v
}

fn args6(a: &str, b: &str, c: &str, d: &str, e: &str, f: &str) -> (r: Vec<String>)
    ensures
        text::texts(r@) == seq![a@, b@, c@, d@, e@, f@],
{
    let mut v = args4(a, b, c, d);
    let ghost before = text::texts(v@);
    v.push(e.to_owned());
    v.push(f.to_owned());
    proof {
        assert(text::texts(v@) =~= before.push(e@).push(f@));
        assert(before.push(e@).push(f@) =~= seq![a@, b@, c@, d@, e@, f@]);
    }
    v
}

fn run_git(directory: &str, args: Vec<String>) -> (r: Effect)
    ensures
        r@ == (Act::Git { directory: directory@, args: text::texts(args@) }),
{
    Effect::Git { directory: directory.to_owned(), args }
}

// ---- creating ----

pub open spec fn check_ref_args(base: Seq<char>) -> Seq<Seq<char>> {
    seq!["check-ref-format"@, "--branch"@, base]
}

pub open spec fn add_args(dir: Seq<char>, slug: Seq<char>, base: Seq<char>) -> Seq<Seq<char>> {
    seq!["worktree"@, "add"@, dir, "-B"@, worktree::branch_of(slug), base]
}

pub open spec fn base_or_head(base: Option<Seq<char>>) -> Seq<char> {
    match base {
        Some(b) => b,
        None => "HEAD"@,
    }
}

pub open spec fn adding(
    project: Seq<char>,
    dir: Seq<char>,
    slug: Seq<char>,
    base: Option<Seq<char>>,
    log: Seq<Answer>,
    i: int,
) -> Path<Result<(), Seq<char>>> {
    match flow::heard_done(log, i) {
        Heard::Pending => Path::Do(Act::CreateParent { path: dir }),
        Heard::Failed(e) => Path::Done(Err(e), i + 1),
        Heard::Value(_) => {
            let args = add_args(dir, slug, base_or_head(base));
            match ran_ok(args, log, i + 1) {
                Heard::Pending => Path::Do(Act::Git { directory: project, args }),
                Heard::Failed(e) => Path::Done(Err(e), i + 2),
                Heard::Value(_) => Path::Done(Ok(()), i + 2),
            }
        },
    }
}

/// Creating a worktree: an explicit base is checked first, then the directory that
/// holds the worktree is made, and then the worktree.
pub open spec fn creating(
    project: Seq<char>,
    dir: Seq<char>,
    slug: Seq<char>,
    base: Option<Seq<char>>,
    log: Seq<Answer>,
    i: int,
) -> Path<Result<(), Seq<char>>> {
    match base {
        Some(explicit) => match ran_ok(check_ref_args(explicit), log, i) {
            Heard::Pending => Path::Do(
                Act::Git { directory: project, args: check_ref_args(explicit) },
            ),
            Heard::Failed(_) => Path::Done(Err("invalid base branch: "@ + explicit), i + 1),
            Heard::Value(_) => adding(project, dir, slug, base, log, i + 1),
        },
        None => adding(project, dir, slug, base, log, i),
    }
}

/// Create a worktree on a fresh branch. `base_ref` defaults to HEAD so the branch can
/// start from unpushed commits.
pub fn create_worktree(
    project_directory: &str,
    worktree_dir: &str,
    slug: &str,
    base_ref: &Option<String>,
    log: &Vec<Reply>,
    from: usize,
) -> (r: Flow<Result<(), String>>)
    ensures
        flow::at_unit(r) == creating(
            project_directory@,
            worktree_dir@,
            slug@,
            text::opt_view(*base_ref),
            flow::answers(log@),
            from as int,
        ),
        r matches Flow::Done(_, n) ==> n <= log@.len(),
{
    let mut i: usize = from;
    if let Some(explicit) = base_ref {
        let args = args3("check-ref-format", "--branch", explicit.as_str());
        match git_ok(&args, log, i) {
            Got::Pending => return Flow::Do(run_git(project_directory, args)),
            Got::Failed(_) => return Flow::Done(
                Err("invalid base branch: ".to_owned().concat(explicit.as_str())),
                i + 1,
            ),
            Got::Value(_) => {},
        }
        i = i + 1;
    }
    match flow::got_done(log, i) {
        Got::Pending => return Flow::Do(Effect::CreateParent { path: worktree_dir.to_owned() }),
        Got::Failed(e) => return Flow::Done(Err(e), i + 1),
        Got::Value(_) => {},
    }
    let base = match base_ref {
        Some(b) => b.as_str(),
        None => "HEAD",
    };
    let branch = worktree::branch_name(slug);
    let args = args6("worktree", "add", worktree_dir, "-B", branch.as_str(), base);
    match git_ok(&args, log, i + 1) {
        Got::Pending => Flow::Do(run_git(project_directory, args)),
        Got::Failed(e) => Flow::Done(Err(e), i + 2),
        Got::Value(_) => Flow::Done(Ok(()), i + 2),
    }
}

// ---- the default branch ----

pub open spec fn remote_head_args() -> Seq<Seq<char>> {
    seq!["symbolic-ref"@, "--short"@, "refs/remotes/origin/HEAD"@]
}

pub open spec fn head_args() -> Seq<Seq<char>> {
    seq!["symbolic-ref"@, "--short"@, "HEAD"@]
}

pub open spec fn show_ref_args(branch: Seq<char>) -> Seq<Seq<char>> {
    seq!["show-ref"@, "--verify"@, "refs/heads/"@ + branch]
}

/// The branch that the remote calls its head, if it is known.
pub open spec fn remote_head(h: Heard<Seq<char>>) -> Option<Seq<char>> {
    match h {
        Heard::Value(s) => text::after_prefix(s, "origin/"@),
        _ => None,
    }
}

pub open spec fn checked_out(project: Seq<char>, log: Seq<Answer>, i: int) -> Path<
    Result<Seq<char>, Seq<char>>,
> {
    match ran_ok(head_args(), log, i) {
        Heard::Pending => Path::Do(Act::Git { directory: project, args: head_args() }),
        Heard::Failed(e) => Path::Done(Err(e), i + 1),
        Heard::Value(s) => Path::Done(Ok(s), i + 1),
    }
}

/// `name` if it is a branch, else what follows.
pub open spec fn branch_or(
    project: Seq<char>,
    name: Seq<char>,
    log: Seq<Answer>,
    i: int,
    otherwise: Path<Result<Seq<char>, Seq<char>>>,
) -> Path<Result<Seq<char>, Seq<char>>> {
    match ran(show_ref_args(name), log, i) {
        Heard::Pending => Path::Do(Act::Git { directory: project, args: show_ref_args(name) }),
        Heard::Failed(e) => Path::Done(Err(e), i + 1),
        Heard::Value(o) => if o.success {
            Path::Done(Ok(name), i + 1)
        } else {
            otherwise
        },
    }
}

/// The default branch: the remote's head if it is configured, else `main` or
/// `master` if there is one, else what is checked out.
pub open spec fn finding_default(project: Seq<char>, log: Seq<Answer>, i: int) -> Path<
    Result<Seq<char>, Seq<char>>,
> {
    let h = ran_ok(remote_head_args(), log, i);
    if h is Pending {
        Path::Do(Act::Git { directory: project, args: remote_head_args() })
    } else {
        match remote_head(h) {
            Some(name) => Path::Done(Ok(name), i + 1),
            None => {
                let last = checked_out(project, log, i + 3);
                let second = branch_or(project, "master"@, log, i + 2, last);
                branch_or(project, "main"@, log, i + 1, second)
            },
        }
    }
}

pub fn default_branch(project_directory: &str, log: &Vec<Reply>, from: usize) -> (r: Flow<
    Result<String, String>,
>)
    ensures
        flow::at_text(r) == finding_default(
            project_directory@,
            flow::answers(log@),
            from as int,
        ),
        r matches Flow::Done(_, n) ==> n <= log@.len(),
{
    let args = args3("symbolic-ref", "--short", "refs/remotes/origin/HEAD");
    match git_ok(&args, log, from) {
        Got::Pending => return Flow::Do(run_git(project_directory, args)),
        Got::Failed(_) => {},
        Got::Value(s) => {
            if let Some(name) = text::strip_prefix(s.as_str(), "origin/") {
                return Flow::Done(Ok(name), from + 1);
            }
        },
    }
    let i: usize = from + 1;
    let args = args3("show-ref", "--verify", "refs/heads/".to_owned().concat("main").as_str());
    match git(&args, log, i) {
        Got::Pending => return Flow::Do(run_git(project_directory, args)),
        Got::Failed(e) => return Flow::Done(Err(e), i + 1),
        Got::Value(o) => {
            if o.success {
                return Flow::Done(Ok("main".to_owned()), i + 1);
            }
        },
    }
    let i: usize = i + 1;
    let args = args3("show-ref", "--verify", "refs/heads/".to_owned().concat("master").as_str());
    match git(&args, log, i) {
        Got::Pending => return Flow::Do(run_git(project_directory, args)),
        Got::Failed(e) => return Flow::Done(Err(e), i + 1),
        Got::Value(o) => {
            if o.success {
                return Flow::Done(Ok("master".to_owned()), i + 1);
            }
        },
    }
    let i: usize = i + 1;
    let args = args3("symbolic-ref", "--short", "HEAD");
    match git_ok(&args, log, i) {
        Got::Pending => Flow::Do(run_git(project_directory, args)),
        Got::Failed(e) => Flow::Done(Err(e), i + 1),
        Got::Value(s) => Flow::Done(Ok(s), i + 1),
    }
}

// ---- merging ----

pub open spec fn git_path_args(kind: Seq<char>) -> Seq<Seq<char>> {
    seq!["rev-parse"@, "--git-path"@, kind]
}

/// Whether git keeps a state of the given kind for the worktree.
pub open spec fn state_exists(dir: Seq<char>, kind: Seq<char>, log: Seq<Answer>, i: int) -> Path<
    Result<bool, Seq<char>>,
> {
    match ran_ok(git_path_args(kind), log, i) {
        Heard::Pending => Path::Do(Act::Git { directory: dir, args: git_path_args(kind) }),
        Heard::Failed(e) => Path::Done(Err(e), i + 1),
        Heard::Value(p) => match flow::heard_flag(log, i + 1) {
            Heard::Pending => Path::Do(Act::PathExists { path: paths::joined(dir, p) }),
            Heard::Failed(e) => Path::Done(Err(e), i + 2),
            Heard::Value(b) => Path::Done(Ok(b), i + 2),
        },
    }
}

/// Whether a rebase is in progress in the worktree.
pub open spec fn rebasing(dir: Seq<char>, log: Seq<Answer>, i: int) -> Path<
    Result<bool, Seq<char>>,
> {
    match state_exists(dir, "rebase-merge"@, log, i) {
        Path::Done(Ok(false), n) => state_exists(dir, "rebase-apply"@, log, n),
        p => p,
    }
}

fn state_found(dir: &str, kind: &str, log: &Vec<Reply>, i: usize) -> (r: Flow<Result<bool, String>>)
    ensures
        flow::at_bool(r) == state_exists(dir@, kind@, flow::answers(log@), i as int),
        r matches Flow::Done(_, n) ==> n <= log@.len(),
{
    let args = args3("rev-parse", "--git-path", kind);
    let path = match git_ok(&args, log, i) {
        Got::Pending => return Flow::Do(run_git(dir, args)),
        Got::Failed(e) => return Flow::Done(Err(e), i + 1),
        Got::Value(p) => paths::join_path(dir, p.as_str()),
    };
    match flow::got_flag(log, i + 1) {
        Got::Pending => Flow::Do(Effect::PathExists { path }),
        Got::Failed(e) => Flow::Done(Err(e), i + 2),
        Got::Value(b) => Flow::Done(Ok(b), i + 2),
    }
}

pub fn rebase_in_progress(worktree_dir: &str, log: &Vec<Reply>, from: usize) -> (r: Flow<
    Result<bool, String>,
>)
    ensures
        flow::at_bool(r) == rebasing(worktree_dir@, flow::answers(log@), from as int),
        r matches Flow::Done(_, n) ==> n <= log@.len(),
{
    match state_found(worktree_dir, "rebase-merge", log, from) {
        Flow::Done(Ok(false), n) => state_found(worktree_dir, "rebase-apply", log, n),
        f => f,
    }
}

/// A merge: the worktree, the main checkout, the branch and the target.
pub struct MergeJob {
    pub dir: Seq<char>,
    pub repo: Seq<char>,
    pub branch: Seq<char>,
    pub target: Seq<char>,
}

pub open spec fn in_worktree(job: MergeJob, args: Seq<Seq<char>>) -> Path<
    Result<Merge, Seq<char>>,
> {
    Path::Do(Act::Git { directory: job.dir, args })
}

pub open spec fn in_repo(job: MergeJob, args: Seq<Seq<char>>) -> Path<Result<Merge, Seq<char>>> {
    Path::Do(Act::Git { directory: job.repo, args })
}

pub open spec fn status_args() -> Seq<Seq<char>> {
    seq!["status"@, "--porcelain"@]
}

pub open spec fn merge_base_args(job: MergeJob) -> Seq<Seq<char>> {
    seq!["merge-base"@, "HEAD"@, job.target]
}

pub open spec fn count_args(base: Seq<char>) -> Seq<Seq<char>> {
    seq!["rev-list"@, "--count"@, base + "..HEAD"@]
}

pub open spec fn tip_args(job: MergeJob) -> Seq<Seq<char>> {
    seq!["rev-parse"@, job.target]
}

pub open spec fn rebase_args(job: MergeJob) -> Seq<Seq<char>> {
    seq!["rebase"@, job.target]
}

pub open spec fn ancestor_args(job: MergeJob) -> Seq<Seq<char>> {
    seq!["merge-base"@, "--is-ancestor"@, job.target, "HEAD"@]
}

pub open spec fn common_dir_args() -> Seq<Seq<char>> {
    seq!["rev-parse"@, "--git-common-dir"@]
}

/// The fast-forward of the target: a local push that updates a checked-out branch in
/// place.
pub open spec fn push_args(job: MergeJob, common: Seq<char>) -> Seq<Seq<char>> {
    seq![
        "push"@,
        "--receive-pack=git -c receive.denyCurrentBranch=updateInstead receive-pack"@,
        common,
        "HEAD:"@ + job.target,
    ]
}

pub open spec fn sha_args() -> Seq<Seq<char>> {
    seq!["rev-parse"@, "--short"@, "HEAD"@]
}

pub open spec fn detach_args(job: MergeJob) -> Seq<Seq<char>> {
    seq!["checkout"@, "--detach"@, job.target]
}

pub open spec fn delete_args(job: MergeJob) -> Seq<Seq<char>> {
    seq!["branch"@, "-D"@, job.branch]
}

pub open spec fn remove_args(job: MergeJob) -> Seq<Seq<char>> {
    seq!["worktree"@, "remove"@, job.dir]
}

pub open spec fn force_args(job: MergeJob) -> Seq<Seq<char>> {
    seq!["worktree"@, "remove"@, "--force"@, job.dir]
}

pub open spec fn prune_args() -> Seq<Seq<char>> {
    seq!["worktree"@, "prune"@]
}

/// Whether the git command at `i` ran and ended well.
pub open spec fn went_well(log: Seq<Answer>, i: int) -> bool {
    flow::heard_output(log, i) matches Heard::Value(o) && o.success
}

/// What is left to clean up by hand.
pub open spec fn cleanup_text(
    branch: Seq<char>,
    dir: Seq<char>,
    branch_gone: bool,
    tree_gone: bool,
) -> Option<Seq<char>> {
    let branch = "could not delete branch `"@ + branch + "`"@;
    let tree = "could not remove worktree `"@ + dir + "`"@;
    if branch_gone && tree_gone {
        None
    } else if tree_gone {
        Some(branch)
    } else if branch_gone {
        Some(tree)
    } else {
        Some(branch + "; "@ + tree)
    }
}

/// The end of a merge: the worktree's record is pruned.
pub open spec fn pruning(
    job: MergeJob,
    commits: nat,
    sha: Seq<char>,
    branch_gone: bool,
    tree_gone: bool,
    log: Seq<Answer>,
    i: int,
) -> Path<Result<Merge, Seq<char>>> {
    if !flow::tried(log, i) {
        in_repo(job, prune_args())
    } else {
        Path::Done(
            Ok(
                Merge::Success {
                    target: job.target,
                    branch: job.branch,
                    commits,
                    sha,
                    warning: cleanup_text(job.branch, job.dir, branch_gone, tree_gone),
                },
            ),
            i + 1,
        )
    }
}

/// Cleaning up: detach so the branch can be deleted, drop branch and worktree.
pub open spec fn cleaning(job: MergeJob, commits: nat, sha: Seq<char>, log: Seq<Answer>, i: int) -> Path<
    Result<Merge, Seq<char>>,
> {
    if !flow::tried(log, i) {
        in_worktree(job, detach_args(job))
    } else if !flow::tried(log, i + 1) {
        in_repo(job, delete_args(job))
    } else {
        let branch_gone = went_well(log, i + 1);
        match ran(remove_args(job), log, i + 2) {
            Heard::Pending => in_repo(job, remove_args(job)),
            Heard::Failed(e) => Path::Done(Err(e), i + 3),
            Heard::Value(o) => if o.success {
                pruning(job, commits, sha, branch_gone, true, log, i + 3)
            } else if !flow::tried(log, i + 3) {
                in_repo(job, force_args(job))
            } else {
                pruning(job, commits, sha, branch_gone, went_well(log, i + 3), log, i + 4)
            },
        }
    }
}

/// The fast-forward itself.
pub open spec fn pushing(job: MergeJob, commits: nat, log: Seq<Answer>, i: int) -> Path<
    Result<Merge, Seq<char>>,
> {
    match ran_ok(common_dir_args(), log, i) {
        Heard::Pending => in_worktree(job, common_dir_args()),
        Heard::Failed(e) => Path::Done(Err(e), i + 1),
        Heard::Value(raw) => {
            let args = push_args(job, paths::joined(job.dir, raw));
            match ran_ok(args, log, i + 1) {
                Heard::Pending => in_worktree(job, args),
                Heard::Failed(e) => Path::Done(Err(e), i + 2),
                Heard::Value(_) => match ran_ok(sha_args(), log, i + 2) {
                    Heard::Pending => in_worktree(job, sha_args()),
                    Heard::Failed(e) => Path::Done(Err(e), i + 3),
                    Heard::Value(sha) => cleaning(job, commits, sha, log, i + 3),
                },
            }
        },
    }
}

/// The target must be clean if it is checked out, because the push updates its
/// working tree in place.
pub open spec fn guarding(job: MergeJob, commits: nat, log: Seq<Answer>, i: int) -> Path<
    Result<Merge, Seq<char>>,
> {
    let h = ran_ok(head_args(), log, i);
    if h is Pending {
        in_repo(job, head_args())
    } else if h == Heard::<Seq<char>>::Value(job.target) || (h is Failed && job.target.len() == 0) {
        match ran_ok(status_args(), log, i + 1) {
            Heard::Pending => in_repo(job, status_args()),
            Heard::Failed(e) => Path::Done(Err(e), i + 2),
            Heard::Value(s) => if s.len() > 0 {
                Path::Done(Ok(Merge::TargetDirty(job.target)), i + 2)
            } else {
                pushing(job, commits, log, i + 2)
            },
        }
    } else {
        pushing(job, commits, log, i + 1)
    }
}

/// The target must be an ancestor of the worktree's head: a pure fast-forward.
pub open spec fn checking(job: MergeJob, commits: nat, log: Seq<Answer>, i: int) -> Path<
    Result<Merge, Seq<char>>,
> {
    match ran(ancestor_args(job), log, i) {
        Heard::Pending => in_worktree(job, ancestor_args(job)),
        Heard::Failed(e) => Path::Done(Err(e), i + 1),
        Heard::Value(o) => if !o.success {
            Path::Done(Err("merge would not be a fast-forward after rebase"@), i + 1)
        } else {
            guarding(job, commits, log, i + 1)
        },
    }
}

/// The rebase, where the worktree is not based on the target's tip yet.
pub open spec fn replaying(job: MergeJob, commits: nat, log: Seq<Answer>, i: int) -> Path<
    Result<Merge, Seq<char>>,
> {
    match ran(rebase_args(job), log, i) {
        Heard::Pending => in_worktree(job, rebase_args(job)),
        Heard::Failed(e) => Path::Done(Err(e), i + 1),
        Heard::Value(o) => if o.success {
            checking(job, commits, log, i + 1)
        } else {
            match rebasing(job.dir, log, i + 1) {
                Path::Do(a) => Path::Do(a),
                Path::Done(Err(e), n) => Path::Done(Err(e), n),
                Path::Done(Ok(true), n) => Path::Done(Ok(Merge::RebaseConflict(job.target)), n),
                Path::Done(Ok(false), n) => Path::Done(
                    Err("rebase failed: "@ + text::trim(o.stderr)),
                    n,
                ),
            }
        },
    }
}

/// The number of commits that git counted; a count that is no number is zero.
pub open spec fn commit_count(s: Seq<char>) -> nat {
    match numbers::unsigned_value(s, u64::MAX as nat) {
        Ok(n) => n,
        Err(_) => 0,
    }
}

/// What there is to merge, and whether it has to be rebased.
pub open spec fn measuring(job: MergeJob, log: Seq<Answer>, i: int) -> Path<
    Result<Merge, Seq<char>>,
> {
    match ran_ok(merge_base_args(job), log, i) {
        Heard::Pending => in_worktree(job, merge_base_args(job)),
        Heard::Failed(e) => Path::Done(Err(e), i + 1),
        Heard::Value(base) => match ran_ok(count_args(base), log, i + 1) {
            Heard::Pending => in_worktree(job, count_args(base)),
            Heard::Failed(e) => Path::Done(Err(e), i + 2),
            Heard::Value(raw) => if commit_count(raw) == 0 {
                Path::Done(Ok(Merge::NothingToMerge), i + 2)
            } else {
                match ran_ok(tip_args(job), log, i + 2) {
                    Heard::Pending => in_worktree(job, tip_args(job)),
                    Heard::Failed(e) => Path::Done(Err(e), i + 3),
                    Heard::Value(tip) => if base == tip {
                        checking(job, commit_count(raw), log, i + 3)
                    } else {
                        replaying(job, commit_count(raw), log, i + 3)
                    },
                }
            },
        },
    }
}

/// A merge of the worktree's commits onto the target. A rebase already in progress
/// means the agent is (or should be) resolving conflicts: it is reported instead of
/// stacking another one. Uncommitted changes are reported too.
pub open spec fn merging(job: MergeJob, log: Seq<Answer>, i: int) -> Path<
    Result<Merge, Seq<char>>,
> {
    match rebasing(job.dir, log, i) {
        Path::Do(a) => Path::Do(a),
        Path::Done(Err(e), n) => Path::Done(Err(e), n),
        Path::Done(Ok(true), n) => Path::Done(Ok(Merge::RebaseConflict(job.target)), n),
        Path::Done(Ok(false), n) => match ran_ok(status_args(), log, n) {
            Heard::Pending => in_worktree(job, status_args()),
            Heard::Failed(e) => Path::Done(Err(e), n + 1),
            Heard::Value(s) => if s.len() > 0 {
                Path::Done(Ok(Merge::DirtyWorktree), n + 1)
            } else {
                measuring(job, log, n + 1)
            },
        },
    }
}

/// Where a merge stands.
pub open spec fn at_merge(f: Flow<Result<MergeOutcome, String>>) -> Path<
    Result<Merge, Seq<char>>,
> {
    match f {
        Flow::Do(e) => Path::Do(e@),
        Flow::Done(Ok(o), n) => Path::Done(Ok(o@), n as int),
        Flow::Done(Err(e), n) => Path::Done(Err(e@), n as int),
    }
}

pub open spec fn job_of(dir: Seq<char>, repo: Seq<char>, slug: Seq<char>, target: Seq<char>) -> MergeJob {
    MergeJob { dir, repo, branch: worktree::branch_of(slug), target }
}

fn ended_well(log: &Vec<Reply>, i: usize) -> (r: bool)
    ensures
        r == went_well(flow::answers(log@), i as int),
{
    match flow::got_output(log, i) {
        Got::Value(o) => o.success,
        _ => false,
    }
}

fn cleanup_warning(branch: &str, dir: &str, branch_gone: bool, tree_gone: bool) -> (r: Option<
    String,
>)
    ensures
        text::opt_view(r) == cleanup_text(branch@, dir@, branch_gone, tree_gone),
{
    let no_branch = "could not delete branch `".to_owned().concat(branch).concat("`");
    let no_tree = "could not remove worktree `".to_owned().concat(dir).concat("`");
    if branch_gone && tree_gone {
        None
    } else if tree_gone {
        Some(no_branch)
    } else if branch_gone {
        Some(no_tree)
    } else {
        Some(no_branch.concat("; ").concat(no_tree.as_str()))
    }
}

fn clean_up(
    dir: &str,
    repo: &str,
    branch: String,
    target: &str,
    commits: u64,
    sha: String,
    log: &Vec<Reply>,
    i: usize,
) -> (r: Flow<Result<MergeOutcome, String>>)
    requires
        i <= log@.len(),
    ensures
        at_merge(r) == cleaning(
            (MergeJob { dir: dir@, repo: repo@, branch: branch@, target: target@ }),
            commits as nat,
            sha@,
            flow::answers(log@),
            i as int,
        ),
        r matches Flow::Done(_, n) ==> n <= log@.len(),
{
    if !flow::was_tried(log, i) {
        return Flow::Do(run_git(dir, args3("checkout", "--detach", target)));
    }
    if !flow::was_tried(log, i + 1) {
        return Flow::Do(run_git(repo, args3("branch", "-D", branch.as_str())));
    }
    let branch_gone = ended_well(log, i + 1);
    let args = args3("worktree", "remove", dir);
    let removed = match git(&args, log, i + 2) {
        Got::Pending => return Flow::Do(run_git(repo, args)),
        Got::Failed(e) => return Flow::Done(Err(e), i + 3),
        Got::Value(o) => o.success,
    };
    let mut next: usize = i + 3;
    let mut tree_gone = true;
    if !removed {
        if !flow::was_tried(log, next) {
            return Flow::Do(run_git(repo, args4("worktree", "remove", "--force", dir)));
        }
        tree_gone = ended_well(log, next);
        next = next + 1;
    }
    if !flow::was_tried(log, next) {
        return Flow::Do(run_git(repo, args2("worktree", "prune")));
    }
    let warning = cleanup_warning(branch.as_str(), dir, branch_gone, tree_gone);
    Flow::Done(
        Ok(
            MergeOutcome::Success {
                target_branch: target.to_owned(),
                branch_name: branch,
                commit_count: commits,
                short_sha: sha,
                cleanup_warning: warning,
            },
        ),
        next + 1,
    )
}

fn push_target(
    dir: &str,
    repo: &str,
    branch: String,
    target: &str,
    commits: u64,
    log: &Vec<Reply>,
    i: usize,
) -> (r: Flow<Result<MergeOutcome, String>>)
    ensures
        at_merge(r) == pushing(
            (MergeJob { dir: dir@, repo: repo@, branch: branch@, target: target@ }),
            commits as nat,
            flow::answers(log@),
            i as int,
        ),
        r matches Flow::Done(_, n) ==> n <= log@.len(),
{
    let args = args2("rev-parse", "--git-common-dir");
    let common = match git_ok(&args, log, i) {
        Got::Pending => return Flow::Do(run_git(dir, args)),
        Got::Failed(e) => return Flow::Done(Err(e), i + 1),
        Got::Value(raw) => paths::join_path(dir, raw.as_str()),
    };
    let refspec = "HEAD:".to_owned().concat(target);
    let args = args4(
        "push",
        "--receive-pack=git -c receive.denyCurrentBranch=updateInstead receive-pack",
        common.as_str(),
        refspec.as_str(),
    );
    match git_ok(&args, log, i + 1) {
        Got::Pending => return Flow::Do(run_git(dir, args)),
        Got::Failed(e) => return Flow::Done(Err(e), i + 2),
        Got::Value(_) => {},
    }
    let args = args3("rev-parse", "--short", "HEAD");
    let sha = match git_ok(&args, log, i + 2) {
        Got::Pending => return Flow::Do(run_git(dir, args)),
        Got::Failed(e) => return Flow::Done(Err(e), i + 3),
        Got::Value(s) => s,
    };
    clean_up(dir, repo, branch, target, commits, sha, log, i + 3)
}

fn check_and_push(
    dir: &str,
    repo: &str,
    branch: String,
    target: &str,
    commits: u64,
    log: &Vec<Reply>,
    i: usize,
) -> (r: Flow<Result<MergeOutcome, String>>)
    ensures
        at_merge(r) == checking(
            (MergeJob { dir: dir@, repo: repo@, branch: branch@, target: target@ }),
            commits as nat,
            flow::answers(log@),
            i as int,
        ),
        r matches Flow::Done(_, n) ==> n <= log@.len(),
{
    let args = args4("merge-base", "--is-ancestor", target, "HEAD");
    match git(&args, log, i) {
        Got::Pending => return Flow::Do(run_git(dir, args)),
        Got::Failed(e) => return Flow::Done(Err(e), i + 1),
        Got::Value(o) => {
            if !o.success {
                return Flow::Done(
                    Err("merge would not be a fast-forward after rebase".to_owned()),
                    i + 1,
                );
            }
        },
    }
    let i: usize = i + 1;
    let args = args3("symbolic-ref", "--short", "HEAD");
    let main_branch = match git_ok(&args, log, i) {
        Got::Pending => return Flow::Do(run_git(repo, args)),
        Got::Failed(_) => String::new(),
        Got::Value(s) => s,
    };
    let mut next: usize = i + 1;
    proof {
        if main_branch@ == target@ && target@.len() == 0 {
            assert(main_branch@ =~= Seq::<char>::empty());
        }
        if target@.len() == 0 {
            assert(target@ =~= Seq::<char>::empty());
        }
    }
    if text::same_text(main_branch.as_str(), target) {
        let args = args2("status", "--porcelain");
        match git_ok(&args, log, next) {
            Got::Pending => return Flow::Do(run_git(repo, args)),
            Got::Failed(e) => return Flow::Done(Err(e), next + 1),
            Got::Value(s) => {
                if !s.as_str().is_empty() {
                    return Flow::Done(
                        Ok(MergeOutcome::TargetDirty { target_branch: target.to_owned() }),
                        next + 1,
                    );
                }
            },
        }
        next = next + 1;
    }
    push_target(dir, repo, branch, target, commits, log, next)
}

/// Rebase the worktree's commits onto `target_branch` and fast-forward the target in
/// the main checkout, then clean up branch and worktree.
pub fn merge_worktree(
    worktree_dir: &str,
    main_repo_dir: &str,
    slug: &str,
    target_branch: &str,
    log: &Vec<Reply>,
    from: usize,
) -> (r: Flow<Result<MergeOutcome, String>>)
    ensures
        at_merge(r) == merging(
            job_of(worktree_dir@, main_repo_dir@, slug@, target_branch@),
            flow::answers(log@),
            from as int,
        ),
        r matches Flow::Done(_, n) ==> n <= log@.len(),
{
    let branch = worktree::branch_name(slug);
    let i: usize = match rebase_in_progress(worktree_dir, log, from) {
        Flow::Do(e) => return Flow::Do(e),
        Flow::Done(Err(e), n) => return Flow::Done(Err(e), n),
        Flow::Done(Ok(busy), n) => {
            if busy {
                return Flow::Done(
                    Ok(MergeOutcome::RebaseConflict { target_branch: target_branch.to_owned() }),
                    n,
                );
            }
            n
        },
    };
    let args = args2("status", "--porcelain");
    match git_ok(&args, log, i) {
        Got::Pending => return Flow::Do(run_git(worktree_dir, args)),
        Got::Failed(e) => return Flow::Done(Err(e), i + 1),
        Got::Value(s) => {
            if !s.as_str().is_empty() {
                return Flow::Done(Ok(MergeOutcome::DirtyWorktree), i + 1);
            }
        },
    }
    let i: usize = i + 1;
    let args = args3("merge-base", "HEAD", target_branch);
    let base = match git_ok(&args, log, i) {
        Got::Pending => return Flow::Do(run_git(worktree_dir, args)),
        Got::Failed(e) => return Flow::Done(Err(e), i + 1),
        Got::Value(s) => s,
    };
    let range = base.clone().concat("..HEAD");
    let args = args3("rev-list", "--count", range.as_str());
    let raw = match git_ok(&args, log, i + 1) {
        Got::Pending => return Flow::Do(run_git(worktree_dir, args)),
        Got::Failed(e) => return Flow::Done(Err(e), i + 2),
        Got::Value(s) => s,
    };
    let commits: u64 = match numbers::parse_u64(raw.as_str()) {
        Ok(n) => n,
        Err(_) => 0,
    };
    if commits == 0 {
        return Flow::Done(Ok(MergeOutcome::NothingToMerge), i + 2);
    }
    let args = args2("rev-parse", target_branch);
    let tip = match git_ok(&args, log, i + 2) {
        Got::Pending => return Flow::Do(run_git(worktree_dir, args)),
        Got::Failed(e) => return Flow::Done(Err(e), i + 3),
        Got::Value(s) => s,
    };
    let i: usize = i + 3;
    if text::same_text(base.as_str(), tip.as_str()) {
        return check_and_push(
            worktree_dir,
            main_repo_dir,
            branch,
            target_branch,
            commits,
            log,
            i,
        );
    }
    let args = args2("rebase", target_branch);
    let out = match git(&args, log, i) {
        Got::Pending => return Flow::Do(run_git(worktree_dir, args)),
        Got::Failed(e) => return Flow::Done(Err(e), i + 1),
        Got::Value(o) => o,
    };
    if out.success {
        return check_and_push(
            worktree_dir,
            main_repo_dir,
            branch,
            target_branch,
            commits,
            log,
            i + 1,
        );
    }
    match rebase_in_progress(worktree_dir, log, i + 1) {
        Flow::Do(e) => Flow::Do(e),
        Flow::Done(Err(e), n) => Flow::Done(Err(e), n),
        Flow::Done(Ok(busy), n) => {
            if busy {
                Flow::Done(
                    Ok(MergeOutcome::RebaseConflict { target_branch: target_branch.to_owned() }),
                    n,
                )
            } else {
                Flow::Done(
                    Err(
                        "rebase failed: ".to_owned().concat(
                            text::trimmed(out.stderr.as_str()).as_str(),
                        ),
                    ),
                    n,
                )
            }
        },
    }
}

// ---- listing ----

/// How far a listing has been read: the worktrees found, and a path that waits for
/// its branch.
pub struct Listing {
    pub found: Seq<(Seq<char>, Seq<char>)>,
    pub path: Option<Seq<char>>,
}

/// The worktree that waits is on `branch`.
pub open spec fn settled(st: Listing, branch: Seq<char>) -> Listing {
    match st.path {
        Some(p) => Listing { found: st.found.push((p, branch)), path: None },
        None => st,
    }
}

pub open spec fn list_step(st: Listing, line: Seq<char>) -> Listing {
    match text::after_prefix(line, "worktree "@) {
        Some(p) => Listing { path: Some(p), ..st },
        None => match text::after_prefix(line, "branch "@) {
            Some(b) => settled(st, text::trim_start_matches(b, "refs/heads/"@)),
            None => if line == "detached"@ {
                settled(st, "(detached)"@)
            } else {
                st
            },
        },
    }
}

pub open spec fn list_fold(lines: Seq<Seq<char>>) -> Listing
    decreases lines.len(),
{
    if lines.len() == 0 {
        Listing { found: Seq::empty(), path: None }
    } else {
        list_step(list_fold(lines.drop_last()), lines.last())
    }
}

/// The worktrees of a porcelain listing, each with its branch.
pub open spec fn listed(raw: Seq<char>) -> Seq<(Seq<char>, Seq<char>)> {
    list_fold(text::lines(raw)).found
}

/// The values of a list of pairs of texts.
pub open spec fn pairs(v: Seq<(String, String)>) -> Seq<(Seq<char>, Seq<char>)> {
    Seq::new(v.len(), |i: int| (v[i].0@, v[i].1@))
}

/// The worktrees of a porcelain listing, each with its branch.
pub fn parse_worktree_list(raw: &str) -> (r: Vec<(String, String)>)
    ensures
        pairs(r@) == listed(raw@),
{
    let all = text::text_lines(raw);
    let mut found: Vec<(String, String)> = Vec::new();
    let mut path: Option<String> = None;
    let mut i: usize = 0;
    proof {
        reveal_strlit("refs/heads/");
        assert(text::texts(all@).take(0) =~= Seq::<Seq<char>>::empty());
        assert(pairs(found@) =~= Seq::<(Seq<char>, Seq<char>)>::empty());
    }
    while i < all.len()
        invariant
            i <= all@.len(),
            "refs/heads/"@.len() > 0,
            (Listing { found: pairs(found@), path: text::opt_view(path) }) == list_fold(
                text::texts(all@).take(i as int),
            ),
        decreases all@.len() - i,
    {
        let line = all[i].as_str();
        let ghost before = pairs(found@);
        proof {
            assert(text::texts(all@).take(i + 1).drop_last() =~= text::texts(all@).take(i as int));
            assert(text::texts(all@).take(i + 1).last() == line@);
        }
        let mut branch: Option<String> = None;
        if let Some(p) = text::strip_prefix(line, "worktree ") {
            path = Some(p);
        } else if let Some(b) = text::strip_prefix(line, "branch ") {
            branch = Some(text::trim_prefixes(b.as_str(), "refs/heads/"));
        } else if text::same_text(line, "detached") {
            branch = Some("(detached)".to_owned());
        }
        if let Some(b) = branch {
            if let Some(p) = path.take() {
                found.push((p, b));
                proof {
                    assert(pairs(found@) =~= before.push((p@, b@)));
                }
            }
        }
        i = i + 1;
    }
    proof {
        assert(text::texts(all@).take(all@.len() as int) =~= text::texts(all@));
    }
    found
}

pub open spec fn list_args() -> Seq<Seq<char>> {
    seq!["worktree"@, "list"@, "--porcelain"@]
}

pub open spec fn listing(project: Seq<char>, log: Seq<Answer>, i: int) -> Path<
    Result<Seq<(Seq<char>, Seq<char>)>, Seq<char>>,
> {
    match ran_ok(list_args(), log, i) {
        Heard::Pending => Path::Do(Act::Git { directory: project, args: list_args() }),
        Heard::Failed(e) => Path::Done(Err(e), i + 1),
        Heard::Value(raw) => Path::Done(Ok(listed(raw)), i + 1),
    }
}

/// Where a listing stands.
pub open spec fn at_list(f: Flow<Result<Vec<(String, String)>, String>>) -> Path<
    Result<Seq<(Seq<char>, Seq<char>)>, Seq<char>>,
> {
    match f {
        Flow::Do(e) => Path::Do(e@),
        Flow::Done(Ok(v), n) => Path::Done(Ok(pairs(v@)), n as int),
        Flow::Done(Err(e), n) => Path::Done(Err(e@), n as int),
    }
}

/// Worktrees of a project as reported by git itself.
pub fn list_worktrees(project_directory: &str, log: &Vec<Reply>, from: usize) -> (r: Flow<
    Result<Vec<(String, String)>, String>,
>)
    ensures
        at_list(r) == listing(project_directory@, flow::answers(log@), from as int),
        r matches Flow::Done(_, n) ==> n <= log@.len(),
{
    let args = args3("worktree", "list", "--porcelain");
    match git_ok(&args, log, from) {
        Got::Pending => Flow::Do(run_git(project_directory, args)),
        Got::Failed(e) => Flow::Done(Err(e), from + 1),
        Got::Value(raw) => Flow::Done(Ok(parse_worktree_list(raw.as_str())), from + 1),
    }
}

} // verus!
