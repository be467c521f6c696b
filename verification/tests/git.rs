//! Worktrees, step by step.

use lily::application::flow::{Effect, Flow, Reply};
use lily::connector::git::{
    create_worktree, default_branch, list_worktrees, merge_worktree, output_reply,
    parse_worktree_list,
    rebase_in_progress,
};
use lily::domain::worktree::MergeOutcome;

fn ok(stdout: &str) -> Reply {
    Reply::Output { success: true, stdout: stdout.to_string(), stderr: String::new() }
}

fn bad(stderr: &str) -> Reply {
    Reply::Output { success: false, stdout: String::new(), stderr: stderr.to_string() }
}

/// The directory and the arguments of the git command that is asked for, or the effect.
fn step<T>(f: Flow<T>) -> String {
    match f {
        Flow::Do(Effect::Git { directory, args }) => format!("{directory}$ {}", args.join(" ")),
        Flow::Do(e) => format!("{e:?}"),
        Flow::Done(_, n) => panic!("done after {n}"),
    }
}

fn outcome<T>(f: Flow<T>) -> T {
    match f {
        Flow::Done(t, _) => t,
        Flow::Do(e) => panic!("asks for {e:?}"),
    }
}

#[test]
fn output_of_git_is_decoded() {
    let out = output_reply(false, &"é".as_bytes().to_vec(), &vec![b'x', 0xff]);
    match out {
        Reply::Output { success, stdout, stderr } => {
            assert!(!success);
            assert_eq!(stdout, "é");
            assert_eq!(stderr, "x\u{fffd}");
        }
        other => panic!("{other:?}"),
    }
}

fn merge(log: &Vec<Reply>) -> Flow<Result<MergeOutcome, String>> {
    merge_worktree("/wt", "/repo", "fix", "main", log, 0)
}

/// A worktree without a rebase and without changes, two commits ahead of its base.
fn two_commits() -> Vec<Reply> {
    vec![
        ok(".git/rebase-merge\n"),
        Reply::Flag(false),
        ok("/repo/.git/rebase-apply\n"),
        Reply::Flag(false),
        ok(""),
        ok("aaa\n"),
        ok("2\n"),
    ]
}

#[test]
fn worktrees_start_from_head_or_a_checked_base() {
    let mut log = vec![];
    let create = |base: &Option<String>, log: &Vec<Reply>| {
        create_worktree("/repo", "/data/wt", "fix", base, log, 0)
    };
    assert_eq!(step(create(&None, &log)), r#"CreateParent { path: "/data/wt" }"#);
    log.push(Reply::Done);
    assert_eq!(step(create(&None, &log)), "/repo$ worktree add /data/wt -B lily/fix HEAD");
    log.push(ok(""));
    assert_eq!(outcome(create(&None, &log)), Ok(()));

    let base = Some("dev".to_string());
    let mut log = vec![];
    assert_eq!(step(create(&base, &log)), "/repo$ check-ref-format --branch dev");
    log.push(bad("no"));
    assert_eq!(outcome(create(&base, &log)), Err("invalid base branch: dev".to_string()));
    log = vec![ok("dev"), Reply::Done];
    assert_eq!(step(create(&base, &log)), "/repo$ worktree add /data/wt -B lily/fix dev");
    log.push(bad(" fatal: exists\n"));
    assert_eq!(
        outcome(create(&base, &log)),
        Err(
            "git [\"worktree\", \"add\", \"/data/wt\", \"-B\", \"lily/fix\", \"dev\"] failed: fatal: exists"
                .to_string()
        )
    );
}

#[test]
fn default_branch_prefers_the_remote_head() {
    let find = |log: &Vec<Reply>| default_branch("/repo", log, 0);
    let mut log = vec![];
    assert_eq!(step(find(&log)), "/repo$ symbolic-ref --short refs/remotes/origin/HEAD");
    log.push(ok("origin/trunk\n"));
    assert_eq!(outcome(find(&log)), Ok("trunk".to_string()));
    log = vec![bad("")];
    assert_eq!(step(find(&log)), "/repo$ show-ref --verify refs/heads/main");
    log.push(ok(""));
    assert_eq!(outcome(find(&log)), Ok("main".to_string()));
    log = vec![ok("upstream/x"), bad("")];
    assert_eq!(step(find(&log)), "/repo$ show-ref --verify refs/heads/master");
    log.push(ok(""));
    assert_eq!(outcome(find(&log)), Ok("master".to_string()));
    log = vec![bad(""), bad(""), bad("")];
    assert_eq!(step(find(&log)), "/repo$ symbolic-ref --short HEAD");
    log.push(ok("develop\n"));
    assert_eq!(outcome(find(&log)), Ok("develop".to_string()));
}

#[test]
fn a_rebase_in_progress_is_seen() {
    let look = |log: &Vec<Reply>| rebase_in_progress("/wt", log, 0);
    let mut log = vec![];
    assert_eq!(step(look(&log)), "/wt$ rev-parse --git-path rebase-merge");
    log.push(ok(".git/rebase-merge\n"));
    assert_eq!(step(look(&log)), r#"PathExists { path: "/wt/.git/rebase-merge" }"#);
    log.push(Reply::Flag(false));
    assert_eq!(step(look(&log)), "/wt$ rev-parse --git-path rebase-apply");
    log.push(ok("/abs/rebase-apply"));
    assert_eq!(step(look(&log)), r#"PathExists { path: "/abs/rebase-apply" }"#);
    log.push(Reply::Flag(true));
    assert_eq!(outcome(look(&log)), Ok(true));
}

#[test]
fn merge_goes_step_by_step() {
    let mut log = two_commits();
    assert_eq!(step(merge(&log)), "/wt$ rev-parse main");
    log.push(ok("bbb\n"));
    assert_eq!(step(merge(&log)), "/wt$ rebase main");
    log.push(ok(""));
    assert_eq!(step(merge(&log)), "/wt$ merge-base --is-ancestor main HEAD");
    log.push(ok(""));
    assert_eq!(step(merge(&log)), "/repo$ symbolic-ref --short HEAD");
    log.push(ok("main\n"));
    assert_eq!(step(merge(&log)), "/repo$ status --porcelain");
    log.push(ok("\n"));
    assert_eq!(step(merge(&log)), "/wt$ rev-parse --git-common-dir");
    log.push(ok("../repo/.git\n"));
    assert_eq!(
        step(merge(&log)),
        "/wt$ push --receive-pack=git -c receive.denyCurrentBranch=updateInstead receive-pack /wt/../repo/.git HEAD:main"
    );
    log.push(ok(""));
    assert_eq!(step(merge(&log)), "/wt$ rev-parse --short HEAD");
    log.push(ok("c0ffee\n"));
    assert_eq!(step(merge(&log)), "/wt$ checkout --detach main");
    log.push(ok(""));
    assert_eq!(step(merge(&log)), "/repo$ branch -D lily/fix");
    log.push(ok(""));
    assert_eq!(step(merge(&log)), "/repo$ worktree remove /wt");
    log.push(ok(""));
    assert_eq!(step(merge(&log)), "/repo$ worktree prune");
    log.push(ok(""));
    match outcome(merge(&log)) {
        Ok(MergeOutcome::Success {
            target_branch,
            branch_name,
            commit_count,
            short_sha,
            cleanup_warning,
        }) => {
            assert_eq!((target_branch.as_str(), branch_name.as_str()), ("main", "lily/fix"));
            assert_eq!((commit_count, short_sha.as_str()), (2, "c0ffee"));
            assert_eq!(cleanup_warning, None);
        }
        other => panic!("{other:?}"),
    }
}

#[test]
fn an_up_to_date_worktree_is_not_rebased() {
    let mut log = two_commits();
    log.push(ok("aaa\n"));
    assert_eq!(step(merge(&log)), "/wt$ merge-base --is-ancestor main HEAD");
    log.push(bad(""));
    assert_eq!(
        outcome(merge(&log)).unwrap_err(),
        "merge would not be a fast-forward after rebase"
    );
}

#[test]
fn conflicts_are_left_for_the_agent() {
    let mut log = two_commits();
    log.extend([ok("bbb"), bad("CONFLICT"), ok("m"), Reply::Flag(true)]);
    match outcome(merge(&log)) {
        Ok(MergeOutcome::RebaseConflict { target_branch }) => assert_eq!(target_branch, "main"),
        other => panic!("{other:?}"),
    }
    let busy = vec![ok("m"), Reply::Flag(true)];
    assert!(matches!(outcome(merge(&busy)), Ok(MergeOutcome::RebaseConflict { .. })));
    let mut log = two_commits();
    log.extend([ok("bbb"), bad(" broken \n"), ok("m"), Reply::Flag(false), ok("a")]);
    log.push(Reply::Flag(false));
    assert_eq!(outcome(merge(&log)).unwrap_err(), "rebase failed: broken");
}

#[test]
fn merges_that_cannot_start_are_refused() {
    let mut log = two_commits();
    log[4] = ok(" M file.txt\n");
    assert!(matches!(outcome(merge(&log)), Ok(MergeOutcome::DirtyWorktree)));
    let mut log = two_commits();
    log[6] = ok("0");
    assert!(matches!(outcome(merge(&log)), Ok(MergeOutcome::NothingToMerge)));
    log[6] = ok("many");
    assert!(matches!(outcome(merge(&log)), Ok(MergeOutcome::NothingToMerge)));
    let mut log = two_commits();
    log.extend([ok("aaa"), ok(""), ok("main"), ok("?? new.txt")]);
    match outcome(merge(&log)) {
        Ok(MergeOutcome::TargetDirty { target_branch }) => assert_eq!(target_branch, "main"),
        other => panic!("{other:?}"),
    }
}

#[test]
fn another_checked_out_branch_may_be_dirty() {
    let mut log = two_commits();
    log.extend([ok("aaa"), ok(""), ok("dev")]);
    assert_eq!(step(merge(&log)), "/wt$ rev-parse --git-common-dir");
    let mut log = two_commits();
    log.extend([ok("aaa"), ok(""), bad("detached")]);
    assert_eq!(step(merge(&log)), "/wt$ rev-parse --git-common-dir");
}

#[test]
fn cleanup_that_fails_is_reported() {
    let mut log = two_commits();
    log.extend([ok("aaa"), ok(""), ok("dev"), ok("/repo/.git"), ok(""), ok("c0ffee")]);
    log.extend([ok(""), bad(""), bad("")]);
    assert_eq!(step(merge(&log)), "/repo$ worktree remove --force /wt");
    let mut gone = two_commits();
    std::mem::swap(&mut gone, &mut log);
    gone.push(ok(""));
    gone.push(ok(""));
    match outcome(merge(&gone)) {
        Ok(MergeOutcome::Success { cleanup_warning, .. }) => {
            assert_eq!(cleanup_warning, Some("could not delete branch `lily/fix`".to_string()))
        }
        other => panic!("{other:?}"),
    }
    let n = gone.len();
    gone[n - 2] = bad("");
    match outcome(merge(&gone)) {
        Ok(MergeOutcome::Success { cleanup_warning, .. }) => assert_eq!(
            cleanup_warning,
            Some(
                "could not delete branch `lily/fix`; could not remove worktree `/wt`".to_string()
            )
        ),
        other => panic!("{other:?}"),
    }
}

#[test]
fn failing_commands_stop_a_merge() {
    let log = vec![bad(" not a repo ")];
    assert_eq!(
        outcome(merge(&log)).unwrap_err(),
        "git [\"rev-parse\", \"--git-path\", \"rebase-merge\"] failed: not a repo"
    );
    let log = vec![Reply::Failed("no such file".to_string())];
    assert_eq!(
        outcome(merge(&log)).unwrap_err(),
        "failed to spawn git [\"rev-parse\", \"--git-path\", \"rebase-merge\"]: no such file"
    );
}

#[test]
fn worktree_lists_are_parsed() {
    let raw = "worktree /repo\nHEAD 1\nbranch refs/heads/main\n\nworktree /wt\nHEAD 2\ndetached\n\nworktree /bare\nbare\n";
    assert_eq!(
        parse_worktree_list(raw),
        vec![
            ("/repo".to_string(), "main".to_string()),
            ("/wt".to_string(), "(detached)".to_string())
        ]
    );
    assert_eq!(
        parse_worktree_list("branch refs/heads/x\nworktree /a\nbranch refs/heads/refs/heads/y\ndetached"),
        vec![("/a".to_string(), "y".to_string())]
    );
    assert!(parse_worktree_list("").is_empty());
    let mut log = vec![];
    assert_eq!(step(list_worktrees("/repo", &log, 0)), "/repo$ worktree list --porcelain");
    log.push(ok(raw));
    assert_eq!(outcome(list_worktrees("/repo", &log, 0)).unwrap().len(), 2);
}
