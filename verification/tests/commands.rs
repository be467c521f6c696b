//! What the commands do, effect by effect.

use lily::application::commands::{
    add_project, build_worktree, cancel_task_text, describe_worktrees, fork_btw, merge_worktree,
    new_worktree, tasks_text, worktrees_text, BtwRequest, WorktreeScope,
};
use lily::application::flow::{Flow, Reply, Wording, WorktreeBuild};
use lily::domain::worktree::ThreadWorktree;

fn wants<T>(f: Flow<T>) -> String {
    match f {
        Flow::Do(e) => format!("{e:?}"),
        Flow::Done(_, n) => panic!("done after {n}"),
    }
}

fn yields<T>(f: Flow<T>) -> T {
    match f {
        Flow::Done(t, _) => t,
        Flow::Do(e) => panic!("asks for {e:?}"),
    }
}

fn some(s: &str) -> Reply {
    Reply::Maybe(Some(s.to_string()))
}

fn text(s: &str) -> Reply {
    Reply::Text(s.to_string())
}

fn failed(s: &str) -> Reply {
    Reply::Failed(s.to_string())
}

fn git_ok(stdout: &str) -> Reply {
    Reply::Output { success: true, stdout: stdout.to_string(), stderr: String::new() }
}

fn assigned(thread: &str, dir: &str, status: &str) -> ThreadWorktree {
    ThreadWorktree {
        thread_id: thread.to_string(),
        worktree_name: "lily/fix".to_string(),
        worktree_directory: Some(dir.to_string()),
        project_directory: "/repo".to_string(),
        status: status.to_string(),
        error_message: None,
    }
}

#[test]
fn projects_are_linked_to_existing_absolute_directories() {
    let link = |dir: &str, log: &Vec<Reply>| add_project("c1", dir, log, 0);
    let refusal =
        "`src` is not an absolute path to an existing directory on the bot's machine".to_string();
    assert_eq!(yields(link("src", &vec![])), Err(refusal.clone()));
    let mut log = vec![];
    assert_eq!(wants(link("/src", &log)), r#"IsDirectory { path: "/src" }"#);
    log.push(Reply::Flag(false));
    assert_eq!(yields(link("/src", &log)), Err(refusal.replace("`src`", "`/src`")));
    log[0] = Reply::Flag(true);
    assert_eq!(
        wants(link("/src", &log)),
        r#"SetChannelDirectory { channel: "c1", directory: "/src" }"#
    );
    log.push(Reply::Done);
    assert_eq!(
        yields(link("/src", &log)),
        Ok("Linked this channel to `/src`. Send a message to start a session.".to_string())
    );
}

fn question() -> BtwRequest {
    BtwRequest {
        source_thread: "t1".to_string(),
        parent_channel: "c1".to_string(),
        directory: "/repo".to_string(),
        prompt: "why this?".to_string(),
        user_id: "u1".to_string(),
        username: "ann".to_string(),
    }
}

#[test]
fn side_questions_fork_the_session_into_a_thread() {
    let ask = |log: &Vec<Reply>| fork_btw(Wording::Plain, &question(), log, 0);
    let mut log = vec![];
    assert_eq!(wants(ask(&log)), r#"GetThreadSession { thread: "t1" }"#);
    log.push(some("s1"));
    assert_eq!(wants(ask(&log)), r#"ForkSession { directory: "/repo", session: "s1" }"#);
    log.push(text("s2"));
    assert_eq!(
        wants(ask(&log)),
        r#"CreateThread { channel: "c1", from: None, name: "btw: why this?" }"#
    );
    log.push(text("t2"));
    assert_eq!(wants(ask(&log)), r#"SetThreadSession { thread: "t2", session: "s2" }"#);
    log.push(Reply::Done);
    assert_eq!(wants(ask(&log)), r#"AddMember { thread: "t2", user: "u1" }"#);
    log.push(failed("not a member"));
    assert_eq!(
        wants(ask(&log)),
        r#"Send { thread: "t2", text: "Reusing context from the original thread to answer prompt...\nwhy this?" }"#
    );
    log.push(failed("down"));
    assert_eq!(wants(ask(&log)), r#"OpenRuntime { thread: "t2", directory: "/repo" }"#);
    log.push(Reply::Done);
    assert_eq!(
        wants(ask(&log)),
        r#"Enqueue { thread: "t2", message: QueuedMessage { prompt: "The user asked a side question while you were working on another task.\nThis is a forked session whose ONLY goal is to answer this question.\nDo NOT continue, resume, or reference the previous task. Only answer the question below.\n\nwhy this?", username: "ann", source_message_id: None, show_marker: false }, wait: false }"#
    );
    log.push(Reply::Position(None));
    assert_eq!(yields(ask(&log)), Ok("t2".to_string()));
}

#[test]
fn side_questions_need_a_session() {
    let ask = |log: &Vec<Reply>| fork_btw(Wording::Discord, &question(), log, 0);
    assert_eq!(
        yields(ask(&vec![Reply::Maybe(None)])),
        Err("no active session in this thread".to_string())
    );
    assert_eq!(
        yields(ask(&vec![some("s1"), failed("gone")])),
        Err("failed to fork session: gone".to_string())
    );
    assert_eq!(
        yields(ask(&vec![some("s1"), text("s2"), failed("full")])),
        Err("failed to create btw thread: full".to_string())
    );
    let log = vec![some("s1"), text("s2"), text("t2"), Reply::Done, Reply::Done];
    assert_eq!(
        wants(ask(&log)),
        r#"Say { channel: "t2", text: "Reusing context from <#t1> to answer prompt...\nwhy this?" }"#
    );
    // A reply of the wrong kind is a failure, not a guess.
    assert_eq!(yields(ask(&vec![Reply::Flag(true)])), Err("unexpected reply".to_string()));
}

#[test]
fn worktrees_of_threads_are_named_after_them() {
    let scope = WorktreeScope::Thread {
        thread_id: "t1".to_string(),
        name_hint: "Configurable sidebar width".to_string(),
    };
    let make = |name: &Option<String>, log: &Vec<Reply>| {
        new_worktree("/data", &scope, name, &None, log, 0)
    };
    let mut log = vec![];
    assert_eq!(wants(make(&None, &log)), r#"ThreadParent { thread: "t1" }"#);
    log.push(some("c1"));
    assert_eq!(wants(make(&None, &log)), r#"GetChannelDirectory { channel: "c1" }"#);
    log.push(some("a"));
    assert_eq!(
        wants(make(&None, &log)),
        r#"CreatePendingWorktree { thread: "t1", branch: "lily/cnfgrbl-sdbr-wdth", project: "a" }"#
    );
    let named = Some("Fix It".to_string());
    assert_eq!(
        wants(make(&named, &log)),
        r#"CreatePendingWorktree { thread: "t1", branch: "lily/fix-it", project: "a" }"#
    );
    log.push(Reply::Done);
    assert_eq!(
        wants(make(&named, &log)),
        r#"StartBuild { build: WorktreeBuild { project: "a", directory: "/data/worktrees/8601ec8c/fix-it", slug: "fix-it", base: None, thread: "t1", title: Some("Configurable sidebar width"), wording: Plain } }"#
    );
    log.push(Reply::Done);
    assert_eq!(
        yields(make(&named, &log)),
        Ok(
            "Creating worktree `/data/worktrees/8601ec8c/fix-it` on branch `lily/fix-it`..."
                .to_string()
        )
    );
    let unnamed = Some("!!!".to_string());
    assert_eq!(
        yields(make(&unnamed, &log)),
        Err("could not derive a worktree name; pass one explicitly".to_string())
    );
    assert_eq!(
        yields(make(&None, &vec![Reply::Maybe(None)])),
        Err("thread has no parent channel".to_string())
    );
    assert_eq!(
        yields(make(&None, &vec![some("c1"), Reply::Maybe(None)])),
        Err("parent channel is not linked to a project".to_string())
    );
}

#[test]
fn worktrees_of_channels_get_a_thread() {
    let scope =
        WorktreeScope::Channel { channel_id: "c1".to_string(), user_id: "u1".to_string() };
    let name = Some("Fix It".to_string());
    let base = Some("dev".to_string());
    let make = |name: &Option<String>, log: &Vec<Reply>| {
        new_worktree("/data", &scope, name, &base, log, 0)
    };
    let mut log = vec![some("a")];
    assert_eq!(
        yields(make(&None, &log)),
        Err("pass a name when creating a worktree from a channel".to_string())
    );
    assert_eq!(
        wants(make(&name, &log)),
        "CreateThread { channel: \"c1\", from: None, name: \"⬦ worktree: fix-it\" }"
    );
    log.push(text("t9"));
    assert_eq!(wants(make(&name, &log)), r#"AddMember { thread: "t9", user: "u1" }"#);
    log.extend([failed("x"), Reply::Done]);
    assert_eq!(
        wants(make(&name, &log)),
        r#"StartBuild { build: WorktreeBuild { project: "a", directory: "/data/worktrees/8601ec8c/fix-it", slug: "fix-it", base: Some("dev"), thread: "t9", title: None, wording: Plain } }"#
    );
    assert_eq!(
        yields(make(&name, &vec![Reply::Maybe(None)])),
        Err("this channel is not linked to a project".to_string())
    );
}

fn job() -> WorktreeBuild {
    WorktreeBuild {
        project: "/repo".to_string(),
        directory: "/wt".to_string(),
        slug: "fix".to_string(),
        base: None,
        thread: "t1".to_string(),
        title: Some("login".to_string()),
        wording: Wording::Plain,
    }
}

#[test]
fn a_built_worktree_takes_over_its_thread() {
    let build = |log: &Vec<Reply>| build_worktree(&job(), log);
    let mut log = vec![Reply::Done, git_ok("")];
    assert_eq!(wants(build(&log)), r#"SetWorktreeReady { thread: "t1", directory: "/wt" }"#);
    log.push(Reply::Done);
    assert_eq!(wants(build(&log)), r#"GetThreadSession { thread: "t1" }"#);
    log.push(some("s1"));
    assert_eq!(wants(build(&log)), r#"OpenRuntime { thread: "t1", directory: "/wt" }"#);
    log.push(Reply::Done);
    assert_eq!(wants(build(&log)), r#"ForkSession { directory: "/wt", session: "s1" }"#);
    log.push(text("s2"));
    assert_eq!(wants(build(&log)), r#"BindSession { thread: "t1", session: "s2" }"#);
    log.push(Reply::Done);
    assert_eq!(wants(build(&log)), "Rename { thread: \"t1\", name: \"⬦ worktree: login\" }");
    log.push(failed("rate limit"));
    assert_eq!(
        wants(build(&log)),
        "Send { thread: \"t1\", text: \"🌳 Worktree ready at `/wt`. New messages run in the worktree.\" }"
    );
    log.push(Reply::Done);
    assert_eq!(yields(build(&log)), Ok(()));
}

#[test]
fn a_failed_build_is_recorded_and_told() {
    let mut log = vec![failed("read-only")];
    assert_eq!(
        wants(build_worktree(&job(), &log)),
        r#"SetWorktreeError { thread: "t1", error: "read-only" }"#
    );
    log.push(Reply::Done);
    assert_eq!(
        wants(build_worktree(&job(), &log)),
        format!(
            "Send {{ thread: \"t1\", text: {:?} }}",
            "⚠️ Worktree creation failed: read-only"
        )
    );
}

#[test]
fn discord_is_told_of_a_build_by_an_ordinary_message() {
    let job = WorktreeBuild { wording: Wording::Discord, title: None, ..job() };
    let log = vec![
        Reply::Done,
        git_ok(""),
        Reply::Done,
        Reply::Maybe(None),
        Reply::Done,
    ];
    assert_eq!(
        wants(build_worktree(&job, &log)),
        "Say { channel: \"t1\", text: \"🌳 Worktree ready at `/wt`. New messages run in the worktree.\" }"
    );
    let log = vec![failed("read-only"), Reply::Done];
    assert_eq!(
        wants(build_worktree(&job, &log)),
        format!(
            "Say {{ channel: \"t1\", text: {:?} }}",
            "⚠️ Worktree creation failed: read-only"
        )
    );
}

/// The replies to the planning and to all of a merge that lands.
fn landed() -> Vec<Reply> {
    let mut log = vec![Reply::Worktree(Some(assigned("t1", "/wt", "ready")))];
    for path in ["m", "a"] {
        log.push(git_ok(path));
        log.push(Reply::Flag(false));
    }
    for out in ["", "aaa", "1", "aaa", "", "dev", "/repo/.git", "", "c0ffee", "", "", "", ""] {
        log.push(git_ok(out));
    }
    log
}

#[test]
fn a_landed_merge_frees_the_thread() {
    let target = Some("main".to_string());
    let merge = |log: &Vec<Reply>| merge_worktree("t1", "⬦ worktree: login", &target, log, 0);
    let mut log = landed();
    assert_eq!(wants(merge(&log)), r#"DeleteWorktree { thread: "t1" }"#);
    log.push(Reply::Done);
    assert_eq!(wants(merge(&log)), r#"OpenRuntime { thread: "t1", directory: "/repo" }"#);
    log.push(Reply::Done);
    assert_eq!(wants(merge(&log)), r#"ResetSession { thread: "t1" }"#);
    log.push(Reply::Done);
    assert_eq!(wants(merge(&log)), r#"Rename { thread: "t1", name: "login" }"#);
    log.push(Reply::Done);
    assert_eq!(
        yields(merge(&log)),
        Ok(
            "Merged 1 commit(s) from `lily/fix` into `main` (now at `c0ffee`). Worktree removed."
                .to_string()
        )
    );
}

#[test]
fn conflicts_are_handed_to_the_agent() {
    let target = Some("main".to_string());
    let merge = |log: &Vec<Reply>| merge_worktree("t1", "login", &target, log, 0);
    let mut log = vec![
        Reply::Worktree(Some(assigned("t1", "/wt", "ready"))),
        git_ok("m"),
        Reply::Flag(true),
    ];
    assert_eq!(wants(merge(&log)), r#"GetWorktree { thread: "t1" }"#);
    log.push(Reply::Worktree(Some(assigned("t1", "/wt", "ready"))));
    assert_eq!(wants(merge(&log)), r#"OpenRuntime { thread: "t1", directory: "/wt" }"#);
    log.push(Reply::Done);
    assert!(wants(merge(&log))
        .starts_with("Enqueue { thread: \"t1\", message: QueuedMessage { prompt: \"The rebase onto `main` stopped"));
    log.push(Reply::Position(None));
    assert_eq!(
        yields(merge(&log)),
        Ok("Rebase onto `main` hit conflicts. Asking the agent to resolve them; run merge-worktree again once it finishes.".to_string())
    );
}

#[test]
fn merges_need_a_ready_worktree() {
    let merge = |wt: Option<ThreadWorktree>| {
        yields(merge_worktree("t1", "login", &None, &vec![Reply::Worktree(wt)], 0))
    };
    assert_eq!(
        merge(None),
        Err("this thread has no worktree (use new-worktree first)".to_string())
    );
    let mut broken = assigned("t1", "/wt", "error");
    broken.error_message = Some("disk full".to_string());
    assert_eq!(
        merge(Some(broken)),
        Err("worktree is not ready (status: error: disk full)".to_string())
    );
    let mut empty = assigned("t1", "/wt", "ready");
    empty.worktree_directory = None;
    assert_eq!(merge(Some(empty)), Err("worktree directory missing".to_string()));
    let log = vec![Reply::Worktree(Some(assigned("t1", "/wt", "ready")))];
    assert_eq!(
        wants(merge_worktree("t1", "login", &None, &log, 0)),
        r#"Git { directory: "/repo", args: ["symbolic-ref", "--short", "refs/remotes/origin/HEAD"] }"#
    );
}

#[test]
fn worktrees_are_listed_with_their_threads() {
    let found = vec![
        ("/repo".to_string(), "main".to_string()),
        ("/wt".to_string(), "lily/fix".to_string()),
    ];
    let owners = vec![assigned("t1", "/wt", "ready")];
    assert_eq!(
        describe_worktrees(Wording::Plain, "/repo", &found, &owners),
        "Worktrees for `/repo`:\n- `/repo` on `main`\n- `/wt` on `lily/fix` — lily thread t1 (ready)"
    );
    assert_eq!(
        describe_worktrees(Wording::Discord, "/repo", &vec![], &owners),
        "Worktrees for `/repo`:\n(none)"
    );
    let log = vec![
        some("/repo"),
        git_ok("worktree /wt\nbranch refs/heads/x\n"),
        Reply::Worktrees(owners),
    ];
    assert_eq!(
        yields(worktrees_text(Wording::Discord, "c1", &log, 0)),
        Ok(
            "Worktrees for `/repo`:\n- `/wt` on `x` — lily thread <#t1> (ready)".to_string()
        )
    );
    assert_eq!(
        yields(worktrees_text(Wording::Plain, "c1", &vec![Reply::Maybe(None)], 0)),
        Err("this channel is not linked to a project".to_string())
    );
}

#[test]
fn tasks_are_listed_and_cancelled() {
    assert_eq!(
        yields(tasks_text(&vec![Reply::Tasks(vec![])], 0)),
        Ok("No scheduled tasks. Create one with `lily send --send-at ...`.".to_string())
    );
    assert_eq!(wants(cancel_task_text(-7, &vec![], 0)), "CancelTask { id: -7 }");
    assert_eq!(
        yields(cancel_task_text(7, &vec![Reply::Flag(true)], 0)),
        Ok("Cancelled task #7".to_string())
    );
    assert_eq!(
        yields(cancel_task_text(7, &vec![Reply::Flag(false)], 0)),
        Ok("Task #7 is not planned or running".to_string())
    );
}
