//! What happens when a task fires.

use lily::application::flow::{Flow, Reply};
use lily::application::task_runner::{
    execute_task, finalize_task, is_still_running, resolve_thread_directory, settle, tick, Finish,
};
use lily::connector::sqlite::{
    create_pending_worktree, create_scheduled_task, set_worktree_error, set_worktree_ready,
};
use lily::domain::lifecycle::StoredTask;
use lily::domain::task::{build_task, parse_send_at, TaskPayload};
use lily::domain::worktree::ThreadWorktree;
use lily::time::Timestamp;

fn next<T>(f: Flow<T>) -> String {
    match f {
        Flow::Do(e) => format!("{e:?}"),
        Flow::Done(_, n) => panic!("done after {n}"),
    }
}

fn result<T>(f: Flow<T>) -> T {
    match f {
        Flow::Done(t, _) => t,
        Flow::Do(e) => panic!("asks for {e:?}"),
    }
}

fn some(s: &str) -> Reply {
    Reply::Maybe(Some(s.to_string()))
}

fn now() -> Timestamp {
    Timestamp::parse("2026-06-11T12:00:00Z").unwrap()
}

fn stored(id: i64, send_at: &str) -> StoredTask {
    let payload =
        TaskPayload::Thread { thread_id: "t1".into(), prompt: "go".into(), user_id: None };
    let parsed = parse_send_at(send_at, now()).unwrap();
    create_scheduled_task(id, &build_task(&payload, &parsed, "{}".into()).unwrap())
}

fn worktree() -> ThreadWorktree {
    create_pending_worktree("t1", "lily/fix", "/repo")
}

fn resolve(log: &Vec<Reply>) -> Flow<Result<String, String>> {
    resolve_thread_directory("t1", log, 0)
}

#[test]
fn threads_without_a_worktree_run_in_the_project() {
    let mut log = vec![];
    assert_eq!(next(resolve(&log)), r#"GetWorktree { thread: "t1" }"#);
    log.push(Reply::Worktree(None));
    assert_eq!(next(resolve(&log)), r#"ThreadParent { thread: "t1" }"#);
    log.push(some("c1"));
    assert_eq!(next(resolve(&log)), r#"GetChannelDirectory { channel: "c1" }"#);
    log.push(some("/repo"));
    assert_eq!(result(resolve(&log)), Ok("/repo".to_string()));
    log[2] = Reply::Maybe(None);
    assert_eq!(
        result(resolve(&log)),
        Err("channel c1 is not linked to a project (use /add-project)".to_string())
    );
    log = vec![Reply::Worktree(None), Reply::Maybe(None)];
    assert_eq!(result(resolve(&log)), Err("thread t1 has no parent channel".to_string()));
    log = vec![Reply::Worktree(None), Reply::Failed("offline".to_string())];
    assert_eq!(
        result(resolve(&log)),
        Err("failed to resolve thread parent: offline".to_string())
    );
}

#[test]
fn worktree_threads_never_run_in_the_project() {
    let of = |wt: ThreadWorktree| result(resolve(&vec![Reply::Worktree(Some(wt))]));
    assert_eq!(
        of(worktree()),
        Err(
            "the worktree for this thread is still being created; try again in a moment"
                .to_string()
        )
    );
    let mut wt = worktree();
    set_worktree_ready(&mut wt, "/wt");
    assert_eq!(of(wt.clone()), Ok("/wt".to_string()));
    set_worktree_error(&mut wt, "disk full");
    assert_eq!(of(wt.clone()), Err("worktree is in state 'error': disk full".to_string()));
    assert_eq!(wt.worktree_directory, Some("/wt".to_string()));
    set_worktree_ready(&mut wt, "/wt2");
    assert_eq!(wt.error_message, None);
    wt.worktree_directory = None;
    assert_eq!(of(wt), Err("worktree is marked ready but has no directory".to_string()));
}

#[test]
fn thread_tasks_wait_their_turn() {
    let payload =
        Ok(TaskPayload::Thread { thread_id: "t1".into(), prompt: "go".into(), user_id: None });
    let mut log = vec![Reply::Worktree(None), some("c1"), some("/repo")];
    assert_eq!(
        next(execute_task(&payload, &log)),
        "Post { channel: \"t1\", text: \"» **lily-cli:**\\ngo\" }"
    );
    log.push(Reply::Text("m1".to_string()));
    assert_eq!(
        next(execute_task(&payload, &log)),
        r#"OpenRuntime { thread: "t1", directory: "/repo" }"#
    );
    log.push(Reply::Done);
    assert_eq!(
        next(execute_task(&payload, &log)),
        r#"Enqueue { thread: "t1", message: QueuedMessage { prompt: "go", username: "lily-cli", source_message_id: None, show_marker: false }, wait: true }"#
    );
    log.push(Reply::Position(Some(1)));
    assert_eq!(result(execute_task(&payload, &log)), Ok(()));
}

#[test]
fn channel_tasks_start_a_thread() {
    let payload = |notify_only: bool| {
        Ok(TaskPayload::Channel {
            channel_id: "c1".into(),
            prompt: "review  PRs".into(),
            name: None,
            notify_only,
            user_id: Some("u1".into()),
        })
    };
    let mut log = vec![some("/repo")];
    assert_eq!(
        next(execute_task(&payload(false), &log)),
        r#"Post { channel: "c1", text: "review  PRs" }"#
    );
    log.push(Reply::Text("m1".to_string()));
    assert_eq!(
        next(execute_task(&payload(false), &log)),
        r#"CreateThread { channel: "c1", from: Some("m1"), name: "review PRs" }"#
    );
    log.push(Reply::Text("t9".to_string()));
    assert_eq!(
        next(execute_task(&payload(false), &log)),
        r#"AddMember { thread: "t9", user: "u1" }"#
    );
    log.push(Reply::Failed("left".to_string()));
    assert_eq!(result(execute_task(&payload(true), &log)), Ok(()));
    assert_eq!(
        next(execute_task(&payload(false), &log)),
        r#"OpenRuntime { thread: "t9", directory: "/repo" }"#
    );
    log.push(Reply::Done);
    assert!(next(execute_task(&payload(false), &log)).ends_with("wait: false }"));
    log = vec![Reply::Maybe(None)];
    assert_eq!(
        result(execute_task(&payload(false), &log)),
        Err("channel c1 is not linked to a project".to_string())
    );
    log = vec![some("/repo"), Reply::Failed("muted".to_string())];
    assert_eq!(
        result(execute_task(&payload(false), &log)),
        Err("failed to post task starter message: muted".to_string())
    );
}

#[test]
fn unreadable_payloads_fail() {
    let payload = Err("eof".to_string());
    assert_eq!(
        result(execute_task(&payload, &vec![])),
        Err("bad task payload json: eof".to_string())
    );
}

#[test]
fn outcomes_decide_what_becomes_of_a_task() {
    let once = stored(1, "2026-07-01T09:00:00Z").task;
    assert!(matches!(finalize_task(&once, &Ok(()), now()), Finish::Complete));
    match finalize_task(&once, &Err("boom".to_string()), now()) {
        Finish::Fail { cause } => assert_eq!(cause, "boom"),
        other => panic!("{other:?}"),
    }
    let mut cron = stored(2, "@hourly").task;
    match finalize_task(&cron, &Err("boom".to_string()), now()) {
        Finish::Reschedule { next, error } => {
            assert_eq!(next, Timestamp::parse("2026-06-11T13:00:00Z").unwrap());
            assert_eq!(error, Some("boom".to_string()));
        }
        other => panic!("{other:?}"),
    }
    cron.cron_expr = None;
    match finalize_task(&cron, &Ok(()), now()) {
        Finish::Fail { cause } => assert!(cause.starts_with("invalid cron expression \"\": ")),
        other => panic!("{other:?}"),
    }
    match finalize_task(&cron, &Err("boom".to_string()), now()) {
        Finish::Fail { cause } => assert_eq!(cause, "boom"),
        other => panic!("{other:?}"),
    }
}

#[test]
fn finished_tasks_are_settled() {
    let mut t = stored(2, "@hourly");
    t.claim_task_running(now());
    let finish = finalize_task(&t.task, &Ok(()), now());
    settle(&mut t, finish, now());
    assert_eq!(t.task.status, "planned");
    assert_eq!(t.task.next_run_at, Timestamp::parse("2026-06-11T13:00:00Z").unwrap());
    t.claim_task_running(now());
    t.cancel_task();
    settle(&mut t, Finish::Complete, now());
    assert_eq!(t.task.status, "cancelled");
}

#[test]
fn a_look_gives_up_stale_runs_and_runs_what_is_due() {
    let at = now();
    let mut log = vec![];
    assert_eq!(
        next(tick(at, &log)),
        format!("RecoverStale {{ before: {:?} }}", at.earlier(2).unwrap())
    );
    log.push(Reply::Count(1));
    assert_eq!(next(tick(at, &log)), format!("DueTasks {{ now: {at:?}, limit: 20 }}"));
    let due = vec![
        stored(1, "@hourly").task,
        stored(2, "@hourly").task,
        stored(3, "@hourly").task,
    ];
    log.push(Reply::Tasks(due));
    assert_eq!(next(tick(at, &log)), "ClaimTask { id: 1 }");
    // Someone else took the first one.
    log.push(Reply::Flag(false));
    assert_eq!(next(tick(at, &log)), "ClaimTask { id: 2 }");
    log.push(Reply::Flag(true));
    assert_eq!(next(tick(at, &log)), "TaskStatus { id: 2 }");
    // The second one was cancelled after the claim.
    log.push(some("cancelled"));
    assert_eq!(next(tick(at, &log)), "ClaimTask { id: 3 }");
    log.push(Reply::Flag(true));
    log.push(some("running"));
    assert!(next(tick(at, &log)).starts_with("RunTask { task: ScheduledTask { id: 3,"));
    log.push(Reply::Done);
    assert_eq!(result(tick(at, &log)), Ok(()));
}

#[test]
fn only_running_tasks_are_run() {
    assert!(is_still_running(&Some("running".to_string())));
    assert!(!is_still_running(&Some("cancelled".to_string())));
    assert!(!is_still_running(&None));
}
