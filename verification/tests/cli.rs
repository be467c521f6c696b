//! The command line.

use lily::application::flow::{Flow, Reply};
use lily::cli::{
    check_edit, delete_result, edit_result, edit_task, find_task, linked_line, list_text,
    not_a_directory, project_line, run_edit, run_send, scheduled_text, scheduled_text_with,
    SendArgs,
};
use lily::connector::sqlite::create_scheduled_task;
use lily::domain::task::{build_task, ParsedSendAt, ScheduledTask, TaskPayload};
use lily::time::Timestamp;

fn now() -> Timestamp {
    Timestamp::parse("2026-06-11T12:00:00Z").unwrap()
}

fn to_channel() -> SendArgs {
    SendArgs {
        channel: Some("c1".to_string()),
        thread: None,
        prompt: "review".to_string(),
        send_at: None,
        notify_only: true,
        name: Some("PRs".to_string()),
        user: Some("u1".to_string()),
    }
}

fn to_thread() -> SendArgs {
    SendArgs {
        channel: None,
        thread: Some("t1".to_string()),
        prompt: "check".to_string(),
        send_at: Some("@hourly".to_string()),
        notify_only: false,
        name: None,
        user: None,
    }
}

fn send(a: &SendArgs, log: Vec<Reply>) -> Result<(TaskPayload, ParsedSendAt), String> {
    match run_send(a, now(), &log) {
        Flow::Done(r, _) => r,
        Flow::Do(e) => panic!("asks for {e:?}"),
    }
}

fn task(id: i64) -> ScheduledTask {
    let (payload, at) = send(&to_thread(), vec![]).unwrap();
    create_scheduled_task(id, &build_task(&payload, &at, "{}".to_string()).unwrap()).task
}

#[test]
fn channel_sends_need_a_linked_channel() {
    let a = to_channel();
    match run_send(&a, now(), &vec![]) {
        Flow::Do(e) => {
            assert_eq!(format!("{e:?}"), r#"GetChannelDirectory { channel: "c1" }"#)
        }
        Flow::Done(_, _) => panic!("done"),
    }
    assert_eq!(
        send(&a, vec![Reply::Maybe(None)]).unwrap_err(),
        "channel c1 is not linked to a project"
    );
    let (payload, at) = send(&a, vec![Reply::Maybe(Some("/repo".to_string()))]).unwrap();
    match payload {
        TaskPayload::Channel { channel_id, prompt, name, notify_only, user_id } => {
            assert_eq!((channel_id.as_str(), prompt.as_str()), ("c1", "review"));
            assert_eq!((name, user_id), (Some("PRs".to_string()), Some("u1".to_string())));
            assert!(notify_only);
        }
        other => panic!("{other:?}"),
    }
    assert_eq!(at.next_run_at, now());
}

#[test]
fn thread_sends_refuse_what_they_would_ignore() {
    let (payload, at) = send(&to_thread(), vec![]).unwrap();
    assert!(matches!(payload, TaskPayload::Thread { user_id: None, .. }));
    assert_eq!(at.schedule_kind, "cron");
    let mut a = to_thread();
    a.notify_only = true;
    assert_eq!(send(&a, vec![]).unwrap_err(), "--notify-only only applies to channel sends");
    let mut a = to_thread();
    a.name = Some("x".to_string());
    assert_eq!(send(&a, vec![]).unwrap_err(), "--name only applies to channel sends");
    let mut a = to_thread();
    a.user = Some("u".to_string());
    assert_eq!(send(&a, vec![]).unwrap_err(), "--user only applies to channel sends");
    let mut a = to_thread();
    a.channel = Some("c1".to_string());
    let both = "pass exactly one of --channel or --thread";
    assert_eq!(send(&a, vec![]).unwrap_err(), both);
    a.channel = None;
    a.thread = None;
    assert_eq!(send(&a, vec![]).unwrap_err(), both);
    let mut a = to_thread();
    a.send_at = Some("2020-01-01T00:00:00Z".to_string());
    assert_eq!(
        send(&a, vec![]).unwrap_err(),
        "--send-at must be in the future (2020-01-01T00:00:00Z is not)"
    );
}

#[test]
fn stored_tasks_are_confirmed() {
    let (payload, at) = send(&to_thread(), vec![]).unwrap();
    let t = build_task(&payload, &at, "{}".to_string()).unwrap();
    assert_eq!(
        scheduled_text(7, &t),
        "Scheduled recurring task #7 (@hourly), next run 2026-06-11 13:00:00 UTC"
    );
    let t = build_task(&payload, &ParsedSendAt::immediately(now()), "{}".to_string()).unwrap();
    assert_eq!(scheduled_text(8, &t), "Scheduled task #8 for 2026-06-11 12:00:00 UTC");
    assert_eq!(scheduled_text_with(9, &t, "soon"), "Scheduled task #9 for soon");
}

#[test]
fn task_lists_are_printed() {
    assert_eq!(list_text(&vec![]), vec!["No scheduled tasks.".to_string()]);
    assert_eq!(
        list_text(&vec![task(1), task(2)]),
        vec![
            "#1 [planned] cron `@hourly` UTC (next 2026-06-11 13:00 UTC) → thread t1 — check"
                .to_string(),
            "#2 [planned] cron `@hourly` UTC (next 2026-06-11 13:00 UTC) → thread t1 — check"
                .to_string()
        ]
    );
}

#[test]
fn deletions_and_edits_are_confirmed() {
    assert_eq!(delete_result(3, true), Ok("Cancelled task #3".to_string()));
    assert_eq!(delete_result(3, false), Err("task #3 is not planned or running".to_string()));
    assert_eq!(edit_result(3, true), Ok("Updated task #3".to_string()));
    assert_eq!(edit_result(3, false), Err("task #3 is no longer planned".to_string()));
    assert_eq!(check_edit(&None, &None), Err("pass --prompt and/or --send-at".to_string()));
    assert_eq!(check_edit(&Some("x".to_string()), &None), Ok(()));
    assert_eq!(check_edit(&None, &Some("@daily".to_string())), Ok(()));
    let tasks = vec![task(1), task(5)];
    assert_eq!(find_task(&tasks, 5), Ok(1));
    assert_eq!(find_task(&tasks, 6), Err("task #6 not found".to_string()));
}

#[test]
fn edits_keep_what_is_not_given() {
    let payload = || send(&to_thread(), vec![]).unwrap().0;
    let prompt = Some("new  prompt".to_string());
    let e = edit_task(&task(1), payload(), &prompt, &None, now()).unwrap();
    match e.payload {
        TaskPayload::Thread { thread_id, prompt, .. } => {
            assert_eq!((thread_id.as_str(), prompt.as_str()), ("t1", "new  prompt"))
        }
        other => panic!("{other:?}"),
    }
    assert_eq!(e.prompt_preview, "new prompt");
    assert_eq!(e.schedule.cron_expr, Some("@hourly".to_string()));
    let at = Some("2026-07-01T09:00:00Z".to_string());
    let e = edit_task(&task(1), payload(), &None, &at, now()).unwrap();
    assert_eq!(e.prompt_preview, "check");
    assert_eq!(e.schedule.schedule_kind, "at");
    assert_eq!(e.schedule.cron_expr, None);
    let long = Some("x".repeat(1901));
    assert_eq!(
        edit_task(&task(1), payload(), &long, &at, now()).unwrap_err(),
        "prompt exceeds 1900 characters"
    );
    let past = Some("2020-01-01T00:00:00Z".to_string());
    assert!(edit_task(&task(1), payload(), &prompt, &past, now()).is_err());
}

#[test]
fn an_edit_is_stored_in_one_update() {
    let prompt = Some("new  prompt".to_string());
    let edit = |log: &Vec<Reply>| run_edit(5, &prompt, &None, now(), log);
    let asks = |log: &Vec<Reply>| match edit(log) {
        Flow::Do(e) => format!("{e:?}"),
        Flow::Done(r, n) => panic!("done after {n}: {r:?}"),
    };
    let ends = |log: &Vec<Reply>| match edit(log) {
        Flow::Done(r, n) => {
            assert_eq!(n, log.len());
            r
        }
        Flow::Do(e) => panic!("asks for {e:?}"),
    };
    let mut log = vec![];
    assert_eq!(asks(&log), "ListAllTasks");
    assert_eq!(ends(&vec![Reply::Tasks(vec![task(1)])]), Err("task #5 not found".to_string()));
    assert_eq!(ends(&vec![Reply::Failed("locked".to_string())]), Err("locked".to_string()));
    log.push(Reply::Tasks(vec![task(1), task(5)]));
    assert_eq!(asks(&log), r#"ReadPayload { json: "{}" }"#);
    let payload = send(&to_thread(), vec![]).unwrap().0;
    log.push(Reply::Payload(payload));
    assert_eq!(
        asks(&log),
        r#"WritePayload { payload: Thread { thread_id: "t1", prompt: "new  prompt", user_id: None } }"#
    );
    log.push(Reply::Text("{json}".to_string()));
    let update = asks(&log);
    assert!(
        update.starts_with(
            r#"UpdateTask { id: 5, payload_json: "{json}", prompt_preview: "new prompt", schedule: ScheduleUpdate { schedule_kind: "cron", "#
        ),
        "{update}"
    );
    log.push(Reply::Flag(true));
    assert_eq!(ends(&log), Ok("Updated task #5".to_string()));
    log[3] = Reply::Flag(false);
    assert_eq!(ends(&log), Err("task #5 is no longer planned".to_string()));
}

#[test]
fn a_failed_edit_asks_for_no_update() {
    let prompt = Some("new".to_string());
    let past = Some("2020-01-01T00:00:00Z".to_string());
    let payload = send(&to_thread(), vec![]).unwrap().0;
    let log = vec![Reply::Tasks(vec![task(5)]), Reply::Payload(payload)];
    match run_edit(5, &prompt, &past, now(), &log) {
        Flow::Done(Err(e), 2) => assert_eq!(
            e,
            "--send-at must be in the future (2020-01-01T00:00:00Z is not)"
        ),
        _ => panic!("the edit goes on"),
    }
    match run_edit(5, &None, &None, now(), &vec![]) {
        Flow::Done(Err(e), 0) => assert_eq!(e, "pass --prompt and/or --send-at"),
        _ => panic!("there is nothing to edit"),
    }
}

#[test]
fn projects_are_printed() {
    assert_eq!(linked_line("c1", "/repo"), "Linked channel c1 to /repo");
    assert_eq!(project_line("c1", "/repo"), "c1\t/repo");
    assert_eq!(not_a_directory("/x"), "/x is not a directory");
}
