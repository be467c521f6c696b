//! Schedules, tasks and their lives.

use chrono::{TimeZone, Utc};
use lily::connector::sqlite::{create_scheduled_task, finish_task, raw_task};
use lily::domain::lifecycle::{
    get_due_planned_tasks, list_tasks, recover_stale_running_tasks, ScheduleUpdate, StoredTask,
};
use lily::domain::task::{
    at_schedule_from, build_task, cron_schedule_from, describe_task, describe_with_dates,
    next_cron_run, parse_send_at, run_from, CronReading, NewScheduledTask, ParsedSendAt,
    ScheduledTask, TaskPayload, PROMPT_MAX_LEN,
};
use lily::time::{parse_stored, Timestamp};

fn utc(y: i32, mo: u32, d: u32, h: u32, mi: u32, s: u32) -> Timestamp {
    let t = Utc.with_ymd_and_hms(y, mo, d, h, mi, s).unwrap();
    Timestamp::new(t.timestamp(), 0).unwrap()
}

fn now() -> Timestamp {
    utc(2026, 6, 11, 12, 0, 0)
}

fn channel_payload(prompt: &str) -> TaskPayload {
    TaskPayload::Channel {
        channel_id: "1".into(),
        prompt: prompt.into(),
        name: None,
        notify_only: false,
        user_id: None,
    }
}

fn new_task(send_at: &str) -> NewScheduledTask {
    let parsed = parse_send_at(send_at, now()).unwrap();
    build_task(&channel_payload("review open PRs"), &parsed, "{}".to_string()).unwrap()
}

fn stored(id: i64, send_at: &str) -> StoredTask {
    create_scheduled_task(id, &new_task(send_at))
}

#[test]
fn parses_one_time_utc_timestamp() {
    let parsed = parse_send_at("2026-07-01T09:00:00Z", now()).unwrap();
    assert_eq!(parsed.schedule_kind, "at");
    assert_eq!(parsed.next_run_at, utc(2026, 7, 1, 9, 0, 0));
}

#[test]
fn rejects_past_timestamp() {
    assert!(parse_send_at("2020-01-01T00:00:00Z", now()).is_err());
}

#[test]
fn rejects_non_utc_timestamp() {
    assert!(parse_send_at("2026-07-01T09:00:00+02:00", now()).is_err());
}

#[test]
fn parses_cron_expression() {
    // Every Monday 9am UTC; 2026-06-11 is a Thursday, so the next is the 15th.
    let parsed = parse_send_at("0 9 * * 1", now()).unwrap();
    assert_eq!(parsed.schedule_kind, "cron");
    assert_eq!(parsed.next_run_at, utc(2026, 6, 15, 9, 0, 0));
}

#[test]
fn parses_cron_shortcut() {
    let parsed = parse_send_at("@hourly", now()).unwrap();
    assert_eq!(parsed.schedule_kind, "cron");
    assert_eq!(parsed.next_run_at, utc(2026, 6, 11, 13, 0, 0));
}

#[test]
fn build_task_rejects_overlong_prompt() {
    let payload = TaskPayload::Channel {
        channel_id: "1".into(),
        prompt: "x".repeat(PROMPT_MAX_LEN + 1),
        name: None,
        notify_only: false,
        user_id: None,
    };
    let refused = build_task(&payload, &ParsedSendAt::immediately(now()), "{}".to_string());
    assert!(refused.is_err());
}

#[test]
fn schedules_hold_what_they_were_parsed_from() {
    let once = parse_send_at("  2026-07-01T09:00:00Z ", now()).unwrap();
    assert_eq!(once.run_at, Some(utc(2026, 7, 1, 9, 0, 0)));
    assert_eq!(once.cron_expr, None);
    assert_eq!(once.timezone, None);
    let cron = parse_send_at(" 0 9 * * 1 ", now()).unwrap();
    assert_eq!(cron.run_at, None);
    assert_eq!(cron.cron_expr, Some("0 9 * * 1".to_string()));
    assert_eq!(cron.timezone, Some("UTC".to_string()));
    let soon = ParsedSendAt::immediately(now());
    assert_eq!(soon.schedule_kind, "at");
    assert_eq!(soon.run_at, Some(now()));
    assert_eq!(soon.next_run_at, now());
}

#[test]
fn schedule_errors_name_their_cause() {
    let text = |v: &str| parse_send_at(v, now()).unwrap_err().message();
    assert_eq!(
        text("2026-06-11T12:00:00Z"),
        "--send-at must be in the future (2026-06-11T12:00:00Z is not)"
    );
    assert_eq!(
        text("tomorrow"),
        "--send-at must be a UTC ISO timestamp ending in Z (e.g. 2026-03-01T09:00:00Z) or a cron expression"
    );
    assert_eq!(text(""), text("tomorrow"));
    assert!(text("fooZ").starts_with("invalid timestamp: fooZ: "));
    assert!(text("61 9 * * 1").starts_with("invalid cron expression \"61 9 * * 1\": "));
    assert!(text("0 0 30 2 *").starts_with("no next occurrence for \"0 0 30 2 *\": "));
}

#[test]
fn next_run_is_always_later() {
    let at = utc(2026, 6, 15, 9, 0, 0);
    assert_eq!(next_cron_run("0 9 * * 1", at).unwrap(), utc(2026, 6, 22, 9, 0, 0));
    let within = Timestamp::new(at.seconds() - 1, 999_999_999).unwrap();
    assert_eq!(next_cron_run("0 9 * * 1", within).unwrap(), at);
}

#[test]
fn schedules_follow_what_was_read() {
    let at = utc(2026, 6, 15, 9, 0, 0);
    let cron = cron_schedule_from("x".to_string(), CronReading::Next(at)).unwrap();
    assert_eq!((cron.schedule_kind, cron.next_run_at), ("cron", at));
    assert_eq!(cron.cron_expr, Some("x".to_string()));
    let why = |found| cron_schedule_from("x".to_string(), found).unwrap_err().message();
    assert_eq!(
        why(CronReading::Invalid("bad".to_string())),
        "invalid cron expression \"x\": bad"
    );
    assert_eq!(why(CronReading::Never("end".to_string())), "no next occurrence for \"x\": end");
    assert_eq!(run_from("x", CronReading::Next(at)).unwrap(), at);

    let once = at_schedule_from("v".to_string(), Ok(at), now()).unwrap();
    assert_eq!((once.schedule_kind, once.run_at), ("at", Some(at)));
    let why = |parsed| at_schedule_from("v".to_string(), parsed, now()).unwrap_err().message();
    assert_eq!(why(Ok(now())), "--send-at must be in the future (v is not)");
    assert_eq!(why(Err("no date".to_string())), "invalid timestamp: v: no date");
}

#[test]
fn lines_hold_the_dates_they_are_given() {
    let task = stored(3, "0 9 * * 1").task;
    assert_eq!(
        describe_with_dates(&task, "soon", &Some("before".to_string())),
        "#3 [planned] cron `0 9 * * 1` UTC (next soon) (last run before) → channel 1 — review open PRs"
    );
    let once = stored(4, "2026-07-01T09:00:00Z").task;
    assert_eq!(
        describe_with_dates(&once, "soon", &None),
        "#4 [planned] at soon → channel 1 — review open PRs"
    );
}

#[test]
fn tasks_carry_their_target() {
    let task = new_task("2026-07-01T09:00:00Z");
    assert_eq!(task.channel_id, Some("1".to_string()));
    assert_eq!(task.thread_id, None);
    assert_eq!(task.prompt_preview, "review open PRs");
    assert_eq!(task.payload_json, "{}");
    let payload =
        TaskPayload::Thread { thread_id: "9".into(), prompt: "a  b".into(), user_id: None };
    let task = build_task(&payload, &ParsedSendAt::immediately(now()), "[]".into()).unwrap();
    assert_eq!(task.channel_id, None);
    assert_eq!(task.thread_id, Some("9".to_string()));
    assert_eq!(task.prompt_preview, "a b");
}

#[test]
fn longest_prompt_is_accepted() {
    let payload = channel_payload(&"x".repeat(PROMPT_MAX_LEN));
    let soon = ParsedSendAt::immediately(now());
    assert!(build_task(&payload, &soon, String::new()).is_ok());
    let payload = channel_payload(&"x".repeat(PROMPT_MAX_LEN + 1));
    let refused = build_task(&payload, &soon, String::new()).unwrap_err();
    assert_eq!(refused.message(), "prompt exceeds 1900 characters");
}

#[test]
fn tasks_are_described_on_one_line() {
    let mut task = stored(3, "0 9 * * 1").task;
    assert_eq!(
        describe_task(&task),
        "#3 [planned] cron `0 9 * * 1` UTC (next 2026-06-15 09:00 UTC) → channel 1 — review open PRs"
    );
    task.thread_id = Some("7".to_string());
    task.last_run_at = Some(now());
    task.last_error = Some("boom".to_string());
    assert_eq!(
        describe_task(&task),
        "#3 [planned] cron `0 9 * * 1` UTC (next 2026-06-15 09:00 UTC) (last run 2026-06-11 12:00 UTC) → thread 7 — review open PRs"
    );
    task.attempts = 2;
    task.cron_expr = None;
    task.timezone = None;
    assert_eq!(
        describe_task(&task),
        "#3 [planned] cron `?` UTC (next 2026-06-15 09:00 UTC) (last run 2026-06-11 12:00 UTC) → thread 7 — review open PRs (attempts: 2, last error: boom)"
    );
    let once = stored(4, "2026-07-01T09:00:00Z").task;
    assert_eq!(
        describe_task(&once),
        "#4 [planned] at 2026-07-01 09:00 UTC → channel 1 — review open PRs"
    );
}

// ---- the life of a task ----

#[test]
fn a_task_is_claimed_once() {
    let mut t = stored(1, "2026-07-01T09:00:00Z");
    assert!(t.claim_task_running(now()));
    assert_eq!(t.task.status, "running");
    assert_eq!(t.running_started_at, Some(now()));
    assert!(!t.claim_task_running(now()));
}

#[test]
fn stale_runs_are_planned_again() {
    let mut t = stored(1, "2026-07-01T09:00:00Z");
    t.claim_task_running(now());
    assert!(!t.recover_stale_running(now().earlier(1).unwrap()));
    assert_eq!(t.task.status, "running");
    assert!(t.recover_stale_running(now()));
    assert_eq!(t.task.status, "planned");
    assert_eq!(t.running_started_at, None);
    assert!(!t.recover_stale_running(now()));
}

#[test]
fn only_stale_runs_are_recovered() {
    let mut tasks = vec![
        stored(1, "2026-07-01T09:00:00Z"),
        stored(2, "2026-07-01T09:00:00Z"),
        stored(3, "2026-07-01T09:00:00Z"),
        stored(4, "2026-07-01T09:00:00Z"),
    ];
    tasks[1].claim_task_running(now().earlier(2).unwrap());
    tasks[2].claim_task_running(now());
    tasks[3].claim_task_running(now().earlier(5).unwrap());
    assert_eq!(recover_stale_running_tasks(&mut tasks, now().earlier(2).unwrap()), vec![1, 3]);
    let statuses: Vec<&str> = tasks.iter().map(|t| t.task.status.as_str()).collect();
    assert_eq!(statuses, vec!["planned", "planned", "running", "planned"]);
    assert_eq!(tasks[2].running_started_at, Some(now()));
    assert_eq!(tasks[3].running_started_at, None);
    assert_eq!(recover_stale_running_tasks(&mut tasks, now().earlier(2).unwrap()), Vec::<usize>::new());
}

#[test]
fn a_completed_task_stays_completed() {
    let mut t = stored(1, "2026-07-01T09:00:00Z");
    t.claim_task_running(now());
    t.mark_task_completed(now());
    assert_eq!(t.task.status, "completed");
    assert_eq!(t.task.last_run_at, Some(now()));
    assert!(!t.cancel_task());
    assert!(!t.claim_task_running(now()));
    t.mark_task_failed(now(), "late");
    assert_eq!(t.task.status, "completed");
    assert_eq!(t.task.last_error, None);
}

#[test]
fn cancellation_wins_over_a_finishing_worker() {
    let mut t = stored(1, "0 9 * * 1");
    t.claim_task_running(now());
    assert!(t.cancel_task());
    assert_eq!(t.running_started_at, None);
    t.mark_task_cron_rescheduled(now(), utc(2026, 6, 22, 9, 0, 0), None);
    t.mark_task_completed(now());
    t.mark_task_failed(now(), "boom");
    assert_eq!(t.task.status, "cancelled");
    assert_eq!(t.task.attempts, 0);
}

#[test]
fn recurring_tasks_count_their_failures() {
    let mut t = stored(1, "0 9 * * 1");
    t.claim_task_running(now());
    t.mark_task_cron_rescheduled(now(), utc(2026, 6, 22, 9, 0, 0), Some("boom".to_string()));
    assert_eq!(t.task.status, "planned");
    assert_eq!(t.task.attempts, 1);
    assert_eq!(t.task.last_error, Some("boom".to_string()));
    assert_eq!(t.task.next_run_at, utc(2026, 6, 22, 9, 0, 0));
    t.claim_task_running(now());
    t.mark_task_cron_rescheduled(now(), utc(2026, 6, 29, 9, 0, 0), None);
    assert_eq!(t.task.attempts, 1);
    assert_eq!(t.task.last_error, None);
}

#[test]
fn failed_tasks_keep_their_error() {
    let mut t = stored(1, "2026-07-01T09:00:00Z");
    t.claim_task_running(now());
    t.mark_task_failed(now(), "boom");
    assert_eq!(t.task.status, "failed");
    assert_eq!(t.task.last_error, Some("boom".to_string()));
    assert_eq!(t.task.attempts, 1);
}

#[test]
fn only_planned_tasks_are_edited() {
    let schedule = ScheduleUpdate::parsed(&parse_send_at("@hourly", now()).unwrap());
    let mut t = stored(1, "2026-07-01T09:00:00Z");
    assert!(t.update_task("{\"a\":1}", "new", &schedule));
    assert_eq!(t.task.payload_json, "{\"a\":1}");
    assert_eq!(t.task.prompt_preview, "new");
    assert_eq!(t.task.schedule_kind, "cron");
    assert_eq!(t.task.run_at, None);
    assert_eq!(t.task.next_run_at, utc(2026, 6, 11, 13, 0, 0));
    let kept = ScheduleUpdate::unchanged(&t.task);
    assert!(t.update_task("{}", "again", &kept));
    assert_eq!(t.task.cron_expr, Some("@hourly".to_string()));
    t.claim_task_running(now());
    assert!(!t.update_task("{}", "late", &schedule));
    assert_eq!(t.task.prompt_preview, "again");
}

#[test]
fn due_tasks_come_in_order() {
    let mut tasks = vec![
        stored(1, "2026-06-12T10:00:00Z"),
        stored(2, "2026-06-12T09:00:00Z"),
        stored(3, "2026-06-12T09:00:00Z"),
        stored(4, "2026-06-14T09:00:00Z"),
    ];
    let later = utc(2026, 6, 12, 10, 0, 0);
    assert_eq!(get_due_planned_tasks(&tasks, later, 20), vec![1, 2, 0]);
    assert_eq!(get_due_planned_tasks(&tasks, later, 2), vec![1, 2]);
    assert_eq!(get_due_planned_tasks(&tasks, now(), 20), Vec::<usize>::new());
    tasks[1].claim_task_running(later);
    assert_eq!(get_due_planned_tasks(&tasks, later, 20), vec![2, 0]);
    assert_eq!(list_tasks(&tasks, false), vec![1, 2, 0, 3]);
    tasks[1].mark_task_completed(later);
    assert_eq!(list_tasks(&tasks, false), vec![2, 0, 3]);
    assert_eq!(list_tasks(&tasks, true), vec![1, 2, 0, 3]);
}

// ---- rows ----

#[test]
fn rows_are_read_back_to_the_millisecond() {
    let mut t = stored(5, "2026-07-01T09:00:00.123456789Z");
    t.claim_task_running(Timestamp::new(now().seconds(), 987_654_321).unwrap());
    let raw = raw_task(&t);
    assert_eq!(raw.next_run_at, "2026-07-01T09:00:00.123Z");
    assert_eq!(raw.run_at, Some("2026-07-01T09:00:00.123Z".to_string()));
    assert_eq!(raw.running_started_at, Some("2026-06-11T12:00:00.987Z".to_string()));
    assert_eq!(raw.last_run_at, None);
    let back = finish_task(raw).unwrap();
    assert_eq!(back.task.id, 5);
    assert_eq!(back.task.status, "running");
    assert_eq!(back.task.next_run_at, t.task.next_run_at.to_millis());
    assert_eq!(back.running_started_at, Some(t.running_started_at.unwrap().to_millis()));
    assert_eq!(back.task.prompt_preview, t.task.prompt_preview);
}

#[test]
fn bad_times_in_a_row_are_reported() {
    let mut raw = raw_task(&stored(5, "2026-07-01T09:00:00Z"));
    raw.next_run_at = "soon".to_string();
    assert!(finish_task(raw).unwrap_err().starts_with("bad timestamp in db: soon: "));
    let mut raw = raw_task(&stored(5, "2026-07-01T09:00:00Z"));
    raw.run_at = Some("then".to_string());
    raw.next_run_at = "soon".to_string();
    assert!(finish_task(raw).unwrap_err().starts_with("bad timestamp in db: then: "));
    assert!(parse_stored("x").is_err());
}

#[test]
fn an_unreadable_start_is_none() {
    let mut t = stored(5, "2026-07-01T09:00:00Z");
    t.claim_task_running(now());
    let mut raw = raw_task(&t);
    raw.running_started_at = Some("once".to_string());
    let back = finish_task(raw).unwrap();
    assert_eq!(back.task.status, "running");
    assert_eq!(back.running_started_at, None);
}

#[test]
fn new_rows_are_planned() {
    let t: ScheduledTask = stored(8, "0 9 * * 1").task;
    assert_eq!((t.id, t.status.as_str(), t.attempts), (8, "planned", 0));
    assert_eq!((t.last_run_at, t.last_error), (None, None));
}

#[test]
fn timestamps_stay_in_the_calendar() {
    assert_eq!(now().seconds(), 1781179200);
    assert_eq!(Timestamp::new(i64::MAX, 0), None);
    assert_eq!(Timestamp::new(-8334601228800, 0).unwrap().seconds(), -8334601228800);
    assert_eq!(Timestamp::new(-8334601228801, 0), None);
    assert_eq!(Timestamp::new(8210266876800, 0), None);
    assert_eq!(Timestamp::new(59, 1_500_000_000).unwrap().subsec_nanos(), 1_500_000_000);
    assert_eq!(Timestamp::new(60, 1_500_000_000), None);
    assert_eq!(Timestamp::new(0, 2_000_000_000), None);
    assert!(now().earlier(1).unwrap().is_before(&now()));
    assert_eq!(Timestamp::new(-8334601228800, 0).unwrap().earlier(1), None);
    let limits = chrono::DateTime::<Utc>::MIN_UTC.timestamp();
    assert_eq!(limits, -8334601228800);
    assert_eq!(chrono::DateTime::<Utc>::MAX_UTC.timestamp(), 8210266876799);
}

#[test]
fn timestamps_have_text_forms() {
    let t = Timestamp::parse("2026-03-01T10:00:05.25+01:00").unwrap();
    assert_eq!(t, Timestamp::new(1772355605, 250_000_000).unwrap());
    assert_eq!(t.to_minute_text(), "2026-03-01 09:00 UTC");
    assert_eq!(t.to_second_text(), "2026-03-01 09:00:05 UTC");
    assert_eq!(t.to_stored_text(), "2026-03-01T09:00:05.250Z");
    assert_eq!(parse_stored("2026-03-01T09:00:05.250Z"), Ok(t));
}
