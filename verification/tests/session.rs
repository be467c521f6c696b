//! Threads, their queues and their runs.

use lily::application::flow::{Flow, Reply};
use lily::application::session_runtime::{
    announce, dispatch, ensure_session, failure_text, run_prompt, turn_messages, Incoming,
    LiveRenderer, Runtimes, ThreadRuntime,
};
use lily::connector::opencode::{broadcast_event, Event};
use lily::domain::session::{EnqueueResult, Part, QueueEditOutcome, QueuedMessage};
use lily::json::parse;
use std::time::Duration;

fn msg(prompt: &str, source: Option<&str>) -> QueuedMessage {
    QueuedMessage {
        prompt: prompt.to_string(),
        username: "tester".to_string(),
        source_message_id: source.map(str::to_string),
        show_marker: false,
    }
}

/// A runtime in the "busy" state, as if a run were in flight.
fn busy_runtime() -> ThreadRuntime {
    let mut rt = ThreadRuntime::new(
        "thread-1",
        "/tmp/project".to_string(),
        Some("ses_test".to_string()),
    );
    assert!(matches!(rt.enqueue_incoming(msg("running", None), false), Incoming::Start(_)));
    rt
}

fn push(rt: &mut ThreadRuntime, m: QueuedMessage) {
    rt.enqueue_incoming(m, true);
}

fn prompts(rt: &ThreadRuntime) -> Vec<String> {
    rt.queue().iter().map(|m| m.prompt.clone()).collect()
}

fn asked<T>(f: Flow<T>) -> String {
    match f {
        Flow::Do(e) => format!("{e:?}"),
        Flow::Done(_, n) => panic!("done after {n}"),
    }
}

fn ended<T>(f: Flow<T>) -> T {
    match f {
        Flow::Done(t, _) => t,
        Flow::Do(e) => panic!("asks for {e:?}"),
    }
}

fn text_part(text: &str) -> Part {
    Part {
        id: "p".to_string(),
        kind: "text".to_string(),
        payload: parse(&format!(r#"{{"text":"{text}"}}"#)).unwrap(),
    }
}

#[test]
fn edit_with_queue_suffix_updates_prompt() {
    let mut rt = busy_runtime();
    push(&mut rt, msg("original", Some("m1")));

    let outcome = rt.update_queue_item_for_edit("m1", "edited text. queue");
    assert_eq!(outcome, QueueEditOutcome::Updated);
    assert_eq!(rt.queue()[0].prompt, "edited text");
}

#[test]
fn edit_without_queue_suffix_removes_entry() {
    let mut rt = busy_runtime();
    push(&mut rt, msg("original", Some("m1")));

    let outcome = rt.update_queue_item_for_edit("m1", "no longer queued");
    assert_eq!(outcome, QueueEditOutcome::Removed);
    assert!(rt.queue().is_empty());
}

#[test]
fn edit_of_unknown_message_is_a_noop() {
    let mut rt = busy_runtime();
    push(&mut rt, msg("original", Some("m1")));

    let outcome = rt.update_queue_item_for_edit("m2", "whatever. queue");
    assert_eq!(outcome, QueueEditOutcome::NotFound);
    assert_eq!(rt.queue().len(), 1);
}

#[test]
fn clear_queue_by_position_and_fully() {
    let mut rt = busy_runtime();
    push(&mut rt, msg("a", Some("m1")));
    push(&mut rt, msg("b", Some("m2")));
    push(&mut rt, msg("c", Some("m3")));

    // 1-based position removal.
    assert_eq!(rt.clear_queue(Some(2)).unwrap(), 1);
    {
        assert_eq!(rt.queue().len(), 2);
        assert_eq!(rt.queue()[0].prompt, "a");
        assert_eq!(rt.queue()[1].prompt, "c");
    }
    // Out-of-range position errors.
    assert!(rt.clear_queue(Some(5)).is_err());
    assert!(rt.clear_queue(Some(0)).is_err());
    // Clearing everything reports the count.
    assert_eq!(rt.clear_queue(None).unwrap(), 2);
    assert!(rt.queue().is_empty());
}

#[test]
fn bad_positions_are_named() {
    let mut rt = busy_runtime();
    assert_eq!(rt.clear_queue(Some(3)), Err("no queued message at position 3".to_string()));
    assert_eq!(rt.clear_queue(None), Ok(0));
}

#[test]
fn idle_threads_start_at_once() {
    let mut rt = ThreadRuntime::new("t", "/p".to_string(), None);
    assert!(!rt.is_busy());
    let incoming = rt.enqueue_incoming(msg("go", Some("m1")), true);
    assert!(matches!(incoming.result(), EnqueueResult::Dispatched));
    match incoming {
        Incoming::Start(m) => assert_eq!((m.prompt.as_str(), m.show_marker), ("go", false)),
        other => panic!("{other:?}"),
    }
    assert!(rt.is_busy());
    assert!(rt.queue().is_empty());
}

#[test]
fn busy_threads_queue_or_interrupt() {
    let mut rt = busy_runtime();
    let first = rt.enqueue_incoming(msg("a", Some("m1")), true);
    assert!(matches!(first.result(), EnqueueResult::Queued(1)));
    let second = rt.enqueue_incoming(msg("b", Some("m2")), true);
    assert!(matches!(second.result(), EnqueueResult::Queued(2)));
    let third = rt.enqueue_incoming(msg("now", Some("m3")), false);
    assert!(matches!(third.result(), EnqueueResult::Dispatched));
    assert_eq!(prompts(&rt), vec!["now", "a", "b"]);
    assert!(!rt.queue()[0].show_marker);
    assert!(rt.queue()[1].show_marker);
    match third {
        Incoming::Interrupt(source) => {
            assert_eq!(
                rt.interrupt_target(&source),
                Some(("ses_test".to_string(), "/tmp/project".to_string()))
            );
        }
        other => panic!("{other:?}"),
    }
    assert_eq!(rt.interrupt_target(&Some("m1".to_string())), None);
}

#[test]
fn nothing_to_interrupt_once_the_message_is_dispatched() {
    let mut rt = busy_runtime();
    rt.enqueue_incoming(msg("now", Some("m3")), false);
    assert_eq!(rt.next_dispatch().unwrap().prompt, "now");
    assert_eq!(rt.interrupt_target(&Some("m3".to_string())), None);
    rt.reset_session();
    rt.enqueue_incoming(msg("again", Some("m4")), false);
    assert_eq!(rt.interrupt_target(&Some("m4".to_string())), None);
}

#[test]
fn queues_are_served_in_order() {
    let mut rt = busy_runtime();
    push(&mut rt, msg("a", None));
    push(&mut rt, msg("b", None));
    assert_eq!(rt.next_dispatch().unwrap().prompt, "a");
    assert_eq!(rt.next_dispatch().unwrap().prompt, "b");
    assert!(rt.is_busy());
    assert!(rt.next_dispatch().is_none());
    assert!(!rt.is_busy());
}

#[test]
fn edits_touch_one_entry_only() {
    let mut rt = busy_runtime();
    push(&mut rt, msg("a", Some("m1")));
    push(&mut rt, msg("b", Some("m2")));
    push(&mut rt, msg("c", None));
    assert_eq!(rt.update_queue_item_for_edit("m2", "b2! queue"), QueueEditOutcome::Updated);
    assert_eq!(prompts(&rt), vec!["a", "b2", "c"]);
    assert!(rt.queue()[1].show_marker);
    assert_eq!(rt.update_queue_item_for_edit("m1", "why? btw"), QueueEditOutcome::Removed);
    assert_eq!(prompts(&rt), vec!["b2", "c"]);
}

#[test]
fn threads_have_one_runtime_each() {
    let mut all = Runtimes::new();
    assert!(!all.contains("t1"));
    assert_eq!(all.get_or_create_runtime("t1", "/a".into(), Ok(Some("s1".into()))), Ok(()));
    assert_eq!(all.get_or_create_runtime("t2", "/b".into(), Ok(None)), Ok(()));
    assert_eq!(all.get("t1").unwrap().session_id(), &Some("s1".to_string()));
    all.get_mut("t1").unwrap().enqueue_incoming(msg("go", None), false);
    push(all.get_mut("t1").unwrap(), msg("later", Some("m1")));
    // The directory changes; queue and session stay.
    assert_eq!(all.get_or_create_runtime("t1", "/c".into(), Ok(None)), Ok(()));
    let rt = all.get("t1").unwrap();
    assert_eq!((rt.thread_id(), rt.directory()), ("t1", "/c"));
    assert_eq!(rt.session_id(), &Some("s1".to_string()));
    assert_eq!(prompts(rt), vec!["later"]);
    assert!(all.get("t3").is_none());
}

#[test]
fn storage_failures_do_not_look_like_no_session() {
    let mut all = Runtimes::new();
    assert_eq!(
        all.get_or_create_runtime("t1", "/a".into(), Err("disk".into())),
        Err("disk".to_string())
    );
    assert!(!all.contains("t1"));
    all.get_or_create_runtime("t1", "/a".into(), Ok(None)).unwrap();
    assert_eq!(all.get_or_create_runtime("t1", "/b".into(), Err("disk".into())), Ok(()));
    assert_eq!(all.get("t1").unwrap().directory(), "/b");
}

#[test]
fn edits_find_their_thread() {
    let mut all = Runtimes::new();
    for t in ["t1", "t2"] {
        all.get_or_create_runtime(t, "/a".into(), Ok(None)).unwrap();
        all.get_mut(t).unwrap().enqueue_incoming(msg("go", None), false);
    }
    push(all.get_mut("t2").unwrap(), msg("later", Some("m9")));
    assert_eq!(
        all.update_queue_item_in_any("m9", "sooner. queue"),
        Some(("t2".to_string(), QueueEditOutcome::Updated))
    );
    assert_eq!(prompts(all.get("t2").unwrap()), vec!["sooner"]);
    assert_eq!(
        all.update_queue_item_in_any("m9", "never mind"),
        Some(("t2".to_string(), QueueEditOutcome::Removed))
    );
    assert_eq!(all.update_queue_item_in_any("m9", "x. queue"), None);
}

#[test]
fn sessions_are_replaced_and_reset() {
    let mut rt = busy_runtime();
    rt.set_session_id("ses_2");
    assert_eq!(rt.session_id(), &Some("ses_2".to_string()));
    rt.reset_session();
    assert_eq!(rt.session_id(), &None);
    rt.retarget("/elsewhere".to_string());
    assert_eq!(rt.directory(), "/elsewhere");
}

#[test]
fn waiting_messages_are_announced() {
    let mut m = msg("fix  the\ntest", None);
    assert_eq!(announce(&m), None);
    m.show_marker = true;
    assert_eq!(announce(&m), Some("» **tester:** fix the test".to_string()));
    m.prompt = "y".repeat(200);
    assert_eq!(announce(&m), Some(format!("» **tester:** {}", "y".repeat(150))));
    assert_eq!(failure_text("boom"), "⚠️ boom");
}

#[test]
fn sessions_are_created_on_first_use() {
    let known = Some("s1".to_string());
    assert_eq!(ended(ensure_session("t", &known, "/p", &vec![], 0)), Ok("s1".to_string()));
    let mut log = vec![];
    assert_eq!(
        asked(ensure_session("t", &None, "/p", &log, 0)),
        r#"CreateSession { directory: "/p", title: "chat thread t" }"#
    );
    log.push(Reply::Text("s2".to_string()));
    assert_eq!(
        asked(ensure_session("t", &None, "/p", &log, 0)),
        r#"BindSession { thread: "t", session: "s2" }"#
    );
    log.push(Reply::Done);
    assert_eq!(ended(ensure_session("t", &None, "/p", &log, 0)), Ok("s2".to_string()));
    log.pop();
    log.push(Reply::Failed("disk".to_string()));
    assert_eq!(ended(ensure_session("t", &None, "/p", &log, 0)), Err("disk".to_string()));
}

#[test]
fn a_run_sends_its_texts_and_a_footer() {
    let s = Some("s1".to_string());
    let mut log = vec![];
    assert_eq!(
        asked(run_prompt("t", &s, "/p", "go", &log, 0)),
        r#"Prompt { thread: "t", directory: "/p", session: "s1", text: "go" }"#
    );
    log.push(Reply::Turn {
        parts: vec![text_part("one"), text_part("two")],
        elapsed: Duration::from_secs(75),
    });
    let sends = ["⬥ one", "⬥ two", "-# lily ⋅ 1m 15s"];
    for text in sends {
        assert_eq!(
            asked(run_prompt("t", &s, "/p", "go", &log, 0)),
            format!("Send {{ thread: \"t\", text: \"{text}\" }}")
        );
        // A message that cannot be sent does not stop the others.
        log.push(Reply::Failed("down".to_string()));
    }
    assert_eq!(ended(run_prompt("t", &s, "/p", "go", &log, 0)), Ok(()));
}

#[test]
fn silent_runs_say_so() {
    let tool = Part {
        id: "p".to_string(),
        kind: "tool".to_string(),
        payload: parse(r#"{"tool":"bash","state":{"status":"completed"}}"#).unwrap(),
    };
    assert_eq!(
        turn_messages(&vec![tool, text_part(" ")], Duration::from_secs(3)),
        vec!["⬥ (no reply text)".to_string(), "-# lily ⋅ 3s".to_string()]
    );
}

#[test]
fn failed_runs_are_told_and_the_loop_goes_on() {
    let s = Some("s1".to_string());
    let mut m = msg("go", None);
    m.show_marker = true;
    let mut log = vec![];
    assert_eq!(
        asked(dispatch("t", &s, "/p", &m, &log)),
        r#"Send { thread: "t", text: "» **tester:** go" }"#
    );
    log.push(Reply::Done);
    assert_eq!(
        asked(dispatch("t", &s, "/p", &m, &log)),
        r#"Prompt { thread: "t", directory: "/p", session: "s1", text: "go" }"#
    );
    log.push(Reply::Failed("aborted".to_string()));
    assert_eq!(
        asked(dispatch("t", &s, "/p", &m, &log)),
        format!("Send {{ thread: \"t\", text: {:?} }}", "⚠️ aborted")
    );
    log.push(Reply::Done);
    ended(dispatch("t", &s, "/p", &m, &log));
}

fn event(session: &str, id: &str, kind: &str, status: &str) -> Event {
    broadcast_event(
        parse(&format!(
            r#"{{"type":"message.part.updated","properties":{{"part":{{"id":"{id}","sessionID":"{session}","type":"{kind}","tool":"bash","text":"x","state":{{"status":"{status}","input":{{"command":"ls"}}}}}}}}}}"#
        ))
        .unwrap(),
    )
}

#[test]
fn tools_are_rendered_once_when_they_end() {
    let mut live = LiveRenderer::new("s1");
    assert_eq!(live.on_event(&event("s1", "p1", "tool", "running")), None);
    assert_eq!(
        live.on_event(&event("s1", "p1", "tool", "completed")),
        Some("┣ bash: `ls`".to_string())
    );
    assert_eq!(live.on_event(&event("s1", "p1", "tool", "completed")), None);
    assert_eq!(
        live.on_event(&event("s1", "p2", "tool", "error")),
        Some("┣ bash: `ls` (error)".to_string())
    );
    assert_eq!(live.on_event(&event("s2", "p3", "tool", "completed")), None);
    assert_eq!(live.on_event(&event("s1", "p4", "text", "completed")), None);
    let other = broadcast_event(
        parse(r#"{"type":"session.idle","properties":{"sessionID":"s1"}}"#).unwrap(),
    );
    assert_eq!(live.on_event(&other), None);
}
