//! The Matrix side.

use lily::application::flow::{Flow, Reply};
use lily::connector::matrix::{
    create_thread, edit_notice, handle_command, handle_message, is_relevant, make_thread_id,
    split_thread_id, thread_parent, CommandContext, Relation, RoomMessage,
};
use lily::domain::session::QueueEditOutcome;
use lily::domain::worktree::ThreadWorktree;
use matrix_sdk::ruma::{OwnedEventId, RoomId};

const ROOM: &str = "!abc:example.org";
const THREAD: &str = "!abc:example.org|$deadbeef";

fn asks_for<T>(f: Flow<T>) -> String {
    match f {
        Flow::Do(e) => format!("{e:?}"),
        Flow::Done(_, n) => panic!("done after {n}"),
    }
}

fn gives<T>(f: Flow<T>) -> T {
    match f {
        Flow::Done(t, _) => t,
        Flow::Do(e) => panic!("asks for {e:?}"),
    }
}

fn some(s: &str) -> Reply {
    Reply::Maybe(Some(s.to_string()))
}

fn context(thread: Option<&str>) -> CommandContext {
    CommandContext {
        room_id: ROOM.to_string(),
        thread_id: thread.map(str::to_string),
        sender: "@ann:example.org".to_string(),
        username: "ann".to_string(),
        data_dir: "/data".to_string(),
    }
}

fn message(relation: Relation) -> RoomMessage {
    RoomMessage {
        room_id: ROOM.to_string(),
        event_id: "$e1".to_string(),
        sender: "@ann:example.org".to_string(),
        username: "ann".to_string(),
        relation,
    }
}

fn in_room(body: &str) -> RoomMessage {
    message(Relation::Room { body: Some(body.to_string()) })
}

fn in_thread(body: &str) -> RoomMessage {
    message(Relation::Thread { root: "$deadbeef".to_string(), body: Some(body.to_string()) })
}

/// Replies that resolve a thread to its project and open its runtime.
fn reached() -> Vec<Reply> {
    vec![Reply::Worktree(None), some(ROOM), some("/repo"), Reply::Done]
}

#[test]
fn thread_id_round_trip() {
    let room = RoomId::parse("!abc:example.org").unwrap();
    let event: OwnedEventId = "$deadbeef".try_into().unwrap();
    let id = make_thread_id(room.as_str(), event.as_str());
    assert_eq!(id, "!abc:example.org|$deadbeef");
    let (r, e) = split_thread_id(&id).unwrap();
    assert_eq!(r, room.as_str());
    assert_eq!(e, Some(event.to_string()));
}

#[test]
fn bare_room_id_has_no_root() {
    let (r, e) = split_thread_id("!abc:example.org").unwrap();
    assert_eq!(r.as_str(), "!abc:example.org");
    assert_eq!(e, None);
}

#[test]
fn bad_ids_are_refused() {
    assert!(split_thread_id("12345").unwrap_err().starts_with("bad matrix room id: "));
    assert!(split_thread_id("x|$e").unwrap_err().starts_with("bad matrix room id: "));
    assert!(split_thread_id("!abc:example.org|nope")
        .unwrap_err()
        .starts_with("bad matrix event id: "));
}

#[test]
fn threads_have_their_room_as_parent() {
    assert_eq!(thread_parent(THREAD), Ok(Some(ROOM.to_string())));
    assert_eq!(thread_parent(ROOM), Ok(None));
    assert!(thread_parent("nope").is_err());
}

#[test]
fn new_threads_hang_off_an_event() {
    let from = Some("$deadbeef".to_string());
    assert_eq!(gives(create_thread(ROOM, &from, "name", &vec![])), Ok(THREAD.to_string()));
    assert_eq!(
        asks_for(create_thread(THREAD, &None, "name", &vec![])),
        r#"Post { channel: "!abc:example.org", text: "name" }"#
    );
    let log = vec![Reply::Text("$root".to_string())];
    assert_eq!(
        gives(create_thread(ROOM, &None, "name", &log)),
        Ok("!abc:example.org|$root".to_string())
    );
    let bad = Some("nope".to_string());
    assert!(gives(create_thread(ROOM, &bad, "name", &vec![]))
        .unwrap_err()
        .starts_with("bad matrix event id: "));
}

#[test]
fn only_messages_of_others_in_joined_rooms_matter() {
    assert!(is_relevant(true, false, true));
    assert!(!is_relevant(false, false, true));
    assert!(!is_relevant(true, true, true));
    assert!(!is_relevant(true, false, false));
}

#[test]
fn commands_say_how_they_are_used() {
    let run = |input: &str| gives(handle_command(&context(None), input, &vec![], 0));
    let err = |s: &str| Err(s.to_string());
    assert_eq!(run("add-project"), err("usage: !add-project /absolute/path"));
    assert_eq!(run("queue  "), err("usage: !queue <message>"));
    assert_eq!(run("btw"), err("usage: !btw <prompt>"));
    assert_eq!(run("queue later"), err("!queue only works inside a session thread"));
    assert_eq!(run("clear"), err("!clear only works inside a session thread"));
    assert_eq!(run("btw why"), err("!btw only works inside a session thread"));
    assert_eq!(
        run("delete-task x"),
        err("usage: !delete-task <id>: invalid digit found in string")
    );
    assert_eq!(
        run("delete-task"),
        err("usage: !delete-task <id>: cannot parse integer from empty string")
    );
    assert_eq!(run("nonsense now"), err("unknown command !nonsense (try !help)"));
    assert!(run("help").unwrap().starts_with("Commands: !add-project <dir>, !queue <msg>"));
}

#[test]
fn commands_reach_what_they_are_for() {
    let run = |input: &str| asks_for(handle_command(&context(None), input, &vec![], 0));
    assert_eq!(run("add-project /repo"), r#"IsDirectory { path: "/repo" }"#);
    assert_eq!(run("worktree fix dev"), format!("GetChannelDirectory {{ channel: \"{ROOM}\" }}"));
    assert_eq!(run("list-worktrees"), format!("GetChannelDirectory {{ channel: \"{ROOM}\" }}"));
    assert_eq!(run("tasks"), "ListTasks");
    assert_eq!(run("delete-task -3"), "CancelTask { id: -3 }");
    let ctx = context(Some(THREAD));
    assert_eq!(
        asks_for(handle_command(&ctx, "worktree", &vec![], 0)),
        format!("ThreadParent {{ thread: \"{THREAD}\" }}")
    );
}

#[test]
fn queue_commands_work_on_the_thread() {
    let ctx = context(Some(THREAD));
    let mut log = reached();
    assert_eq!(
        asks_for(handle_command(&ctx, "queue fix\tit", &log, 0)),
        format!(
            "Enqueue {{ thread: \"{THREAD}\", message: QueuedMessage {{ prompt: \"fix\\tit\", username: \"ann\", source_message_id: None, show_marker: false }}, wait: true }}"
        )
    );
    log.push(Reply::Position(Some(2)));
    assert_eq!(
        gives(handle_command(&ctx, "queue fix it", &log, 0)),
        Ok("Queued message (position 2)".to_string())
    );
    log[4] = Reply::Position(None);
    assert_eq!(
        gives(handle_command(&ctx, "queue fix it", &log, 0)),
        Ok("Session was idle; message sent immediately.".to_string())
    );
    let mut log = reached();
    assert_eq!(
        asks_for(handle_command(&ctx, "clear 2", &log, 0)),
        format!("ClearQueue {{ thread: \"{THREAD}\", position: Some(2) }}")
    );
    log.push(Reply::Count(1));
    assert_eq!(
        gives(handle_command(&ctx, "clear 2", &log, 0)),
        Ok("Cleared queued message at position 2".to_string())
    );
    log[4] = Reply::Count(3);
    assert_eq!(
        gives(handle_command(&ctx, "clear", &log, 0)),
        Ok("Cleared 3 queued message(s)".to_string())
    );
    assert_eq!(
        gives(handle_command(&ctx, "clear two", &vec![], 0)),
        Err("invalid digit found in string".to_string())
    );
}

#[test]
fn messages_in_linked_rooms_start_sessions() {
    let say = |body: &str, log: &Vec<Reply>| handle_message(&in_room(body), "/data", log);
    let mut log = vec![];
    assert_eq!(
        asks_for(say("fix it. queue", &log)),
        format!("GetChannelDirectory {{ channel: \"{ROOM}\" }}")
    );
    log.push(some("/repo"));
    assert_eq!(
        asks_for(say("fix it. queue", &log)),
        format!("OpenRuntime {{ thread: \"{ROOM}|$e1\", directory: \"/repo\" }}")
    );
    log.push(Reply::Done);
    assert_eq!(
        asks_for(say("fix it. queue", &log)),
        format!(
            "Enqueue {{ thread: \"{ROOM}|$e1\", message: QueuedMessage {{ prompt: \"fix it\", username: \"ann\", source_message_id: Some(\"$e1\"), show_marker: false }}, wait: false }}"
        )
    );
    // Elsewhere the bot stays quiet.
    assert_eq!(gives(say("hello", &vec![Reply::Maybe(None)])), Ok(()));
    let quiet = message(Relation::Room { body: None });
    assert_eq!(gives(handle_message(&quiet, "/data", &vec![])), Ok(()));
}

#[test]
fn messages_in_threads_continue_sessions() {
    let say = |body: &str, log: &Vec<Reply>| handle_message(&in_thread(body), "/data", log);
    let mut log = reached();
    assert!(asks_for(say("go on", &log)).ends_with("wait: false }"));
    assert!(asks_for(say("later. queue", &log)).ends_with("wait: true }"));
    log.push(Reply::Position(Some(1)));
    assert_eq!(
        asks_for(say("later. queue", &log)),
        format!(
            "Send {{ thread: \"{THREAD}\", text: \"Queued at position 1. Edit your message to update it in the queue.\" }}"
        )
    );
    log.push(Reply::Done);
    assert_eq!(gives(say("later. queue", &log)), Ok(()));
    let log = reached();
    assert_eq!(
        asks_for(say("why? btw", &log)),
        format!("GetThreadSession {{ thread: \"{THREAD}\" }}")
    );
    let wt = ThreadWorktree {
        thread_id: THREAD.to_string(),
        worktree_name: "lily/fix".to_string(),
        worktree_directory: None,
        project_directory: "/repo".to_string(),
        status: "pending".to_string(),
        error_message: None,
    };
    assert!(gives(say("go on", &vec![Reply::Worktree(Some(wt))])).is_err());
}

#[test]
fn commands_are_answered_where_they_were_sent() {
    let log = vec![Reply::Tasks(vec![])];
    assert_eq!(
        asks_for(handle_message(&in_thread("!tasks"), "/data", &log)),
        format!(
            "Send {{ thread: \"{THREAD}\", text: \"No scheduled tasks. Create one with `lily send --send-at ...`.\" }}"
        )
    );
    assert!(asks_for(handle_message(&in_room("!tasks"), "/data", &log))
        .starts_with("Send { thread: \"!abc:example.org\", "));
    assert_eq!(
        gives(handle_message(&in_room("!what"), "/data", &vec![])),
        Err("unknown command !what (try !help)".to_string())
    );
}

#[test]
fn edits_reach_the_queue_of_any_thread() {
    let edit = message(Relation::Replacement {
        original: "$old".to_string(),
        body: Some("new. queue".to_string()),
    });
    let mut log = vec![];
    assert_eq!(
        asks_for(handle_message(&edit, "/data", &log)),
        r#"EditAnyQueued { source: "$old", content: "new. queue" }"#
    );
    log.push(Reply::EditedIn(Some(("t1".to_string(), QueueEditOutcome::Updated))));
    assert_eq!(
        asks_for(handle_message(&edit, "/data", &log)),
        "Send { thread: \"t1\", text: \"⬦ **ann** edited queued message\" }"
    );
    log.push(Reply::Done);
    assert_eq!(gives(handle_message(&edit, "/data", &log)), Ok(()));
    assert_eq!(gives(handle_message(&edit, "/data", &vec![Reply::EditedIn(None)])), Ok(()));
    assert_eq!(
        edit_notice("bo", QueueEditOutcome::Removed),
        "⬦ **bo** removed message from queue"
    );
}
