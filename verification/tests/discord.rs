//! The Discord side.

use lily::application::flow::{ChannelInfo, Flow, Reply};
use lily::connector::discord::{
    handle_message, handle_message_edit, is_relevant, parse_id, post_result, register_commands,
    truncate_name, ChatMessage, OptionKind,
};
use lily::connector::slash::{
    handle_command, int_option, str_option, GivenOption, OptionValue, SlashCommand,
};
use lily::domain::session::QueueEditOutcome;
use lily::domain::worktree::ThreadWorktree;

fn effect<T>(f: Flow<T>) -> String {
    match f {
        Flow::Do(e) => format!("{e:?}"),
        Flow::Done(_, n) => panic!("done after {n}"),
    }
}

fn end<T>(f: Flow<T>) -> T {
    match f {
        Flow::Done(t, _) => t,
        Flow::Do(e) => panic!("asks for {e:?}"),
    }
}

fn some(s: &str) -> Reply {
    Reply::Maybe(Some(s.to_string()))
}

fn channel() -> Reply {
    Reply::Channel(ChannelInfo {
        in_guild: true,
        is_thread: false,
        parent: None,
        name: "general".to_string(),
    })
}

fn thread(parent: Option<&str>) -> Reply {
    Reply::Channel(ChannelInfo {
        in_guild: true,
        is_thread: true,
        parent: parent.map(str::to_string),
        name: "Fix login".to_string(),
    })
}

fn message(content: &str) -> ChatMessage {
    ChatMessage {
        channel_id: "10".to_string(),
        message_id: "20".to_string(),
        content: content.to_string(),
        author_id: "30".to_string(),
        author_name: "ann".to_string(),
    }
}

/// Replies of a thread of channel 5 whose project and runtime are found.
fn reached() -> Vec<Reply> {
    vec![thread(Some("5")), Reply::Worktree(None), some("5"), some("/repo"), Reply::Done]
}

#[test]
fn ids_are_numbers() {
    assert_eq!(parse_id("1234567890123456789"), Ok(1234567890123456789));
    assert_eq!(parse_id("+7"), Ok(7));
    assert_eq!(
        parse_id("abc"),
        Err("not a Discord id: abc: invalid digit found in string".to_string())
    );
    assert_eq!(
        parse_id(""),
        Err("not a Discord id: : cannot parse integer from empty string".to_string())
    );
    assert_eq!(
        parse_id("18446744073709551616"),
        Err(
            "not a Discord id: 18446744073709551616: number too large to fit in target type"
                .to_string()
        )
    );
}

#[test]
fn names_are_cut_to_a_hundred_bytes() {
    assert_eq!(truncate_name("short"), "short");
    assert_eq!(truncate_name(&"x".repeat(101)), "x".repeat(100));
    assert_eq!(truncate_name(&format!("x{}", "é".repeat(60))), format!("x{}", "é".repeat(49)));
}

#[test]
fn commands_that_touch_the_host_are_restricted() {
    let table = register_commands();
    let names: Vec<&str> = table.iter().map(|c| c.name).collect();
    assert_eq!(
        names,
        vec![
            "add-project",
            "queue",
            "clear-queue",
            "btw",
            "new-worktree",
            "merge-worktree",
            "worktrees",
            "tasks",
            "cancel-task"
        ]
    );
    let admin: Vec<&str> = table.iter().filter(|c| c.admin).map(|c| c.name).collect();
    assert_eq!(admin, vec!["add-project", "new-worktree", "merge-worktree", "cancel-task"]);
    assert_eq!(table[4].options.len(), 2);
    assert_eq!(table[4].options[1].name, "base-branch");
    assert!(!table[4].options[1].required);
    assert_eq!(table[8].options[0].kind, OptionKind::Integer);
    assert!(table[8].options[0].required);
    assert_eq!(table[7].description, "List scheduled tasks");
    assert!(table[7].options.is_empty());
}

#[test]
fn posts_are_known_by_their_last_part() {
    assert_eq!(post_result(&vec![]), Err("empty message".to_string()));
    assert_eq!(post_result(&vec!["1".to_string(), "2".to_string()]), Ok("2".to_string()));
}

#[test]
fn only_text_of_allowed_people_matters() {
    assert!(is_relevant(false, "hi", true));
    assert!(!is_relevant(true, "hi", true));
    assert!(!is_relevant(false, " \n", true));
    assert!(!is_relevant(false, "hi", false));
}

#[test]
fn messages_in_project_channels_start_threads() {
    let m = message("fix  the test. queue");
    let mut log = vec![];
    assert_eq!(effect(handle_message(&m, &log)), r#"FetchChannel { channel: "10" }"#);
    log.push(channel());
    assert_eq!(effect(handle_message(&m, &log)), r#"GetChannelDirectory { channel: "10" }"#);
    log.push(some("/repo"));
    assert_eq!(
        effect(handle_message(&m, &log)),
        r#"CreateThread { channel: "10", from: Some("20"), name: "fix the test" }"#
    );
    log.push(Reply::Text("40".to_string()));
    assert_eq!(effect(handle_message(&m, &log)), r#"AddMember { thread: "40", user: "30" }"#);
    log.push(Reply::Failed("x".to_string()));
    assert_eq!(
        effect(handle_message(&m, &log)),
        r#"OpenRuntime { thread: "40", directory: "/repo" }"#
    );
    log.push(Reply::Done);
    assert_eq!(
        effect(handle_message(&m, &log)),
        r#"Enqueue { thread: "40", message: QueuedMessage { prompt: "fix  the test", username: "ann", source_message_id: Some("20"), show_marker: false }, wait: false }"#
    );
    log.push(Reply::Position(None));
    assert_eq!(end(handle_message(&m, &log)), Ok(()));
    assert_eq!(end(handle_message(&m, &vec![channel(), Reply::Maybe(None)])), Ok(()));
}

#[test]
fn channels_outside_a_server_are_refused() {
    let m = message("hi");
    let private = Reply::Channel(ChannelInfo {
        in_guild: false,
        is_thread: false,
        parent: None,
        name: String::new(),
    });
    assert_eq!(end(handle_message(&m, &vec![private])), Err("not a guild channel".to_string()));
    let log = vec![Reply::Failed("404".to_string())];
    assert_eq!(
        end(handle_message(&m, &log)),
        Err("failed to fetch channel: 404".to_string())
    );
    let log = vec![channel(), some("/repo"), Reply::Failed("full".to_string())];
    assert_eq!(
        end(handle_message(&m, &log)),
        Err("failed to create thread: full".to_string())
    );
}

#[test]
fn messages_in_session_threads_continue_them() {
    assert!(effect(handle_message(&message("go on"), &reached())).ends_with("wait: false }"));
    let mut log = reached();
    log.push(Reply::Position(Some(2)));
    assert_eq!(
        effect(handle_message(&message("later. queue"), &log)),
        r#"Say { channel: "10", text: "Queued at position 2. Edit your message to update it in the queue." }"#
    );
    assert_eq!(
        effect(handle_message(&message("why? btw"), &reached())),
        r#"GetThreadSession { thread: "10" }"#
    );
    let mut log = reached();
    log[0] = thread(None);
    assert_eq!(
        end(handle_message(&message("why? btw"), &log)),
        Err("thread has no parent channel".to_string())
    );
}

#[test]
fn edits_in_threads_reach_the_queue() {
    let edit = |log: &Vec<Reply>| handle_message_edit("10", "20", "ann", "new. queue", log);
    let mut log = reached();
    assert_eq!(
        effect(edit(&log)),
        r#"EditQueued { thread: "10", source: "20", content: "new. queue" }"#
    );
    log.push(Reply::Edited(QueueEditOutcome::Removed));
    assert_eq!(
        effect(edit(&log)),
        "Say { channel: \"10\", text: \"⬦ **ann** removed message from queue\" }"
    );
    log[5] = Reply::Edited(QueueEditOutcome::NotFound);
    assert_eq!(end(edit(&log)), Ok(()));
    assert_eq!(end(edit(&vec![channel()])), Ok(()));
    // A thread that cannot be resolved is left alone.
    assert_eq!(end(edit(&vec![thread(None), Reply::Worktree(None), Reply::Maybe(None)])), Ok(()));
}

// ---- slash commands ----

fn slash(name: &str, options: Vec<(&str, OptionValue)>) -> SlashCommand {
    SlashCommand {
        name: name.to_string(),
        options: options
            .into_iter()
            .map(|(name, value)| GivenOption { name: name.to_string(), value })
            .collect(),
        channel_id: "10".to_string(),
        user_id: "30".to_string(),
        username: "ann".to_string(),
    }
}

fn given(s: &str) -> OptionValue {
    OptionValue::Text(s.to_string())
}

fn run(c: &SlashCommand, log: &Vec<Reply>) -> Flow<Result<(), String>> {
    handle_command(c, "/data", log)
}

fn refusal(c: &SlashCommand, log: Vec<Reply>) -> String {
    end(run(c, &log)).unwrap_err()
}

fn wt(status: &str) -> Reply {
    Reply::Worktree(Some(ThreadWorktree {
        thread_id: "10".to_string(),
        worktree_name: "lily/fix".to_string(),
        worktree_directory: Some("/wt".to_string()),
        project_directory: "/repo".to_string(),
        status: status.to_string(),
        error_message: None,
    }))
}

fn git_out(stdout: &str) -> Reply {
    Reply::Output { success: true, stdout: stdout.to_string(), stderr: String::new() }
}

#[test]
fn options_are_found_by_name_and_kind() {
    let c = slash(
        "x",
        vec![
            ("a", OptionValue::Integer(1)),
            ("a", given("one")),
            ("a", given("two")),
            ("b", OptionValue::Other),
        ],
    );
    assert_eq!(str_option(&c, "a"), Some("one".to_string()));
    assert_eq!(int_option(&c, "a"), Some(1));
    assert_eq!(str_option(&c, "b"), None);
    assert_eq!(int_option(&c, "c"), None);
}

#[test]
fn add_project_links_channels_only() {
    let c = slash("add-project", vec![("directory", given("/repo"))]);
    let mut log = vec![Reply::Flag(true), channel()];
    assert_eq!(
        effect(run(&c, &log)),
        r#"SetChannelDirectory { channel: "10", directory: "/repo" }"#
    );
    log.push(Reply::Done);
    assert_eq!(
        effect(run(&c, &log)),
        r#"SetTopic { channel: "10", topic: "<lily><directory>/repo</directory></lily>" }"#
    );
    log.push(Reply::Failed("no permission".to_string()));
    assert_eq!(
        effect(run(&c, &log)),
        r#"Respond { text: "Linked this channel to `/repo`. Send a message to start a session." }"#
    );
    log.push(Reply::Done);
    assert_eq!(end(run(&c, &log)), Ok(()));
    assert_eq!(
        refusal(&c, vec![Reply::Flag(true), thread(None)]),
        "run /add-project in a channel, not a thread"
    );
    assert_eq!(
        refusal(&c, vec![Reply::Flag(false)]),
        "`/repo` is not an absolute path to an existing directory on the bot's machine"
    );
    assert_eq!(refusal(&slash("add-project", vec![]), vec![]), "directory is required");
}

#[test]
fn queue_commands_need_a_session_thread() {
    let c = slash("queue", vec![("message", given("later"))]);
    let mut log = reached();
    assert!(effect(run(&c, &log)).ends_with("wait: true }"));
    log.push(Reply::Position(Some(3)));
    assert_eq!(effect(run(&c, &log)), r#"Respond { text: "Queued message (position 3)" }"#);
    assert_eq!(
        refusal(&c, vec![channel()]),
        "this command only works inside a session thread"
    );
    assert_eq!(refusal(&slash("queue", vec![]), vec![]), "message is required");
    let c = slash("clear-queue", vec![("position", OptionValue::Integer(-4))]);
    assert_eq!(
        effect(run(&c, &reached())),
        r#"ClearQueue { thread: "10", position: Some(0) }"#
    );
    let c = slash("clear-queue", vec![]);
    let mut log = reached();
    log.push(Reply::Count(2));
    assert_eq!(effect(run(&c, &log)), r#"Respond { text: "Cleared 2 queued message(s)" }"#);
}

#[test]
fn btw_announces_its_answer_first() {
    let c = slash("btw", vec![("prompt", given("why?"))]);
    let mut log = vec![thread(Some("5")), wt("ready")];
    assert_eq!(effect(run(&c, &log)), "Defer");
    log.push(Reply::Done);
    assert_eq!(effect(run(&c, &log)), r#"GetThreadSession { thread: "10" }"#);
    log.extend([
        some("s1"),
        Reply::Text("s2".to_string()),
        Reply::Text("40".to_string()),
        Reply::Done,
        Reply::Done,
        Reply::Done,
        Reply::Done,
        Reply::Position(None),
    ]);
    assert_eq!(
        effect(run(&c, &log)),
        r#"Followup { text: "Session forked! Continue in <#40>" }"#
    );
    assert_eq!(refusal(&c, vec![channel()]), "/btw only works inside a session thread");
    assert_eq!(refusal(&c, vec![thread(None)]), "thread has no parent channel");
    assert_eq!(refusal(&slash("btw", vec![]), vec![]), "prompt is required");
}

#[test]
fn new_worktree_is_answered_before_the_build() {
    let c = slash("new-worktree", vec![]);
    let mut log = vec![thread(Some("5")), some("a")];
    assert_eq!(
        effect(run(&c, &log)),
        r#"CreatePendingWorktree { thread: "10", branch: "lily/fix-login", project: "a" }"#
    );
    log.push(Reply::Done);
    assert_eq!(
        effect(run(&c, &log)),
        r#"Respond { text: "Creating worktree `/data/worktrees/8601ec8c/fix-login` on branch `lily/fix-login`..." }"#
    );
    log.push(Reply::Done);
    let build = effect(run(&c, &log));
    assert!(build.starts_with("StartBuild "));
    assert!(build.contains("wording: Discord"));
    log.push(Reply::Done);
    assert_eq!(end(run(&c, &log)), Ok(()));
    assert_eq!(
        refusal(&c, vec![channel(), some("a")]),
        "pass a name when running /new-worktree from a channel"
    );
    assert_eq!(refusal(&c, vec![thread(None)]), "thread has no parent channel");
}

#[test]
fn merge_tells_conflicts_before_it_asks_the_agent() {
    let c = slash("merge-worktree", vec![("target-branch", given("main"))]);
    let mut log = vec![thread(Some("5")), wt("ready")];
    assert_eq!(effect(run(&c, &log)), "Defer");
    log.extend([Reply::Done, git_out("m"), Reply::Flag(true)]);
    assert_eq!(
        effect(run(&c, &log)),
        r#"Followup { text: "Rebase onto `main` hit conflicts. Asking the agent to resolve them; run /merge-worktree again once it finishes." }"#
    );
    log.push(Reply::Done);
    assert_eq!(effect(run(&c, &log)), r#"GetWorktree { thread: "10" }"#);
    log.extend([wt("ready"), Reply::Done, Reply::Position(None)]);
    assert_eq!(end(run(&c, &log)), Ok(()));
    assert_eq!(
        refusal(&c, vec![channel()]),
        "/merge-worktree only works inside a worktree thread"
    );
    assert_eq!(
        refusal(&c, vec![thread(None), Reply::Worktree(None)]),
        "this thread has no worktree (use /new-worktree first)"
    );
    assert_eq!(
        refusal(&c, vec![thread(None), wt("pending")]),
        "worktree is not ready (status: pending)"
    );
}

#[test]
fn refused_merges_are_answered() {
    let c = slash("merge-worktree", vec![("target-branch", given("main"))]);
    let log = vec![
        thread(Some("5")),
        wt("ready"),
        Reply::Done,
        git_out("m"),
        Reply::Flag(false),
        git_out("a"),
        Reply::Flag(false),
        git_out(" M file"),
    ];
    assert_eq!(
        effect(run(&c, &log)),
        r#"Followup { text: "The worktree has uncommitted changes. Commit or stash them first." }"#
    );
}

#[test]
fn lists_and_tasks_are_answered() {
    let c = slash("worktrees", vec![]);
    let log = vec![thread(Some("5"))];
    assert_eq!(effect(run(&c, &log)), r#"GetChannelDirectory { channel: "5" }"#);
    assert_eq!(effect(run(&c, &vec![channel()])), r#"GetChannelDirectory { channel: "10" }"#);
    assert_eq!(refusal(&c, vec![thread(None)]), "thread has no parent");
    let c = slash("tasks", vec![]);
    assert_eq!(effect(run(&c, &vec![])), "ListTasks");
    let c = slash("cancel-task", vec![("id", OptionValue::Integer(4))]);
    assert_eq!(
        effect(run(&c, &vec![Reply::Flag(true)])),
        r#"Respond { text: "Cancelled task #4" }"#
    );
    assert_eq!(refusal(&slash("cancel-task", vec![]), vec![]), "id is required");
    assert_eq!(refusal(&slash("dance", vec![]), vec![]), "unknown command: dance");
}
