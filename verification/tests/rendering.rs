//! What is shown in chat.

use lily::domain::rendering::{
    footer, format_part, prompt_preview, split_markdown, tool_detail, turn_footer,
};
use lily::domain::session::Part;
use lily::json::{parse, Json};
use std::time::Duration;

fn json(text: &str) -> Json {
    parse(text).unwrap()
}

fn part(kind: &str, payload: &str) -> Part {
    Part { id: "prt_1".to_string(), kind: kind.to_string(), payload: json(payload) }
}

#[test]
fn split_short_text_is_single_chunk() {
    assert_eq!(split_markdown("hello world", 2000), vec!["hello world".to_string()]);
}

#[test]
fn split_keeps_fences_balanced() {
    let mut text = String::from("```rust\n");
    for i in 0..100 {
        text.push_str(&format!("let x{i} = {i}; // padding padding padding\n"));
    }
    text.push_str("```\n");
    let chunks = split_markdown(&text, 500);
    assert!(chunks.len() > 1);
    for chunk in &chunks {
        assert!(chunk.len() <= 500, "chunk too long: {}", chunk.len());
        let fences = chunk.matches("```").count();
        assert_eq!(fences % 2, 0, "unbalanced fences in chunk: {chunk}");
    }
}

#[test]
fn split_handles_overlong_line() {
    let text = "x".repeat(5000);
    let chunks = split_markdown(&text, 2000);
    assert!(chunks.iter().all(|c| c.len() <= 2000));
}

#[test]
fn preview_collapses_whitespace() {
    assert_eq!(prompt_preview("a  b\n\nc", 120), "a b c");
}

#[test]
fn fences_are_closed_and_reopened_with_their_language() {
    assert_eq!(
        split_markdown("```rs\naaaa\nbbbb\ncccc\n```\n", 20),
        vec!["```rs\naaaa\nbbbb\n```".to_string(), "```rs\ncccc\n```\n".to_string()]
    );
}

#[test]
fn overlong_line_is_cut_with_dots() {
    assert_eq!(split_markdown(&"x".repeat(30), 20), vec!["xxxxxxxxxxxxxxxx...\n".to_string()]);
    // Between two characters, not inside one.
    assert_eq!(split_markdown(&"é".repeat(15), 20), vec!["éééééééé...\n".to_string()]);
    assert_eq!(split_markdown(&"é".repeat(15), 21), vec!["éééééééé...\n".to_string()]);
}

#[test]
fn blank_text_gives_no_chunk() {
    assert!(split_markdown("", 2000).is_empty());
    assert!(split_markdown(" \n\t\n", 2000).is_empty());
}

#[test]
fn lines_are_kept_together() {
    assert_eq!(
        split_markdown("one two\nthree\nfour five\n", 14),
        vec!["one two\nthree\n".to_string(), "four five\n".to_string()]
    );
}

#[test]
fn plain_text_always_fits_and_loses_nothing() {
    let text = "lorem ipsum dolor\nsit amet\n\nconsectetur\n".repeat(20);
    let chunks = split_markdown(&text, 60);
    assert!(chunks.iter().all(|c| c.len() <= 60));
    assert_eq!(chunks.concat(), text);
}

#[test]
fn fence_that_opens_at_the_limit_starts_a_chunk() {
    assert_eq!(
        split_markdown("aaaaaaaaaaa\n```rust\nb\n```\n", 20),
        vec!["aaaaaaaaaaa\n".to_string(), "```rust\nb\n```\n".to_string()]
    );
    let filled = format!("{}\n", "x".repeat(55));
    assert_eq!(
        split_markdown(&format!("{filled}```rust\n"), 64),
        vec![filled, "```rust\n```".to_string()]
    );
    // With three bytes to spare the fence is closed in the same chunk.
    let shorter = format!("{}\n```rust\n", "x".repeat(52));
    assert_eq!(split_markdown(&shorter, 64), vec![format!("{shorter}```")]);
    assert_eq!(
        split_markdown("abcd\n```\nx\n```\n", 12),
        vec!["abcd\n```\n```".to_string(), "```\nx\n```".to_string(), "```\n```\n".to_string()]
    );
    // Without its line feed an opening line takes four.
    let open = "x".repeat(52);
    assert_eq!(split_markdown(&format!("{open}\n```rust"), 64), vec![format!("{open}\n```rust\n```")]);
    // An opening line of its own is cut only where it does not fit with its close.
    let long = format!("```{}\n", "y".repeat(57));
    assert_eq!(split_markdown(&long, 64), vec![format!("{long}```")]);
}

#[test]
fn every_chunk_fits() {
    let pieces = ["```rust\n", "```\n", "word\n", "\n", "été\n", "``` a b\n"];
    for seed in 0..200usize {
        let mut text = String::new();
        let mut n = seed;
        for _ in 0..40 {
            n = (n * 31 + 17) % 1009;
            text.push_str(pieces[n % pieces.len()]);
            if n % 7 == 0 {
                text.push_str(&"y".repeat(n % 90));
                text.push('\n');
            }
        }
        for limit in [17, 20, 33, 64] {
            for chunk in split_markdown(&text, limit) {
                assert!(chunk.len() <= limit, "{} > {limit}: {chunk:?}", chunk.len());
                // With room for their backticks, the fences are balanced too.
                let fences = chunk.lines().filter(|l| l.starts_with("```")).count();
                assert!(limit < 19 || fences % 2 == 0, "{chunk:?}");
            }
        }
    }
}

#[test]
fn a_limit_below_the_mark_of_a_cut_is_overrun() {
    assert_eq!(split_markdown("xxxxx", 3), vec!["...\n".to_string()]);
}

#[test]
fn preview_counts_characters() {
    assert_eq!(prompt_preview("abc def", 5), "abc d");
    assert_eq!(prompt_preview("héllo", 2), "hé");
    assert_eq!(prompt_preview("ééé", 3), "ééé");
    assert_eq!(prompt_preview("é \n é", 2), "é ");
    assert_eq!(prompt_preview(" \n ", 10), "");
    assert_eq!(prompt_preview("a", 0), "");
}

#[test]
fn footers_count_minutes_and_seconds() {
    assert_eq!(footer(0), "-# lily ⋅ 0s");
    assert_eq!(footer(59), "-# lily ⋅ 59s");
    assert_eq!(footer(60), "-# lily ⋅ 1m 0s");
    assert_eq!(footer(150), "-# lily ⋅ 2m 30s");
    assert_eq!(turn_footer(Duration::from_millis(61_900)), "-# lily ⋅ 1m 1s");
    assert_eq!(turn_footer(Duration::from_millis(999)), "-# lily ⋅ 0s");
}

#[test]
fn text_parts_are_trimmed_and_marked() {
    assert_eq!(format_part(&part("text", r#"{"text":"  hello \n"}"#)), Some("⬥ hello".to_string()));
    assert_eq!(format_part(&part("text", r#"{"text":"  "}"#)), None);
    assert_eq!(format_part(&part("text", "{}")), None);
    assert_eq!(format_part(&part("text", r#"{"text":7}"#)), None);
}

#[test]
fn progress_parts_are_marked() {
    assert_eq!(format_part(&part("reasoning", "{}")), Some("┣ thinking".to_string()));
    assert_eq!(
        format_part(&part("file", r#"{"filename":"a.rs","file":"b.rs"}"#)),
        Some("┣ 📄 a.rs".to_string())
    );
    assert_eq!(format_part(&part("file", r#"{"file":"b.rs"}"#)), Some("┣ 📄 b.rs".to_string()));
    assert_eq!(
        format_part(&part("file", r#"{"filename":1,"file":"b.rs"}"#)),
        Some("┣ 📄 file".to_string())
    );
    assert_eq!(format_part(&part("file", "{}")), Some("┣ 📄 file".to_string()));
    assert_eq!(format_part(&part("step-start", "{}")), None);
    assert_eq!(format_part(&part("snapshot", "{}")), None);
}

#[test]
fn tools_are_shown_once_they_started() {
    let running = r#"{"tool":"bash","state":{"status":"running","input":{"command":"ls -l"}}}"#;
    assert_eq!(format_part(&part("tool", running)), Some("┣ bash: `ls -l`".to_string()));
    let failed = r#"{"tool":"grep","state":{"status":"error","input":{"pattern":"fn"}}}"#;
    assert_eq!(format_part(&part("tool", failed)), Some("┣ grep: `fn` (error)".to_string()));
    let silent = r#"{"tool":"bash","state":{"status":"completed"}}"#;
    assert_eq!(format_part(&part("tool", silent)), Some("┣ bash".to_string()));
    let unnamed = r#"{"state":{"status":"error"}}"#;
    assert_eq!(format_part(&part("tool", unnamed)), Some("┣ tool (error)".to_string()));
    let pending = r#"{"tool":"bash","state":{"status":"pending","input":{"command":"ls"}}}"#;
    assert_eq!(format_part(&part("tool", pending)), None);
    assert_eq!(format_part(&part("tool", r#"{"tool":"bash"}"#)), None);
}

#[test]
fn details_come_from_the_input_of_a_tool() {
    let state = |s: &str| json(s);
    assert_eq!(
        tool_detail("read", &state(r#"{"input":{"filePath":"a","file_path":"b"}}"#)),
        Some("`a`".to_string())
    );
    assert_eq!(
        tool_detail("edit", &state(r#"{"input":{"file_path":"b"}}"#)),
        Some("`b`".to_string())
    );
    assert_eq!(
        tool_detail("glob", &state(r#"{"input":{"pattern":"*.rs"}}"#)),
        Some("`*.rs`".to_string())
    );
    assert_eq!(
        tool_detail("webfetch", &state(r#"{"title":"A page","input":{}}"#)),
        Some("`A page`".to_string())
    );
    assert_eq!(tool_detail("webfetch", &state(r#"{"title":"A page"}"#)), None);
    assert_eq!(tool_detail("bash", &state(r#"{"input":{}}"#)), None);
}

#[test]
fn details_are_short_inline_code() {
    let multi = json(r#"{"input":{"command":" echo `date`\nls "}}"#);
    assert_eq!(tool_detail("bash", &multi), Some("`echo 'date' ls`".to_string()));
    let long = format!(r#"{{"input":{{"command":"{}"}}}}"#, "x".repeat(121));
    assert_eq!(
        tool_detail("bash", &json(&long)),
        Some(format!("`{}...`", "x".repeat(120)))
    );
    let wide = format!(r#"{{"input":{{"command":"x{}"}}}}"#, "é".repeat(60));
    assert_eq!(
        tool_detail("bash", &json(&wide)),
        Some(format!("`x{}...`", "é".repeat(59)))
    );
}
