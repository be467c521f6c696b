//! How a message is to be delivered.

use lily::domain::delivery::{parse_message, Delivery};

fn parse(s: &str) -> (Delivery, String) {
    let p = parse_message(s);
    (p.delivery, p.prompt)
}

#[test]
fn plain_message() {
    assert_eq!(parse("fix the test"), (Delivery::Normal, "fix the test".into()));
}

#[test]
fn queue_with_period() {
    assert_eq!(parse("fix the test. queue"), (Delivery::Queue, "fix the test".into()));
}

#[test]
fn queue_with_bang() {
    assert_eq!(parse("commit it! queue"), (Delivery::Queue, "commit it".into()));
}

#[test]
fn queue_trailing_period_needs_separator() {
    assert_eq!(parse("review this queue."), (Delivery::Normal, "review this queue.".into()));
    assert_eq!(parse("review this. queue."), (Delivery::Queue, "review this".into()));
}

#[test]
fn queue_own_line() {
    assert_eq!(parse("review this\nqueue"), (Delivery::Queue, "review this".into()));
}

#[test]
fn queue_word_inside_text_not_stripped() {
    assert_eq!(
        parse("add a message queue implementation"),
        (Delivery::Normal, "add a message queue implementation".into())
    );
}

#[test]
fn btw_with_punctuation() {
    assert_eq!(parse("why this approach? btw"), (Delivery::Btw, "why this approach".into()));
}

#[test]
fn btw_requires_separator() {
    assert_eq!(
        parse("rename the btw variable btw"),
        (Delivery::Normal, "rename the btw variable btw".into())
    );
}

#[test]
fn btw_own_line() {
    assert_eq!(
        parse("why did you pick sqlite\nbtw"),
        (Delivery::Btw, "why did you pick sqlite".into())
    );
}

#[test]
fn bare_keyword_is_normal() {
    assert_eq!(parse("queue"), (Delivery::Normal, "queue".into()));
}

#[test]
fn keywords_ignore_case() {
    assert_eq!(parse("ship it. QUEUE"), (Delivery::Queue, "ship it".into()));
    assert_eq!(parse("and why? Btw."), (Delivery::Btw, "and why".into()));
}

#[test]
fn queue_goes_before_btw() {
    assert_eq!(parse("do it. btw. queue"), (Delivery::Queue, "do it. btw".into()));
    assert_eq!(parse("do it. queue. btw"), (Delivery::Btw, "do it. queue".into()));
}

#[test]
fn suffix_alone_leaves_no_prompt_and_is_normal() {
    assert_eq!(parse(". queue"), (Delivery::Normal, ". queue".into()));
    assert_eq!(parse("\nbtw"), (Delivery::Normal, "btw".into()));
}

#[test]
fn prompts_are_trimmed() {
    assert_eq!(parse("  fix the test  "), (Delivery::Normal, "fix the test".into()));
    assert_eq!(parse("\t fix it . queue \n"), (Delivery::Queue, "fix it".into()));
}
