//! What the agent backend sends.

use lily::connector::opencode::{
    base_url, broadcast_event, is_session_busy, next_backoff, part_from_event, prompt_result,
    session_path, wait_idle, EventDecoder, Waiting, FIRST_BACKOFF_MS,
};
use lily::json::{parse, Json};

fn doc(text: &str) -> Json {
    parse(text).unwrap()
}

#[test]
fn documents_are_parsed() {
    let v = doc(r#"{"a":[1,null,true,"x\n"],"b":{"c":"d"}}"#);
    let a = v.get("a").unwrap().as_array().unwrap();
    assert_eq!(a.len(), 4);
    assert!(matches!(a[0], Json::Number(_)));
    assert!(matches!(a[1], Json::Null));
    assert!(matches!(a[2], Json::Bool(true)));
    assert_eq!(a[3].as_str(), Some("x\n"));
    assert_eq!(v.get("b").unwrap().str_at("c"), Some("d"));
    assert!(v.get("z").is_none());
    assert!(v.as_str().is_none());
    assert!(parse("{").is_none());
    assert!(parse("").is_none());
    // The last of two equal keys counts.
    assert_eq!(doc(r#"{"k":"1","k":"2"}"#).str_at("k"), Some("2"));
}

#[test]
fn parts_need_an_id_and_a_type() {
    let p = part_from_event(&doc(r#"{"id":"p1","type":"text","text":"hi"}"#)).unwrap();
    assert_eq!((p.id.as_str(), p.kind.as_str()), ("p1", "text"));
    assert_eq!(p.payload.str_at("text"), Some("hi"));
    assert!(part_from_event(&doc(r#"{"id":"p1"}"#)).is_none());
    assert!(part_from_event(&doc(r#"{"id":1,"type":"text"}"#)).is_none());
    assert!(part_from_event(&doc("[]")).is_none());
}

#[test]
fn responses_hold_parts() {
    let body = doc(r#"{"parts":[{"id":"1","type":"text"},{"id":"2"},{"id":"3","type":"tool"}]}"#);
    let kinds: Vec<String> = prompt_result(&body).parts.into_iter().map(|p| p.kind).collect();
    assert_eq!(kinds, vec!["text", "tool"]);
    assert!(prompt_result(&doc("{}")).parts.is_empty());
    assert!(prompt_result(&doc(r#"{"parts":"none"}"#)).parts.is_empty());
}

#[test]
fn sessions_are_busy_unless_idle() {
    let status = doc(r#"{"s1":{"type":"busy"},"s2":{"type":"idle"},"s3":{}}"#);
    assert!(is_session_busy(&status, "s1"));
    assert!(!is_session_busy(&status, "s2"));
    assert!(!is_session_busy(&status, "s3"));
    assert!(!is_session_busy(&status, "s4"));
}

#[test]
fn waiting_ends_when_idle_or_out_of_time() {
    assert_eq!(wait_idle(&Ok(false), true), Waiting::Idle);
    assert_eq!(wait_idle(&Ok(true), false), Waiting::Again);
    assert_eq!(wait_idle(&Err("x".to_string()), false), Waiting::Again);
    assert_eq!(wait_idle(&Ok(true), true), Waiting::TimedOut);
}

#[test]
fn addresses_are_joined() {
    assert_eq!(base_url("http://oc:1//"), "http://oc:1");
    assert_eq!(base_url("http://oc:1"), "http://oc:1");
    assert_eq!(base_url("///"), "");
    assert_eq!(session_path("s1", "message"), "/session/s1/message");
}

#[test]
fn waits_double_up_to_a_limit() {
    let mut wait = FIRST_BACKOFF_MS;
    let mut seen = vec![wait];
    for _ in 0..6 {
        wait = next_backoff(wait);
        seen.push(wait);
    }
    assert_eq!(seen, vec![500, 1000, 2000, 4000, 8000, 15000, 15000]);
    assert_eq!(next_backoff(u64::MAX), 15000);
}

#[test]
fn events_know_their_session() {
    let of = |s: &str| broadcast_event(doc(s)).session_id;
    assert_eq!(of(r#"{"properties":{"sessionID":"a"}}"#), Some("a".to_string()));
    assert_eq!(of(r#"{"properties":{"part":{"sessionID":"b"}}}"#), Some("b".to_string()));
    assert_eq!(of(r#"{"properties":{"info":{"sessionID":"c"}}}"#), Some("c".to_string()));
    assert_eq!(
        of(r#"{"properties":{"sessionID":1,"info":{"sessionID":"c"}}}"#),
        None
    );
    assert_eq!(of("{}"), None);
    assert_eq!(broadcast_event(doc("{}")).kind, "");
    assert_eq!(broadcast_event(doc(r#"{"type":"session.idle"}"#)).kind, "session.idle");
}

fn kinds(d: &mut EventDecoder, chunk: &[u8]) -> Vec<String> {
    d.push(&chunk.to_vec()).into_iter().map(|e| e.kind).collect()
}

#[test]
fn the_stream_is_cut_at_blank_lines() {
    let mut d = EventDecoder::new();
    assert!(kinds(&mut d, b"data: {\"type\":\"a\"}\n").is_empty());
    assert_eq!(kinds(&mut d, b"\ndata:{\"type\":\"b\"}\r\ndata: {\"type\":\"c\"}\n\nda"), vec![
        "a", "b", "c"
    ]);
    assert_eq!(kinds(&mut d, b"ta: {\"type\":\"d\"}\n\n"), vec!["d"]);
}

#[test]
fn noise_in_the_stream_is_passed_over() {
    let mut d = EventDecoder::new();
    let noise = b": comment\nevent: x\ndata: not json\ndata:\n\ndata: {\"type\":\"a\"}\n\n\n\n";
    assert_eq!(kinds(&mut d, noise), vec!["a"]);
    assert_eq!(kinds(&mut d, b"data: {\"type\":\"\xff\"}\n\n"), vec!["\u{fffd}"]);
}

#[test]
fn chunks_may_end_anywhere() {
    let stream = "data: {\"type\":\"é\"}\n\ndata: {\"type\":\"z\"}\n\n".as_bytes();
    for cut in 0..stream.len() {
        let mut d = EventDecoder::new();
        let mut all = kinds(&mut d, &stream[..cut]);
        all.extend(kinds(&mut d, &stream[cut..]));
        assert_eq!(all, vec!["é", "z"]);
    }
}
