//! Texts and numbers, held against the standard library.

use lily::numbers::{decimal_i64, decimal_u64, hex_u32, parse_i64, parse_u64, parse_usize};
use lily::paths::{absolute, join_path};
use lily::text::{
    byte_len, char_is_whitespace, has_prefix, join_texts, quote_list, replace_char, split_char,
    split_lines, split_words, strip_prefix, text_lines, trim_prefixes, trimmed, trimmed_end,
    truncate,
};

const SAMPLES: [&str; 12] = [
    "",
    " ",
    "plain",
    "  two  words ",
    "line one\nline two\n",
    "crlf\r\nmixed\rend",
    "\n\n",
    "héllo wörld ünï",
    "\u{2003}em\u{a0}space\u{3000}",
    "tab\tand\u{b}vt\u{c}ff",
    "🌳 tree 🌳",
    "\u{85}nel\u{1680}ogham\u{200b}zwsp",
];

#[test]
fn trimming_and_words_follow_unicode_whitespace() {
    for s in SAMPLES {
        assert_eq!(trimmed(s), s.trim());
        assert_eq!(trimmed_end(s), s.trim_end());
        assert_eq!(split_words(s), s.split_whitespace().collect::<Vec<_>>());
    }
    for code in 0..0x3100u32 {
        if let Some(c) = char::from_u32(code) {
            assert_eq!(char_is_whitespace(c), c.is_whitespace(), "{code:x}");
        }
    }
}

#[test]
fn lines_are_split_as_usual() {
    for s in SAMPLES {
        assert_eq!(split_lines(s), s.split_inclusive('\n').collect::<Vec<_>>());
        assert_eq!(text_lines(s), s.lines().collect::<Vec<_>>());
        assert_eq!(split_char(s, 'e'), s.split('e').collect::<Vec<_>>());
        assert_eq!(byte_len(s), s.len());
    }
    assert_eq!(join_texts(&vec!["a".to_string(), "b".to_string()], ", "), "a, b");
    assert_eq!(join_texts(&vec![], ", "), "");
}

#[test]
fn prefixes_are_taken_off() {
    assert!(has_prefix("abc", "ab"));
    assert!(!has_prefix("a", "ab"));
    assert_eq!(strip_prefix("refs/x", "refs/"), Some("x".to_string()));
    assert_eq!(strip_prefix("x", "refs/"), None);
    assert_eq!(trim_prefixes("ababc", "ab"), "ababc".trim_start_matches("ab"));
    assert_eq!(replace_char("a`b`", '`', '\''), "a'b'");
}

#[test]
fn cuts_fall_between_characters() {
    for s in SAMPLES {
        for max in 0..s.len() + 2 {
            let mut cut = s.len().min(max);
            while !s.is_char_boundary(cut) {
                cut -= 1;
            }
            assert_eq!(truncate(s, max), s[..cut]);
        }
    }
}

#[test]
fn lists_are_quoted_like_debug_output() {
    for s in SAMPLES {
        let list = vec![s.to_string(), "quote\" back\\".to_string()];
        assert_eq!(quote_list(&list), format!("{list:?}"));
    }
    assert_eq!(quote_list(&vec![]), "[]");
}

#[test]
fn numbers_are_written_and_read() {
    for n in [0, 7, 10, 4096, u64::MAX] {
        assert_eq!(decimal_u64(n), n.to_string());
    }
    for n in [0, -1, 42, i64::MAX, i64::MIN] {
        assert_eq!(decimal_i64(n), n.to_string());
    }
    for n in [0u32, 0xf, 0x8601ec8c, u32::MAX] {
        assert_eq!(hex_u32(n), format!("{n:08x}"));
    }
}

#[test]
fn numbers_are_refused_like_the_standard_library_does() {
    let samples = [
        "", "0", "007", "+7", "-7", "-0", "+", "-", "1 ", "1_0", "٣", "18446744073709551615",
        "18446744073709551616", "9223372036854775807", "9223372036854775808",
        "-9223372036854775808", "-9223372036854775809", "99999999999999999999999",
    ];
    for s in samples {
        let theirs = s.parse::<u64>().map_err(|e| e.to_string());
        assert_eq!(parse_u64(s).map_err(|e| e.message().to_string()), theirs, "{s:?}");
        let theirs = s.parse::<i64>().map_err(|e| e.to_string());
        assert_eq!(parse_i64(s).map_err(|e| e.message().to_string()), theirs, "{s:?}");
        let theirs = s.parse::<usize>().map_err(|e| e.to_string());
        assert_eq!(parse_usize(s).map_err(|e| e.message().to_string()), theirs, "{s:?}");
    }
}

#[test]
fn paths_are_joined_like_the_standard_library_does() {
    let pairs = [("/a", "b"), ("/a/", "b"), ("/a", "/b"), ("", "b"), ("a", ""), ("/", "x")];
    for (a, b) in pairs {
        let theirs = std::path::Path::new(a).join(b);
        assert_eq!(join_path(a, b), theirs.to_string_lossy());
    }
    for p in ["/a", "a", "", "./a", "/"] {
        assert_eq!(absolute(p), std::path::Path::new(p).is_absolute());
    }
}
