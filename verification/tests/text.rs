use wrapper_gen::text::{
    chars_of, contains, last_component, precedes_text, same_text, unescape, unquote,
};

#[test]
fn chars_of_keeps_every_character_in_order() {
    assert_eq!(chars_of("a::b"), vec!['a', ':', ':', 'b']);
    assert_eq!(chars_of(""), Vec::<char>::new());
    assert_eq!(chars_of("é√"), vec!['é', '√']);
}

#[test]
fn same_text_compares_whole_texts() {
    assert!(same_text("optional", "optional"));
    assert!(!same_text("optional", "optiona"));
    assert!(!same_text("", "x"));
    assert!(same_text("", ""));
}

#[test]
fn contains_finds_a_pattern_anywhere() {
    let tokens = "( Clone , PartialEq , :: prost_derive :: Message )";
    assert!(contains(tokens, ":: prost_derive :: Message"));
    assert!(contains(tokens, "( Clone"));
    assert!(contains(tokens, "Message )"));
    assert!(!contains(tokens, "::prost_derive::Message"));
    assert!(!contains("Message", ":: prost_derive :: Message"));
}

#[test]
fn contains_takes_the_empty_pattern_as_found() {
    assert!(contains("abc", ""));
    assert!(contains("", ""));
    assert!(!contains("", "a"));
}

#[test]
fn contains_agrees_with_std_on_overlapping_candidates() {
    for text in ["aab", "aaab", "abab", "ba", "aaa", "b"] {
        for pattern in ["ab", "aab", "b", "aa", "abb", "ba"] {
            assert_eq!(contains(text, pattern), text.contains(pattern), "{text} {pattern}");
        }
    }
}

#[test]
fn precedes_text_is_the_order_of_strings() {
    let samples = ["", "a", "ab", "abc", "abd", "b", "B", "pkg::Color", "pkg::Colour", "é", "z"];
    for a in samples {
        for b in samples {
            assert_eq!(precedes_text(a, b), a <= b, "{a:?} {b:?}");
        }
    }
}

#[test]
fn precedes_text_puts_a_prefix_first() {
    assert!(precedes_text("ab", "abc"));
    assert!(!precedes_text("abc", "ab"));
    assert!(precedes_text("abc", "abc"));
}

#[test]
fn unquote_drops_the_first_and_last_character() {
    assert_eq!(unquote("\"pkg::Color\""), "pkg::Color");
    assert_eq!(unquote("\"\""), "");
    assert_eq!(unquote("ab"), "");
    assert_eq!(unquote("true"), "ru");
}

#[test]
fn unquote_of_a_short_text_is_empty() {
    assert_eq!(unquote("5"), "");
    assert_eq!(unquote(""), "");
}

#[test]
fn unescape_drops_the_raw_marker() {
    assert_eq!(unescape("r#type"), "type");
    assert_eq!(unescape("name"), "name");
    assert_eq!(unescape("r#"), "");
    assert_eq!(unescape("r"), "r");
    assert_eq!(unescape("rate"), "rate");
    assert_eq!(unescape("#r"), "#r");
}

#[test]
fn last_component_follows_the_last_slash() {
    assert_eq!(last_component("proto/src/kvrpcpb.rs"), "kvrpcpb.rs");
    assert_eq!(last_component("kvrpcpb.rs"), "kvrpcpb.rs");
    assert_eq!(last_component("/abs.rs"), "abs.rs");
    assert_eq!(last_component("dir/"), "");
    assert_eq!(last_component(""), "");
    assert_eq!(last_component("a/b/"), "");
    assert_eq!(last_component("a//b"), "b");
}
