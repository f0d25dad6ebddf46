use demo_router::escape::{unescape_path_text, unescape_query_text};
use demo_router::handlers;
use demo_router::query::{parse_query, query_text};
use demo_router::text::{find_char, str_eq};

fn entries(q: &str) -> Vec<(String, String)> {
    parse_query(q)
}

#[test]
fn parse_query_keeps_order_of_distinct_keys() {
    let es = entries("a=1&b=2");
    assert_eq!(es.len(), 2);
    assert_eq!(es[0], ("a".to_string(), "1".to_string()));
    assert_eq!(es[1], ("b".to_string(), "2".to_string()));
}

#[test]
fn parse_query_last_value_wins_in_place_of_last_occurrence() {
    let es = entries("a=1&b=2&a=3");
    assert_eq!(es.len(), 2);
    assert_eq!(es[0], ("b".to_string(), "2".to_string()));
    assert_eq!(es[1], ("a".to_string(), "3".to_string()));
}

#[test]
fn parse_query_skips_empty_parts() {
    let es = entries("&&a=1&&");
    assert_eq!(es.len(), 1);
    assert_eq!(es[0], ("a".to_string(), "1".to_string()));
}

#[test]
fn parse_query_takes_value_after_first_equals_sign() {
    let es = entries("a=1=2");
    assert_eq!(es.len(), 1);
    assert_eq!(es[0], ("a".to_string(), "1=2".to_string()));
}

#[test]
fn parse_query_of_empty_string_is_empty() {
    assert!(entries("").is_empty());
}

#[test]
fn query_text_renders_braced_entries() {
    assert_eq!(query_text("x=1&y=2"), "{\"x\": \"1\", \"y\": \"2\"}");
    assert_eq!(query_text(""), "{}");
}

#[test]
fn unescape_path_decodes_escapes_strictly() {
    assert_eq!(unescape_path_text("caf%C3%A9").unwrap(), "café");
    assert_eq!(unescape_path_text("%4a%6F").unwrap(), "Jo");
    assert_eq!(unescape_path_text("a+b").unwrap(), "a+b");
    assert_eq!(unescape_path_text("%zz%1").unwrap(), "%zz%1");
    assert!(unescape_path_text("%FF").is_none());
}

#[test]
fn unescape_query_maps_plus_and_loses_invalid_utf8() {
    assert_eq!(unescape_query_text("a+b%3Dc"), "a b=c");
    assert_eq!(unescape_query_text("%zz"), "%zz");
    assert_eq!(unescape_query_text("%FF"), "\u{FFFD}");
    assert_eq!(unescape_query_text(""), "");
}

#[test]
fn parse_query_splits_raw_and_then_decodes() {
    let es = parse_query("a%3D1=2&x=1%3D2");
    assert_eq!(es.len(), 2);
    assert_eq!(es[0], ("a=1".to_string(), "2".to_string()));
    assert_eq!(es[1], ("x".to_string(), "1=2".to_string()));
    let es = parse_query("a%20");
    assert_eq!(es.len(), 1);
    assert_eq!(es[0], ("a ".to_string(), "".to_string()));
}

#[test]
fn find_char_finds_the_first_occurrence() {
    assert_eq!(find_char("a?b?c", '?'), 1);
    assert_eq!(find_char("abc", '?'), 3);
    assert_eq!(find_char("", '?'), 0);
}

#[test]
fn str_eq_compares_by_characters() {
    assert!(str_eq("abc", "abc"));
    assert!(!str_eq("abc", "abd"));
    assert!(!str_eq("abc", "ab"));
    assert!(str_eq("", ""));
}

#[test]
fn handlers_echo_their_inputs() {
    assert_eq!(handlers::hello(), "hello interesting but cruel world!");
    assert_eq!(handlers::demo_status(), (200, "Everything is okay".to_string()));
    assert_eq!(handlers::demo_uri("/x?a=b"), "The URI is /x?a=b");
    assert_eq!(handlers::get_items_id("42"), "Get items with path id: \"42\"");
    assert_eq!(handlers::get_items("x=1"), "Get items with query params: {\"x\": \"1\"}");
    assert_eq!(handlers::get_demo_json(), "{\"a\":\"b\"}");
    assert_eq!(handlers::get_foo(), "GET foo");
    assert_eq!(handlers::put_foo(), "PUT foo");
    assert_eq!(handlers::patch_foo(), "PATCH foo");
    assert_eq!(handlers::post_foo(), "POST foo");
    assert_eq!(handlers::delete_foo(), "DELETE foo");
}
