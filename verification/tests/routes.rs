use demo_router::http::{Body, MediaType, Method, Request, Response};
use demo_router::png::get_demo_png;
use demo_router::router::handle;

fn req(method: Method, uri: &str) -> Request {
    Request { method, uri: uri.to_string() }
}

fn ask(method: Method, uri: &str) -> Response {
    handle(&req(method, uri)).expect("the embedded image must decode")
}

fn get(uri: &str) -> Response {
    ask(Method::Get, uri)
}

fn text_body(r: &Response) -> &str {
    match &r.body {
        Body::Text(s) => s.as_str(),
        Body::Bytes(_) => panic!("expected a text body"),
    }
}

fn byte_body(r: Response) -> Vec<u8> {
    match r.body {
        Body::Bytes(b) => b,
        Body::Text(_) => panic!("expected a byte body"),
    }
}

#[test]
fn root_returns_greeting() {
    let r = get("/");
    assert_eq!(r.status, 200);
    assert!(matches!(r.media, MediaType::TextPlain));
    assert_eq!(text_body(&r), "hello interesting but cruel world!");
}

#[test]
fn demo_status_is_okay() {
    let r = get("/demo-status");
    assert_eq!(r.status, 200);
    assert_eq!(text_body(&r), "Everything is okay");
}

#[test]
fn hello_html_is_the_fixed_page() {
    let r = get("/hello.html");
    assert_eq!(r.status, 200);
    assert!(matches!(r.media, MediaType::TextHtml));
    assert_eq!(
        text_body(&r),
        "<!DOCTYPE html><html><head><title>Hello</title></head><body><h1>Hello!</h1></body></html>"
    );
}

#[test]
fn demo_uri_echoes_the_uri() {
    let r = get("/demo-uri");
    assert_eq!(r.status, 200);
    assert_eq!(text_body(&r), "The URI is /demo-uri");
}

#[test]
fn demo_uri_echoes_the_query_too() {
    let r = get("/demo-uri?q=1");
    assert_eq!(r.status, 200);
    assert_eq!(text_body(&r), "The URI is /demo-uri?q=1");
}

#[test]
fn demo_json_is_exact() {
    let r = get("/demo.json");
    assert_eq!(r.status, 200);
    assert!(matches!(r.media, MediaType::ApplicationJson));
    assert_eq!(text_body(&r), "{\"a\":\"b\"}");
}

#[test]
fn demo_json_parses_as_json() {
    let r = get("/demo.json");
    let v: serde_json::Value = serde_json::from_str(text_body(&r)).unwrap();
    assert_eq!(v.get("a").unwrap().as_str().unwrap(), "b");
}

#[test]
fn foo_get() {
    let r = ask(Method::Get, "/foo");
    assert_eq!(r.status, 200);
    assert_eq!(text_body(&r), "GET foo");
}

#[test]
fn foo_put() {
    let r = ask(Method::Put, "/foo");
    assert_eq!(r.status, 200);
    assert_eq!(text_body(&r), "PUT foo");
}

#[test]
fn foo_patch() {
    let r = ask(Method::Patch, "/foo");
    assert_eq!(r.status, 200);
    assert_eq!(text_body(&r), "PATCH foo");
}

#[test]
fn foo_post() {
    let r = ask(Method::Post, "/foo");
    assert_eq!(r.status, 200);
    assert_eq!(text_body(&r), "POST foo");
}

#[test]
fn foo_delete() {
    let r = ask(Method::Delete, "/foo");
    assert_eq!(r.status, 200);
    assert_eq!(text_body(&r), "DELETE foo");
}

#[test]
fn foo_rejects_other_verbs() {
    let r = ask(Method::Other, "/foo");
    assert_eq!(r.status, 404);
    assert_eq!(text_body(&r), "No route for /foo");
}

#[test]
fn items_id_echoes_the_parameter() {
    let r = get("/items/42");
    assert_eq!(r.status, 200);
    let body = text_body(&r);
    assert!(body.contains("42"));
    assert_eq!(body, "Get items with path id: \"42\"");
}

#[test]
fn items_id_percent_decodes_the_parameter() {
    let r = get("/items/caf%C3%A9");
    assert_eq!(r.status, 200);
    assert_eq!(text_body(&r), "Get items with path id: \"café\"");
    let r = get("/items/a%20b");
    assert_eq!(text_body(&r), "Get items with path id: \"a b\"");
}

#[test]
fn items_id_keeps_plus_and_malformed_escapes() {
    let r = get("/items/a+b");
    assert_eq!(text_body(&r), "Get items with path id: \"a+b\"");
    let r = get("/items/%zz");
    assert_eq!(text_body(&r), "Get items with path id: \"%zz\"");
}

#[test]
fn items_id_with_invalid_utf8_escape_is_bad_request() {
    let r = get("/items/%FF");
    assert_eq!(r.status, 400);
    assert!(matches!(r.media, MediaType::TextPlain));
    assert_eq!(text_body(&r), "Invalid UTF-8 in `id`");
}

#[test]
fn items_id_escaped_slash_matches_one_segment() {
    let r = get("/items/a%2Fb");
    assert_eq!(r.status, 200);
    assert_eq!(text_body(&r), "Get items with path id: \"a/b\"");
}

#[test]
fn items_query_percent_decodes_keys_and_values() {
    let r = get("/items?a%20b=c%26d&x=a+b");
    assert_eq!(
        text_body(&r),
        "Get items with query params: {\"a b\": \"c&d\", \"x\": \"a b\"}"
    );
}

#[test]
fn items_query_escaped_key_collides_with_plain_key() {
    let r = get("/items?%78=1&x=2");
    assert_eq!(text_body(&r), "Get items with query params: {\"x\": \"2\"}");
}

#[test]
fn items_query_invalid_utf8_value_is_lossy() {
    let r = get("/items?x=%FF");
    assert_eq!(text_body(&r), "Get items with query params: {\"x\": \"\u{FFFD}\"}");
}

#[test]
fn items_query_reflects_both_parameters() {
    let r = get("/items?x=1&y=2");
    assert_eq!(r.status, 200);
    assert_eq!(text_body(&r), "Get items with query params: {\"x\": \"1\", \"y\": \"2\"}");
    let r = get("/items?y=2&x=1");
    assert_eq!(r.status, 200);
    assert_eq!(text_body(&r), "Get items with query params: {\"y\": \"2\", \"x\": \"1\"}");
}

#[test]
fn items_query_last_value_wins() {
    let r = get("/items?x=1&x=2");
    assert_eq!(r.status, 200);
    assert_eq!(text_body(&r), "Get items with query params: {\"x\": \"2\"}");
}

#[test]
fn items_without_query_is_empty_mapping() {
    let r = get("/items");
    assert_eq!(r.status, 200);
    assert_eq!(text_body(&r), "Get items with query params: {}");
}

#[test]
fn items_query_key_without_value() {
    let r = get("/items?flag");
    assert_eq!(r.status, 200);
    assert_eq!(text_body(&r), "Get items with query params: {\"flag\": \"\"}");
}

#[test]
fn items_with_empty_segment_is_not_found() {
    let r = get("/items/");
    assert_eq!(r.status, 404);
    assert_eq!(text_body(&r), "No route for /items/");
}

#[test]
fn items_with_nested_segment_is_not_found() {
    let r = get("/items/a/b");
    assert_eq!(r.status, 404);
    assert_eq!(text_body(&r), "No route for /items/a/b");
}

#[test]
fn unmatched_path_is_not_found_and_echoes_uri() {
    let r = get("/nope");
    assert_eq!(r.status, 404);
    assert!(matches!(r.media, MediaType::TextPlain));
    assert_eq!(text_body(&r), "No route for /nope");
}

#[test]
fn unmatched_uri_with_query_is_echoed_whole() {
    let r = get("/nope?x=1&y=2");
    assert_eq!(r.status, 404);
    assert!(text_body(&r).contains("/nope?x=1&y=2"));
}

#[test]
fn unmatched_method_on_root_is_not_found() {
    let r = ask(Method::Put, "/");
    assert_eq!(r.status, 404);
    assert_eq!(text_body(&r), "No route for /");
}

#[test]
fn png_is_fixed_and_byte_identical_across_requests() {
    let r1 = get("/demo.png");
    let r2 = get("/demo.png");
    assert_eq!(r1.status, 200);
    assert!(matches!(r1.media, MediaType::ImagePng));
    let b1 = byte_body(r1);
    let b2 = byte_body(r2);
    assert_eq!(b1, b2);
    let expected = base64::decode(
        "iVBORw0KGgoAAAANSUhEUgAAAAEAAAABCAYAAAAfFcSJAAAADUlEQVR42mPk+89QDwADvgGOSHzRgAAAAABJRU5ErkJggg==",
    )
    .unwrap();
    assert_eq!(b1, expected);
    assert_eq!(b1[0], 0x89);
    assert_eq!(&b1[1..4], b"PNG");
}

#[test]
fn png_handler_decodes_the_embedded_image() {
    let r = get_demo_png().expect("the embedded image must decode");
    assert_eq!(r.status, 200);
    assert!(matches!(r.media, MediaType::ImagePng));
    let b = byte_body(r);
    assert_eq!(b.len(), 70);
    assert_eq!(b[0], 0x89);
}
