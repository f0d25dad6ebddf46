//! The handlers of the fixed routes.  Each is a pure function of its
//! inputs, and each contract pins the returned text down exactly.

use vstd::prelude::*;
use vstd::string::StringExecFns;
use crate::http::{Method, Response, MediaType, Body, ResponseModel, BodyModel};
use crate::query::{
    collapse, entries_text, entry_text, has_key, last_value, lemma_collapse_entry,
    lemma_entries_text_contains, pairs_of, query_entries, query_text, split_on,
};

verus! {

/// The greeting text of the root route.
pub open spec fn greeting_text() -> Seq<char> {
    "hello interesting but cruel world!"@
}

/// The fixed HTML document of the hello page.
pub open spec fn hello_html_text() -> Seq<char> {
    "<!DOCTYPE html><html><head><title>Hello</title></head><body><h1>Hello!</h1></body></html>"@
}

/// The status route's text.
pub open spec fn status_text() -> Seq<char> {
    "Everything is okay"@
}

/// The URI echo route's text.
pub open spec fn uri_text(uri: Seq<char>) -> Seq<char> {
    "The URI is "@ + uri
}

/// The fixed JSON document.
pub open spec fn demo_json_text() -> Seq<char> {
    "{\"a\":\"b\"}"@
}

/// The text naming the verb used on the verb-echo route.
pub open spec fn foo_text(m: Method) -> Seq<char> {
    match m {
        Method::Get => "GET foo"@,
        Method::Put => "PUT foo"@,
        Method::Patch => "PATCH foo"@,
        Method::Post => "POST foo"@,
        Method::Delete => "DELETE foo"@,
        Method::Other => Seq::empty(),
    }
}

/// The text echoing a path parameter.
pub open spec fn items_id_text(id: Seq<char>) -> Seq<char> {
    "Get items with path id: \""@ + id + "\""@
}

/// The text echoing the query parameters as a mapping.
pub open spec fn items_text(qs: Seq<char>) -> Seq<char> {
    "Get items with query params: "@ + "{"@ + entries_text(query_entries(qs)) + "}"@
}

/// The fallback text for an unmatched URI.
pub open spec fn not_found_text(uri: Seq<char>) -> Seq<char> {
    "No route for "@ + uri
}

/// The text answering an item id whose escapes decode to invalid UTF-8.
pub open spec fn invalid_id_text() -> Seq<char> {
    "Invalid UTF-8 in `id`"@
}

/// Every key sent in a query string is reflected in the item route's text,
/// rendered with the value of its last occurrence, wherever in the query
/// string the key stood: the answer does not depend on parameter order.
pub proof fn lemma_items_reflects_every_key(qs: Seq<char>, k: Seq<char>)
    requires
        has_key(pairs_of(split_on(qs, '&')), k),
    ensures
        ({
            let e = entry_text((k, last_value(pairs_of(split_on(qs, '&')), k)));
            let body = items_text(qs);
            exists|a: int|
                0 <= a && a + e.len() <= body.len() && #[trigger] body.subrange(
                    a,
                    a + e.len() as int,
                ) == e
        }),
{
    let ps = pairs_of(split_on(qs, '&'));
    let es = collapse(ps);
    let e = entry_text((k, last_value(ps, k)));
    lemma_collapse_entry(ps, k);
    let i = choose|i: int| 0 <= i < es.len() && es[i] == (k, last_value(ps, k));
    lemma_entries_text_contains(es, i);
    let a0 = choose|a: int|
        0 <= a && a + entry_text(es[i]).len() <= entries_text(es).len()
            && #[trigger] entries_text(es).subrange(a, a + entry_text(es[i]).len() as int)
            == entry_text(es[i]);
    let shift = "Get items with query params: "@.len() + "{"@.len();
    let a = a0 + shift;
    assert(items_text(qs).subrange(a, a + e.len() as int) =~= e);
}

/// The root route's greeting.
pub fn hello() -> (r: String)
    ensures
        r@ == greeting_text(),
{
    String::from_str("hello interesting but cruel world!")
}

/// The fixed HTML page.
pub fn hello_html() -> (r: String)
    ensures
        r@ == hello_html_text(),
{
    String::from_str(
        "<!DOCTYPE html><html><head><title>Hello</title></head><body><h1>Hello!</h1></body></html>",
    )
}

/// The status route: `200` and its fixed text.
pub fn demo_status() -> (r: (u16, String))
    ensures
        r.0 == 200,
        r.1@ == status_text(),
{
    (200, String::from_str("Everything is okay"))
}

/// Echoes the request URI.
pub fn demo_uri(uri: &str) -> (r: String)
    ensures
        r@ == uri_text(uri@),
{
    let mut s = String::from_str("The URI is ");
    s.append(uri);
    s
}

/// The fixed JSON document.
pub fn get_demo_json() -> (r: String)
    ensures
        r@ == demo_json_text(),
{
    String::from_str("{\"a\":\"b\"}")
}

/// The verb echo for `GET`.
pub fn get_foo() -> (r: String)
    ensures
        r@ == foo_text(Method::Get),
{
    String::from_str("GET foo")
}

/// The verb echo for `PUT`.
pub fn put_foo() -> (r: String)
    ensures
        r@ == foo_text(Method::Put),
{
    String::from_str("PUT foo")
}

/// The verb echo for `PATCH`.
pub fn patch_foo() -> (r: String)
    ensures
        r@ == foo_text(Method::Patch),
{
    String::from_str("PATCH foo")
}

/// The verb echo for `POST`.
pub fn post_foo() -> (r: String)
    ensures
        r@ == foo_text(Method::Post),
{
    String::from_str("POST foo")
}

/// The verb echo for `DELETE`.
pub fn delete_foo() -> (r: String)
    ensures
        r@ == foo_text(Method::Delete),
{
    String::from_str("DELETE foo")
}

/// Echoes the path parameter of the item route.
pub fn get_items_id(id: &str) -> (r: String)
    ensures
        r@ == items_id_text(id@),
{
    let mut s = String::from_str("Get items with path id: \"");
    s.append(id);
    s.append("\"");
    proof {
        assert(s@ =~= items_id_text(id@));
    }
    s
}

/// Echoes the query parameters of the item route as a mapping.
pub fn get_items(query: &str) -> (r: String)
    ensures
        r@ == items_text(query@),
{
    let mut s = String::from_str("Get items with query params: ");
    let q = query_text(query);
    s.append(q.as_str());
    proof {
        assert(s@ =~= items_text(query@));
    }
    s
}

/// The fallback: `404` with a text echoing the unmatched URI.
pub fn fallback(uri: &str) -> (r: Response)
    ensures
        r@ == (ResponseModel {
            status: 404,
            media: MediaType::TextPlain,
            body: BodyModel::Text(not_found_text(uri@)),
        }),
{
    let mut s = String::from_str("No route for ");
    s.append(uri);
    Response { status: 404, media: MediaType::TextPlain, body: Body::Text(s) }
}

} // verus!
