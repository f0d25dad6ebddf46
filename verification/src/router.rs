//! The route table and dispatcher.  `spec_handle` is the complete
//! behavioural specification: for every method and URI it gives the one
//! response the router owes, and `handle` is proved to return exactly it.

use vstd::prelude::*;
use vstd::string::StrSliceExecFns;
use crate::http::{Method, Request, Response, MediaType, Body, ResponseModel, BodyModel, text_model};
use crate::text::{find_char, first_index_of, lemma_first_index_of, str_eq};
use crate::escape::{path_unescaped_bytes, unescape_path_text};
use crate::handlers::{
    greeting_text, hello_html_text, status_text, uri_text, demo_json_text, foo_text,
    items_id_text, items_text, not_found_text, invalid_id_text, hello, hello_html, demo_status,
    demo_uri, get_demo_json, get_foo, put_foo, patch_foo, post_foo, delete_foo, get_items_id,
    get_items, fallback,
};
use crate::png::{png_bytes, png_decoded, demo_png_body};
use vstd::string::StringExecFns;
use vstd::utf8::{decode_utf8, valid_utf8};

verus! {

/// The path of a URI: everything before the first `'?'`.
pub open spec fn spec_path(uri: Seq<char>) -> Seq<char> {
    uri.subrange(0, first_index_of(uri, '?') as int)
}

/// The query string of a URI: everything after the first `'?'`, or empty
/// when there is none.
pub open spec fn spec_query(uri: Seq<char>) -> Seq<char> {
    let i = first_index_of(uri, '?') as int;
    if i >= uri.len() {
        Seq::empty()
    } else {
        uri.subrange(i + 1, uri.len() as int)
    }
}

/// Whether `m` is one of the verbs the verb-echo route accepts.
pub open spec fn is_foo_method(m: Method) -> bool {
    m == Method::Get || m == Method::Put || m == Method::Patch || m == Method::Post || m
        == Method::Delete
}

/// Whether `path` matches the parameterised item route: the item prefix
/// followed by one non-empty segment.
pub open spec fn is_items_id_path(path: Seq<char>) -> bool {
    &&& path.len() > "/items/"@.len()
    &&& path.subrange(0, "/items/"@.len() as int) == "/items/"@
    &&& forall|j: int| "/items/"@.len() <= j < path.len() ==> path[j] != '/'
}

/// The path parameter of the item route.
pub open spec fn items_id_of(path: Seq<char>) -> Seq<char> {
    path.subrange("/items/"@.len() as int, path.len() as int)
}

/// Whether some route matches the method and URI.
pub open spec fn route_matches(m: Method, uri: Seq<char>) -> bool {
    let path = spec_path(uri);
    ||| m == Method::Get && path == "/"@
    ||| m == Method::Get && path == "/demo-status"@
    ||| m == Method::Get && path == "/hello.html"@
    ||| m == Method::Get && path == "/demo-uri"@
    ||| m == Method::Get && path == "/demo.png"@
    ||| is_foo_method(m) && path == "/foo"@
    ||| m == Method::Get && is_items_id_path(path)
    ||| m == Method::Get && path == "/items"@
    ||| m == Method::Get && path == "/demo.json"@
}

/// The response owed for a request, given the bytes `png` of the embedded
/// image.  Exact literal paths take precedence; the parameterised item
/// route matches any single non-empty raw segment, whose escapes are then
/// percent-decoded (an id decoding to invalid UTF-8 is answered `400`);
/// anything else falls back to a `404` echoing the URI.
pub open spec fn spec_handle(m: Method, uri: Seq<char>, png: Seq<u8>) -> ResponseModel {
    let path = spec_path(uri);
    if m == Method::Get && path == "/"@ {
        text_model(greeting_text())
    } else if m == Method::Get && path == "/demo-status"@ {
        text_model(status_text())
    } else if m == Method::Get && path == "/hello.html"@ {
        ResponseModel { status: 200, media: MediaType::TextHtml, body: BodyModel::Text(hello_html_text()) }
    } else if m == Method::Get && path == "/demo-uri"@ {
        text_model(uri_text(uri))
    } else if m == Method::Get && path == "/demo.png"@ {
        ResponseModel { status: 200, media: MediaType::ImagePng, body: BodyModel::Bytes(png) }
    } else if is_foo_method(m) && path == "/foo"@ {
        text_model(foo_text(m))
    } else if m == Method::Get && is_items_id_path(path) {
        if valid_utf8(path_unescaped_bytes(items_id_of(path))) {
            text_model(items_id_text(decode_utf8(path_unescaped_bytes(items_id_of(path)))))
        } else {
            ResponseModel {
                status: 400,
                media: MediaType::TextPlain,
                body: BodyModel::Text(invalid_id_text()),
            }
        }
    } else if m == Method::Get && path == "/items"@ {
        text_model(items_text(spec_query(uri)))
    } else if m == Method::Get && path == "/demo.json"@ {
        ResponseModel { status: 200, media: MediaType::ApplicationJson, body: BodyModel::Text(demo_json_text()) }
    } else {
        ResponseModel { status: 404, media: MediaType::TextPlain, body: BodyModel::Text(not_found_text(uri)) }
    }
}

/// Every unmatched request is answered with a `404` whose text carries the
/// requested URI itself (here: as its suffix).
pub proof fn lemma_unmatched_is_not_found(m: Method, uri: Seq<char>, png: Seq<u8>)
    requires
        !route_matches(m, uri),
    ensures
        spec_handle(m, uri, png).status == 404,
        spec_handle(m, uri, png).body == BodyModel::Text(not_found_text(uri)),
        not_found_text(uri).subrange(
            not_found_text(uri).len() - uri.len(),
            not_found_text(uri).len() as int,
        ) == uri,
{
    assert(not_found_text(uri).subrange(
        not_found_text(uri).len() - uri.len(),
        not_found_text(uri).len() as int,
    ) =~= uri);
}

/// Every matched request is answered with a `200`: no handler can fail on
/// its declared inputs.  The one guarded input is an item id whose escapes
/// decode to bytes that are not valid UTF-8; that request alone is
/// answered `400` instead.
pub proof fn lemma_matched_is_ok(m: Method, uri: Seq<char>, png: Seq<u8>)
    requires
        route_matches(m, uri),
        is_items_id_path(spec_path(uri)) ==> valid_utf8(
            path_unescaped_bytes(items_id_of(spec_path(uri))),
        ),
    ensures
        spec_handle(m, uri, png).status == 200,
{
}

/// A URI without a `'?'` is all path and has no query string.
pub proof fn lemma_no_query(uri: Seq<char>)
    requires
        forall|j: int| 0 <= j < uri.len() ==> uri[j] != '?',
    ensures
        spec_path(uri) == uri,
        spec_query(uri) == Seq::<char>::empty(),
{
    crate::text::lemma_first_index_of_unique(uri, '?', uri.len() as int);
    assert(spec_path(uri) =~= uri);
}

/// On the verb-echo path, no verb beyond the five declared ones is
/// accepted: any other method gets the `404` fallback.
pub proof fn lemma_foo_rejects_other_verbs(m: Method, png: Seq<u8>)
    requires
        !is_foo_method(m),
    ensures
        spec_handle(m, "/foo"@, png).status == 404,
        spec_handle(m, "/foo"@, png).body == BodyModel::Text(not_found_text("/foo"@)),
{
    reveal_strlit("/foo");
    lemma_no_query("/foo"@);
    assert(!route_matches(m, "/foo"@));
    lemma_unmatched_is_not_found(m, "/foo"@, png);
}

/// The image route's answer does not depend on the request: every request
/// whose path is the image path gets the same status, media type and
/// bytes, whatever its query string and however often it is asked.
pub proof fn lemma_png_response_fixed(u1: Seq<char>, u2: Seq<char>, png: Seq<u8>)
    requires
        spec_path(u1) == "/demo.png"@,
        spec_path(u2) == "/demo.png"@,
    ensures
        spec_handle(Method::Get, u1, png) == spec_handle(Method::Get, u2, png),
        spec_handle(Method::Get, u1, png).body == BodyModel::Bytes(png),
        spec_handle(Method::Get, u1, png).status == 200,
        spec_handle(Method::Get, u1, png).media == MediaType::ImagePng,
{
    reveal_strlit("/demo.png");
    reveal_strlit("/");
    reveal_strlit("/demo-status");
    reveal_strlit("/hello.html");
    reveal_strlit("/demo-uri");
    assert("/demo.png"@[5] != "/demo-uri"@[5]);
    assert("/demo.png"@ != "/"@);
    assert("/demo.png"@ != "/demo-status"@);
    assert("/demo.png"@ != "/hello.html"@);
    assert("/demo.png"@ != "/demo-uri"@);
}

/// The requested path and query string, read off a request.
fn split_uri(req: &Request) -> (r: (String, String))
    ensures
        r.0@ == spec_path(req.uri@),
        r.1@ == spec_query(req.uri@),
{
    let u = req.uri.as_str();
    let n = u.unicode_len();
    let q = find_char(u, '?');
    proof {
        lemma_first_index_of(u@, '?');
    }
    let path = u.substring_char(0, q);
    if q < n {
        let query = u.substring_char(q + 1, n);
        (String::from_str(path), String::from_str(query))
    } else {
        proof {
            reveal_strlit("");
            assert(""@ =~= spec_query(req.uri@));
        }
        (String::from_str(path), String::from_str(""))
    }
}

/// Whether `path` matches the parameterised item route, and if so, the
/// path parameter.
fn match_items_id(path: &str) -> (r: Option<String>)
    ensures
        match r {
            Some(id) => is_items_id_path(path@) && id@ == items_id_of(path@),
            None => !is_items_id_path(path@),
        },
{
    let n = path.unicode_len();
    proof {
        reveal_strlit("/items/");
    }
    if n <= 7 {
        return None;
    }
    let prefix = path.substring_char(0, 7);
    if !str_eq(prefix, "/items/") {
        return None;
    }
    let rest = path.substring_char(7, n);
    let slash = find_char(rest, '/');
    proof {
        lemma_first_index_of(rest@, '/');
    }
    if slash < rest.unicode_len() {
        proof {
            assert(path@[7 + slash] == '/');
        }
        return None;
    }
    proof {
        assert(forall|j: int| 7 <= j < path@.len() ==> path@[j] == rest@[j - 7]);
        assert(is_items_id_path(path@));
        assert(rest@ =~= items_id_of(path@));
    }
    Some(String::from_str(rest))
}

/// Dispatches a request, the embedded image's bytes given as `png`: the
/// result is exactly what `spec_handle` owes.
pub fn handle_decoded(req: &Request, png: &Vec<u8>) -> (r: Response)
    ensures
        r@ == spec_handle(req.method, req.uri@, png@),
{
    let (path_s, query_s) = split_uri(req);
    let path = path_s.as_str();
    let m = req.method;
    let item = match_items_id(path);
    if m == Method::Get && str_eq(path, "/") {
        Response { status: 200, media: MediaType::TextPlain, body: Body::Text(hello()) }
    } else if m == Method::Get && str_eq(path, "/demo-status") {
        let (status, text) = demo_status();
        Response { status, media: MediaType::TextPlain, body: Body::Text(text) }
    } else if m == Method::Get && str_eq(path, "/hello.html") {
        Response { status: 200, media: MediaType::TextHtml, body: Body::Text(hello_html()) }
    } else if m == Method::Get && str_eq(path, "/demo-uri") {
        Response {
            status: 200,
            media: MediaType::TextPlain,
            body: Body::Text(demo_uri(req.uri.as_str())),
        }
    } else if m == Method::Get && str_eq(path, "/demo.png") {
        let mut bytes: Vec<u8> = Vec::new();
        let mut i: usize = 0;
        while i < png.len()
            invariant
                i <= png.len(),
                bytes@ == png@.subrange(0, i as int),
            decreases png.len() - i,
        {
            bytes.push(png[i]);
            i = i + 1;
        }
        proof {
            assert(bytes@ =~= png@);
        }
        Response { status: 200, media: MediaType::ImagePng, body: Body::Bytes(bytes) }
    } else if str_eq(path, "/foo") && (m == Method::Get || m == Method::Put || m == Method::Patch
        || m == Method::Post || m == Method::Delete) {
        let text = match m {
            Method::Get => get_foo(),
            Method::Put => put_foo(),
            Method::Patch => patch_foo(),
            Method::Post => post_foo(),
            Method::Delete => delete_foo(),
            Method::Other => get_foo(),
        };
        Response { status: 200, media: MediaType::TextPlain, body: Body::Text(text) }
    } else if m == Method::Get && item.is_some() {
        let id = match item {
            Some(id) => id,
            None => String::from_str(""),
        };
        match unescape_path_text(id.as_str()) {
            Some(decoded) => Response {
                status: 200,
                media: MediaType::TextPlain,
                body: Body::Text(get_items_id(decoded.as_str())),
            },
            None => Response {
                status: 400,
                media: MediaType::TextPlain,
                body: Body::Text(String::from_str("Invalid UTF-8 in `id`")),
            },
        }
    } else if m == Method::Get && str_eq(path, "/items") {
        Response {
            status: 200,
            media: MediaType::TextPlain,
            body: Body::Text(get_items(query_s.as_str())),
        }
    } else if m == Method::Get && str_eq(path, "/demo.json") {
        Response {
            status: 200,
            media: MediaType::ApplicationJson,
            body: Body::Text(get_demo_json()),
        }
    } else {
        fallback(req.uri.as_str())
    }
}

/// Dispatches a request: the answer is exactly what `spec_handle` owes.
/// `None` comes exactly when the image route is asked and `png_decoded()`
/// — a fixed value, the decode of the crate's own embedded text — is
/// `None`; so whether a request is answered does not depend on anything
/// outside the request and the embedded text.
pub fn handle(req: &Request) -> (r: Option<Response>)
    ensures
        match r {
            Some(resp) => resp@ == spec_handle(req.method, req.uri@, png_bytes()) && (
            req.method == Method::Get && spec_path(req.uri@) == "/demo.png"@
                ==> png_decoded() is Some),
            None => req.method == Method::Get && spec_path(req.uri@) == "/demo.png"@
                && png_decoded() is None,
        },
{
    let (path_s, _query_s) = split_uri(req);
    if req.method == Method::Get && str_eq(path_s.as_str(), "/demo.png") {
        match demo_png_body() {
            Some(b) => Some(handle_decoded(req, &b)),
            None => None,
        }
    } else {
        let none: Vec<u8> = Vec::new();
        let r = handle_decoded(req, &none);
        proof {
            assert(spec_handle(req.method, req.uri@, none@) == spec_handle(
                req.method,
                req.uri@,
                png_bytes(),
            ));
        }
        Some(r)
    }
}

} // verus!
