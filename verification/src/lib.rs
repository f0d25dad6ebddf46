//! A small, fully specified HTTP request router.
//!
//! The crate models an HTTP exchange as plain values: a [`http::Request`]
//! carries a method and the raw request URI, and [`router::handle`] maps it
//! to a [`http::Response`] according to a fixed route table.  Every route's
//! body is pinned down exactly by the contracts; anything unmatched gets a
//! `404` echoing the URI.  The surrounding server (TCP, signals) lives
//! outside this crate and only converts values at the edge.

pub mod escape;
pub mod handlers;
pub mod http;
pub mod png;
pub mod query;
pub mod router;
pub mod text;
