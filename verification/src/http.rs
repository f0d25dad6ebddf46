//! The plain-value model of an HTTP exchange: methods, media types,
//! requests and responses, together with their mathematical views.

use vstd::prelude::*;

verus! {

/// The request methods the route table distinguishes.  Anything else is
/// carried as `Other` and can only reach the fallback route.
#[derive(Clone, Copy, Debug, PartialEq, Eq, Structural)]
pub enum Method {
    Get,
    Put,
    Patch,
    Post,
    Delete,
    Other,
}

/// The media types the fixed routes produce.
#[derive(Clone, Copy, Debug, PartialEq, Eq, Structural)]
pub enum MediaType {
    TextPlain,
    TextHtml,
    ApplicationJson,
    ImagePng,
}

/// A response body: either text or raw bytes.
pub enum Body {
    Text(String),
    Bytes(Vec<u8>),
}

/// The mathematical view of a [`Body`].
pub enum BodyModel {
    Text(Seq<char>),
    Bytes(Seq<u8>),
}

impl View for Body {
    type V = BodyModel;

    open spec fn view(&self) -> BodyModel {
        match self {
            Body::Text(s) => BodyModel::Text(s@),
            Body::Bytes(b) => BodyModel::Bytes(b@),
        }
    }
}

/// An incoming request: a method and the raw URI as received, with the
/// query string (if any) still attached after a `'?'`.
pub struct Request {
    pub method: Method,
    pub uri: String,
}

/// An outgoing response: a status code, a media type and a body.
pub struct Response {
    pub status: u16,
    pub media: MediaType,
    pub body: Body,
}

/// The mathematical view of a [`Response`].
pub struct ResponseModel {
    pub status: int,
    pub media: MediaType,
    pub body: BodyModel,
}

impl View for Response {
    type V = ResponseModel;

    open spec fn view(&self) -> ResponseModel {
        ResponseModel { status: self.status as int, media: self.media, body: self.body@ }
    }
}

/// The model of a `200` plain-text response.
pub open spec fn text_model(t: Seq<char>) -> ResponseModel {
    ResponseModel { status: 200, media: MediaType::TextPlain, body: BodyModel::Text(t) }
}

} // verus!
