//! The answer to a request, as plain values: a status, an optional content
//! type and a body.

use vstd::prelude::*;

verus! {

/// The status line of a response.
#[derive(Clone, Copy, Debug, PartialEq, Eq, Structural)]
pub enum Status {
    /// 200: the page or the asset is in the body.
    Success,
    /// 404: there is nothing to show at this path.
    NotFound,
    /// 500: a template could not be rendered.
    InternalServerError,
}

impl Status {
    /// The numeric status code.
    pub open spec fn spec_code(self) -> u16 {
        match self {
            Status::Success => 200,
            Status::NotFound => 404,
            Status::InternalServerError => 500,
        }
    }

    /// The numeric status code: 200, 404 or 500.
    #[verifier::when_used_as_spec(spec_code)]
    pub fn code(self) -> (code: u16)
        ensures
            code == self.spec_code(),
    {
        match self {
            Status::Success => 200,
            Status::NotFound => 404,
            Status::InternalServerError => 500,
        }
    }
}

/// The body of a response: text for pages and messages, bytes for assets.
#[derive(Debug, PartialEq, Eq)]
pub enum Body {
    Text(String),
    Bytes(Vec<u8>),
}

/// What a [`Body`] holds.
pub enum BodyView {
    Text(Seq<char>),
    Bytes(Seq<u8>),
}

impl View for Body {
    type V = BodyView;

    open spec fn view(&self) -> BodyView {
        match self {
            Body::Text(text) => BodyView::Text(text@),
            Body::Bytes(bytes) => BodyView::Bytes(bytes@),
        }
    }
}

/// A complete response. `content_type` is `None` where no content type is
/// declared, as for the pages and the not-found message.
#[derive(Debug, PartialEq, Eq)]
pub struct Response {
    pub status: Status,
    pub content_type: Option<String>,
    pub body: Body,
}

/// What a [`Response`] holds.
pub struct ResponseView {
    pub status: Status,
    pub content_type: Option<Seq<char>>,
    pub body: BodyView,
}

impl View for Response {
    type V = ResponseView;

    open spec fn view(&self) -> ResponseView {
        ResponseView {
            status: self.status,
            content_type: match self.content_type {
                Some(content_type) => Some(content_type@),
                None => None,
            },
            body: self.body@,
        }
    }
}

/// The text of the body sent when a post is absent or not published.
pub const POST_NOT_FOUND: &'static str = "Post no encontrado";

/// The response for a post that is absent or not published: 404 with the
/// fixed text, the same in both cases.
pub open spec fn post_not_found_view() -> ResponseView {
    ResponseView {
        status: Status::NotFound,
        content_type: None,
        body: BodyView::Text(POST_NOT_FOUND@),
    }
}

/// Builds the response for a post that is absent or not published.
pub fn post_not_found() -> (response: Response)
    ensures
        response@ == post_not_found_view(),
{
    Response {
        status: Status::NotFound,
        content_type: None,
        body: Body::Text(POST_NOT_FOUND.to_owned()),
    }
}

/// The response that carries a rendered page: 200 with the page as its text.
pub open spec fn page_view(html: Seq<char>) -> ResponseView {
    ResponseView { status: Status::Success, content_type: None, body: BodyView::Text(html) }
}

/// Builds the response that carries the rendered page `html`.
pub fn page(html: String) -> (response: Response)
    ensures
        response@ == page_view(html@),
{
    Response { status: Status::Success, content_type: None, body: Body::Text(html) }
}

/// The text of the body sent when a template could not be rendered.
pub const RENDER_FAILED: &'static str = "Internal Server Error";

/// The response for a page that could not be rendered: 500 with a fixed text.
pub open spec fn render_failed_view() -> ResponseView {
    ResponseView {
        status: Status::InternalServerError,
        content_type: None,
        body: BodyView::Text(RENDER_FAILED@),
    }
}

/// Builds the response for a page that could not be rendered.
pub fn render_failed() -> (response: Response)
    ensures
        response@ == render_failed_view(),
{
    Response {
        status: Status::InternalServerError,
        content_type: None,
        body: Body::Text(RENDER_FAILED.to_owned()),
    }
}

/// A static asset as its resolver found it: the bytes of the file and its
/// content type.
#[derive(Debug, PartialEq, Eq)]
pub struct Asset {
    pub bytes: Vec<u8>,
    pub content_type: String,
}

/// What an [`Asset`] holds.
pub struct AssetView {
    pub bytes: Seq<u8>,
    pub content_type: Seq<char>,
}

impl View for Asset {
    type V = AssetView;

    open spec fn view(&self) -> AssetView {
        AssetView { bytes: self.bytes@, content_type: self.content_type@ }
    }
}

/// What was resolved, with the asset taken by its view.
pub open spec fn resolved_view(resolved: Option<Asset>) -> Option<AssetView> {
    match resolved {
        Some(asset) => Some(asset@),
        None => None,
    }
}

/// The response to a request for a static asset: 200 with the bytes and the
/// content type of the asset as they were resolved, or 404 with an empty body
/// where there is no such asset.
pub open spec fn asset_view(resolved: Option<AssetView>) -> ResponseView {
    match resolved {
        Some(asset) => ResponseView {
            status: Status::Success,
            content_type: Some(asset.content_type),
            body: BodyView::Bytes(asset.bytes),
        },
        None => ResponseView {
            status: Status::NotFound,
            content_type: None,
            body: BodyView::Bytes(Seq::empty()),
        },
    }
}

} // verus!
