//! The HTTP values the dispatcher works on: methods, content types, and
//! the response it produces, with their mathematical views.

use vstd::prelude::*;

verus! {

/// The methods the dispatcher distinguishes: the two read-only methods it
/// serves, and everything else, which the filter rejects.
#[derive(Clone, Copy, PartialEq, Eq, Structural, Debug)]
pub enum Method {
    Get,
    Head,
    Other,
}

/// Whether the method filter lets a request through to the dispatcher.
pub open spec fn method_allowed(m: Method) -> bool {
    m == Method::Get || m == Method::Head
}

/// Method filter: only GET and HEAD may reach the route dispatcher.
pub fn is_allowed_method(m: Method) -> (r: bool)
    ensures
        r == method_allowed(m),
{
    match m {
        Method::Get => true,
        Method::Head => true,
        Method::Other => false,
    }
}

/// The content types this service attaches to its responses.
#[derive(Clone, Copy, PartialEq, Eq, Structural, Debug)]
pub enum ContentType {
    Html,
    PlainText,
}

/// A response as this library describes it: the status code, the content
/// type, the `Allow` header when one is set, and the whole body.
pub struct Response {
    pub status: u16,
    pub content_type: ContentType,
    pub allow: Option<String>,
    pub body: String,
}

/// The mathematical view of a `Response`.
pub struct ResponseModel {
    pub status: int,
    pub content_type: ContentType,
    pub allow: Option<Seq<char>>,
    pub body: Seq<char>,
}

/// The text of an optional string.
pub open spec fn opt_text(o: Option<String>) -> Option<Seq<char>> {
    match o {
        Some(s) => Some(s@),
        None => None,
    }
}

impl View for Response {
    type V = ResponseModel;

    open spec fn view(&self) -> ResponseModel {
        ResponseModel {
            status: self.status as int,
            content_type: self.content_type,
            allow: opt_text(self.allow),
            body: self.body@,
        }
    }
}

} // verus!
