use vstd::prelude::*;

use crate::body::{BodyView, FetchBody};
use crate::header::{Headers, HeadersKind, HeaderView};
use crate::url::Url;

verus! {

#[derive(Clone, Copy, Debug, PartialEq, Eq, Structural)]
pub enum ResponseKind {
    Basic,
    Cors,
    Default,
    Error,
    Opaque,
    OpaqueRedirect,
}

/// Which of a response's parts the caller may see.
#[derive(Clone, Copy, Debug, PartialEq, Eq, Structural)]
pub enum ResponseTaint {
    Basic,
    Cors,
    Opaque,
}

/// A response, or a network error.
#[derive(Debug)]
pub struct Response {
    pub kind: ResponseKind,
    pub url: Option<Url>,
    pub status: Option<u16>,
    pub status_text: Option<String>,
    pub headers: Headers,
    pub body: FetchBody,
    pub redirected: bool,
    pub range_requested: bool,
}

/// The shape of every network error: nothing but its kind.
pub open spec fn is_network_error(r: Response) -> bool {
    &&& r.kind == ResponseKind::Error
    &&& r.url is None
    &&& r.status is None
    &&& r.status_text is None
    &&& r.headers@ == Seq::<HeaderView>::empty()
    &&& r.body@ == BodyView::Absent
    &&& !r.redirected
    &&& !r.range_requested
}

/// A response that stands for a failed fetch.
pub fn network_error() -> (r: Response)
    ensures
        is_network_error(r),
{
    Response {
        kind: ResponseKind::Error,
        url: None,
        status: None,
        status_text: None,
        headers: Headers::new(HeadersKind::Immutable),
        body: FetchBody::none(),
        redirected: false,
        range_requested: false,
    }
}

impl Response {
    /// A `200 OK` response of the given bytes, with no headers yet.
    pub fn new_from_bytes(bytes: Vec<u8>, url: Url) -> (r: Response)
        ensures
            r.kind == ResponseKind::Basic,
            r.url == Some(url),
            r.status == Some(200u16),
            r.status_text is Some && r.status_text->0@ == "OK"@,
            r.headers@ == Seq::<HeaderView>::empty(),
            r.headers.kind == HeadersKind::Immutable,
            r.body@ == BodyView::Bytes(bytes@),
            !r.redirected,
            !r.range_requested,
    {
        Response {
            kind: ResponseKind::Basic,
            url: Some(url),
            status: Some(200),
            status_text: Some("OK".to_owned()),
            headers: Headers::new(HeadersKind::Immutable),
            body: FetchBody::from_bytes(bytes),
            redirected: false,
            range_requested: false,
        }
    }

    pub fn is_error(&self) -> (r: bool)
        ensures
            r == (self.kind == ResponseKind::Error),
    {
        self.kind == ResponseKind::Error
    }
}

} // verus!
