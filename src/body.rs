use vstd::prelude::*;

use vstd::string::*;
use vstd::utf8::encode_utf8;

use crate::header::{has_name, Headers};
use crate::scheme::Blob;

verus! {

/// Where a request body came from, which decides its default content type.
#[derive(Debug)]
pub enum FetchBodyKind {
    String,
    Blob(String),
    URLSearchParams,
}

pub open spec fn kind_content_type(k: FetchBodyKind) -> Seq<char> {
    match k {
        FetchBodyKind::String => "text/plain;charset=UTF-8"@,
        FetchBodyKind::Blob(mime) => mime@,
        FetchBodyKind::URLSearchParams => "application/x-www-form-urlencoded;charset=UTF-8"@,
    }
}

impl FetchBodyKind {
    /// The content type that a body of this kind is sent with.
    pub fn content_type(&self) -> (r: String)
        ensures
            r@ == kind_content_type(*self),
    {
        match self {
            FetchBodyKind::String => "text/plain;charset=UTF-8".to_owned(),
            FetchBodyKind::Blob(mime) => mime.clone(),
            FetchBodyKind::URLSearchParams => "application/x-www-form-urlencoded;charset=UTF-8".to_owned(),
        }
    }

    pub fn copy(&self) -> (r: FetchBodyKind)
        ensures
            kind_content_type(r) == kind_content_type(*self),
    {
        match self {
            FetchBodyKind::String => FetchBodyKind::String,
            FetchBodyKind::Blob(mime) => FetchBodyKind::Blob(mime.clone()),
            FetchBodyKind::URLSearchParams => FetchBodyKind::URLSearchParams,
        }
    }
}

/// The payload of a request or a response.
#[derive(Debug)]
pub enum FetchBodyInner {
    /// No body at all.
    Absent,
    /// Bytes held in full, of known length.
    Bytes(Vec<u8>),
    /// An incoming stream held by the host, of unknown length.
    Stream,
}

/// A body and where it came from.
#[derive(Debug)]
pub struct FetchBody {
    pub body: FetchBodyInner,
    pub kind: Option<FetchBodyKind>,
}

/// A body, in contracts.
pub enum BodyView {
    Absent,
    Bytes(Seq<u8>),
    Stream,
}

impl View for FetchBody {
    type V = BodyView;

    open spec fn view(&self) -> BodyView {
        match self.body {
            FetchBodyInner::Absent => BodyView::Absent,
            FetchBodyInner::Bytes(b) => BodyView::Bytes(b@),
            FetchBodyInner::Stream => BodyView::Stream,
        }
    }
}

/// The known length of a body: none for an absent body or a stream.
pub open spec fn body_len(b: BodyView) -> Option<nat> {
    match b {
        BodyView::Bytes(bytes) => Some(bytes.len()),
        _ => None,
    }
}

/// Whether `add_content_type_header` adds a line to `headers`.
pub open spec fn adds_content_type(body: &FetchBody, headers: &Headers) -> bool {
    &&& body.kind is Some
    &&& headers.kind != crate::header::HeadersKind::Immutable
    &&& !has_name(headers@, "content-type"@)
}

impl FetchBody {
    /// An absent body.
    pub fn none() -> (r: FetchBody)
        ensures
            r@ == BodyView::Absent,
            r.kind is None,
    {
        FetchBody { body: FetchBodyInner::Absent, kind: None }
    }

    /// A body of the given bytes.
    pub fn from_bytes(bytes: Vec<u8>) -> (r: FetchBody)
        ensures
            r@ == BodyView::Bytes(bytes@),
            r.kind is None,
    {
        FetchBody { body: FetchBodyInner::Bytes(bytes), kind: None }
    }

    pub fn is_none(&self) -> (r: bool)
        ensures
            r == (self@ is Absent),
    {
        matches!(self.body, FetchBodyInner::Absent)
    }

    /// Whether the body holds no bytes; an absent body is empty.
    pub fn is_empty(&self) -> (r: bool)
        ensures
            r == (self@ is Absent || (self@ is Bytes && self@->Bytes_0.len() == 0)),
    {
        match &self.body {
            FetchBodyInner::Absent => true,
            FetchBodyInner::Bytes(bytes) => bytes.len() == 0,
            FetchBodyInner::Stream => false,
        }
    }

    pub fn len(&self) -> (r: Option<usize>)
        ensures
            r is Some <==> body_len(self@) is Some,
            r is Some ==> r->0 as nat == body_len(self@)->0,
    {
        match &self.body {
            FetchBodyInner::Bytes(bytes) => Some(bytes.len()),
            _ => None,
        }
    }

    pub fn is_stream(&self) -> (r: bool)
        ensures
            r == (self@ is Stream),
    {
        matches!(self.body, FetchBodyInner::Stream)
    }

    pub fn is_not_stream(&self) -> (r: bool)
        ensures
            r == !(self@ is Stream),
    {
        !self.is_stream()
    }

    /// A copy of the body; a stream is not copied but stays a stream.
    pub fn copy(&self) -> (r: FetchBody)
        ensures
            r@ == self@,
    {
        let body = match &self.body {
            FetchBodyInner::Absent => FetchBodyInner::Absent,
            FetchBodyInner::Bytes(bytes) => FetchBodyInner::Bytes(bytes.clone()),
            FetchBodyInner::Stream => FetchBodyInner::Stream,
        };
        let kind = match &self.kind {
            Some(k) => Some(k.copy()),
            None => None,
        };
        FetchBody { body, kind }
    }

    /// Adds `Content-Type` from the body's kind, unless one is present or the
    /// store is immutable.
    pub fn add_content_type_header(&self, headers: &mut Headers)
        ensures
            final(headers).kind == old(headers).kind,
            adds_content_type(self, old(headers)) ==> final(headers)@
                == old(headers)@.push(("content-type"@, kind_content_type(self.kind->0))),
            !adds_content_type(self, old(headers)) ==> final(headers)@ == old(headers)@,
    {
        if headers.kind == crate::header::HeadersKind::Immutable {
            return;
        }
        if let Some(kind) = &self.kind {
            if !headers.contains("content-type") {
                let ct = kind.content_type();
                headers.push_entry("content-type", ct.as_str());
            }
        }
    }
}

/// The `application/x-www-form-urlencoded` serialisation of name-value pairs,
/// as `form_urlencoded` writes it.
pub uninterp spec fn urlencoded(pairs: Seq<(Seq<char>, Seq<char>)>) -> Seq<char>;

pub open spec fn pairs_view(pairs: Seq<(String, String)>) -> Seq<(Seq<char>, Seq<char>)> {
    pairs.map_values(|p: (String, String)| (p.0@, p.1@))
}

/// Relies on `form_urlencoded::Serializer`: `extend_pairs` then `finish`.
#[verifier::external_body]
fn serialize_pairs(pairs: &Vec<(String, String)>) -> (r: String)
    ensures
        r@ == urlencoded(pairs_view(pairs@)),
{
    form_urlencoded::Serializer::new(String::new()).extend_pairs(pairs.iter()).finish()
}

/// What a script hands over as a body.
#[derive(Debug)]
pub enum BodySource {
    String(String),
    /// The bytes of an array buffer or a view on one.
    Buffer(Vec<u8>),
    Blob(Blob),
    /// The pairs of a `URLSearchParams`.
    SearchParams(Vec<(String, String)>),
    /// Anything else.
    Other,
}

/// The error of a value that cannot be a body.
#[derive(Clone, Copy, Debug, PartialEq, Eq, Structural)]
pub enum BodyError {
    ExpectedValidBody,
}

/// The body that a source makes.
pub open spec fn body_from(source: BodySource, r: Result<FetchBody, BodyError>) -> bool {
    match source {
        BodySource::String(text) => r matches Ok(b) && b@ == BodyView::Bytes(encode_utf8(text@))
            && b.kind matches Some(FetchBodyKind::String),
        BodySource::Buffer(bytes) => r matches Ok(b) && b@ == BodyView::Bytes(bytes@) && b.kind is None,
        BodySource::Blob(blob) => r matches Ok(b) && b@ == BodyView::Bytes(blob.bytes@) && match blob.kind {
            Some(mime) => b.kind matches Some(FetchBodyKind::Blob(m)) && m@ == mime@,
            None => b.kind is None,
        },
        BodySource::SearchParams(pairs) => r matches Ok(b) && b@ == BodyView::Bytes(encode_utf8(urlencoded(pairs_view(pairs@)))) && b.kind matches Some(FetchBodyKind::URLSearchParams),
        BodySource::Other => r == Err::<FetchBody, BodyError>(BodyError::ExpectedValidBody),
    }
}

impl FetchBody {
    /// The body made of what a script handed over.
    pub fn from_source(source: BodySource) -> (r: Result<FetchBody, BodyError>)
        ensures
            body_from(source, r),
    {
        match source {
            BodySource::String(text) => {
                let bytes = text.as_str().as_bytes_vec();
                Ok(FetchBody { body: FetchBodyInner::Bytes(bytes), kind: Some(FetchBodyKind::String) })
            },
            BodySource::Buffer(bytes) => Ok(FetchBody { body: FetchBodyInner::Bytes(bytes), kind: None }),
            BodySource::Blob(blob) => {
                let kind = match blob.kind {
                    Some(mime) => Some(FetchBodyKind::Blob(mime)),
                    None => None,
                };
                Ok(FetchBody { body: FetchBodyInner::Bytes(blob.bytes), kind })
            },
            BodySource::SearchParams(pairs) => {
                let text = serialize_pairs(&pairs);
                let bytes = text.as_str().as_bytes_vec();
                Ok(FetchBody { body: FetchBodyInner::Bytes(bytes), kind: Some(FetchBodyKind::URLSearchParams) })
            },
            BodySource::Other => Err(BodyError::ExpectedValidBody),
        }
    }
}

} // verus!
