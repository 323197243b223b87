use vstd::prelude::*;

use crate::body::BodyView;
use crate::header::{HeaderView, Headers, HeadersKind};
use crate::range::{get_ranged_bytes, ranged_result, RangedBytes};
use crate::request::Request;
use crate::response::{is_network_error, network_error, Response, ResponseKind};
use crate::text::{concat2, decimal, str_equal, to_decimal};
use crate::url::Url;

verus! {

/// What the `data-url` crate makes of a URL: the decoded body, and the type
/// and subtype of the embedded MIME type; `None` where the URL is no valid
/// `data:` URL or its body does not decode.
pub uninterp spec fn data_url_decoded(url: Seq<char>) -> Option<(Seq<u8>, Seq<char>, Seq<char>)>;

/// Relies on `data_url::DataUrl`: `process` to parse the URL, `decode_to_vec`
/// to decode its body, and `mime_type` for its type and subtype.
#[verifier::external_body]
fn decode_data_url(url: &str) -> (r: Option<(Vec<u8>, String, String)>)
    ensures
        match r {
            Some(p) => data_url_decoded(url@) == Some((p.0@, p.1@, p.2@)),
            None => data_url_decoded(url@) is None,
        },
{
    let data_url = data_url::DataUrl::process(url).ok()?;
    let (body, _) = data_url.decode_to_vec().ok()?;
    let mime = data_url.mime_type();
    Some((body, mime.type_.clone(), mime.subtype.clone()))
}

/// A blob of the in-process blob store.
#[derive(Debug)]
pub struct Blob {
    pub bytes: Vec<u8>,
    /// Its MIME type, if it has one.
    pub kind: Option<String>,
}

/// What a local scheme needs next.
#[derive(Debug)]
pub enum SchemeAction {
    /// The response is ready.
    Respond(Response),
    /// The host reads the file that the URL names and calls `file_fetch`.
    ReadFile,
    /// The host looks the URL's blob up and calls `blob_fetch`.
    LookupBlob,
}

/// Whether a character may stand in a header value.
pub open spec fn header_value_char(c: char) -> bool {
    c == '\t' || ((c as u32) >= 32 && (c as u32) != 127)
}

pub open spec fn valid_header_value(s: Seq<char>) -> bool {
    forall|i: int| 0 <= i < s.len() ==> header_value_char(#[trigger] s[i])
}

/// Whether `s` can be sent as a header value.
pub fn is_valid_header_value(s: &str) -> (r: bool)
    ensures
        r == valid_header_value(s@),
{
    let n = s.unicode_len();
    let mut i: usize = 0;
    while i < n
        invariant
            n == s@.len(),
            0 <= i <= n,
            forall|j: int| 0 <= j < i ==> header_value_char(#[trigger] s@[j]),
        decreases n - i,
    {
        let c = s.get_char(i);
        if !(c == '\t' || ((c as u32) >= 32 && (c as u32) != 127)) {
            assert(!header_value_char(s@[i as int]));
            return false;
        }
        i += 1;
    }
    true
}

/// An empty HTML page, at `url`.
pub open spec fn about_blank_result(url: Url, r: Response) -> bool {
    &&& r.kind == ResponseKind::Basic
    &&& r.status == Some(200u16)
    &&& r.url is Some && r.url->0@ == url@
    &&& r.headers@ == seq![("content-type"@, "text/html;charset=UTF-8"@)]
    &&& r.headers.kind == HeadersKind::Immutable
    &&& r.body@ == BodyView::Bytes(Seq::empty())
}

/// What a `data:` URL gives: its decoded body, typed by its MIME type, or a
/// network error where it does not decode.
pub open spec fn data_result(url: Url, r: Response) -> bool {
    match data_url_decoded(url@.href) {
        None => is_network_error(r),
        Some(p) => {
            &&& r.kind == ResponseKind::Basic
            &&& r.status == Some(200u16)
            &&& r.url is Some && r.url->0@ == url@
            &&& r.headers@ == seq![("content-type"@, p.1 + "/"@ + p.2)]
            &&& r.headers.kind == HeadersKind::Immutable
            &&& r.body@ == BodyView::Bytes(p.0)
        },
    }
}

/// The answer to `about:blank`: an empty HTML page.
pub fn about_blank_fetch(url: Url) -> (r: Response)
    ensures
        about_blank_result(url, r),
{
    let mut response = Response::new_from_bytes(Vec::new(), url);
    response.headers.push_entry("content-type", "text/html;charset=UTF-8");
    response
}

/// The answer to a `data:` URL: its decoded body, typed by its MIME type.
pub fn data_fetch(url: Url) -> (r: Response)
    ensures
        data_result(url, r),
{
    let (body, type_, subtype) = match decode_data_url(url.href.as_str()) {
        Some(p) => p,
        None => return network_error(),
    };
    let with_slash = concat2(type_.as_str(), "/");
    let mime = concat2(with_slash.as_str(), subtype.as_str());
    let mut response = Response::new_from_bytes(body, url);
    response.headers.push_entry("content-type", mime.as_str());
    response
}

/// The response for a body served from a local source, cut to the
/// requested range.
pub open spec fn ranged_response(
    r: Response,
    url: Url,
    first: Seq<HeaderView>,
    rb: RangedBytes,
) -> bool {
    &&& r.kind == ResponseKind::Basic
    &&& r.url is Some && r.url->0@ == url@
    &&& r.status == Some(rb.status)
    &&& r.status_text is Some
    &&& r.status_text->0@ == (if rb.status == 206 { "Partial Content"@ } else { "OK"@ })
    &&& !r.redirected
    &&& r.range_requested == rb.range_requested
    &&& r.body@ == BodyView::Bytes(rb.bytes@)
    &&& r.headers.kind == HeadersKind::Immutable
    &&& r.headers@ == first + (match rb.content_range {
        Some(cr) => seq![("content-range"@, cr@)],
        None => Seq::empty(),
    }) + seq![("content-length"@, decimal(rb.bytes@.len()))]
}

/// What a local body of `bytes` gives for a request with headers `h`.
pub open spec fn local_result(h: Seq<HeaderView>, bytes: Seq<u8>, url: Url, first: Seq<HeaderView>, r: Response) -> bool {
    exists|rb: Option<RangedBytes>| #[trigger] ranged_result(h, bytes, rb) && match rb {
        None => is_network_error(r),
        Some(rb) => ranged_response(r, url, first, rb),
    }
}

/// What a `file:` URL gives, from the file's contents (`None` where the file
/// could not be read): only a GET reads it, cut to the requested range.
pub open spec fn file_result(request: &Request, url: Url, contents: Option<Vec<u8>>, r: Response) -> bool {
    if request.method@ != "GET"@ {
        is_network_error(r)
    } else {
        match contents {
            None => is_network_error(r),
            Some(bytes) => local_result(request.headers@, bytes@, url, Seq::empty(), r),
        }
    }
}

/// What a `blob:` URL gives, from what the blob store holds for it: only a
/// GET reads it, typed by the blob's type, cut to the requested range.
pub open spec fn blob_result(request: &Request, url: Url, blob: Option<Blob>, r: Response) -> bool {
    if request.method@ != "GET"@ {
        is_network_error(r)
    } else {
        match blob {
            None => is_network_error(r),
            Some(b) => {
                let kind = match b.kind {
                    Some(k) => k@,
                    None => Seq::empty(),
                };
                if !valid_header_value(kind) {
                    is_network_error(r)
                } else {
                    local_result(request.headers@, b.bytes@, url, seq![("content-type"@, kind)], r)
                }
            },
        }
    }
}

fn respond_ranged(url: Url, first: Headers, rb: RangedBytes) -> (r: Response)
    ensures
        ranged_response(r, url, first@, rb),
{
    let ghost first_view = first@;
    let mut headers = Headers::from_entries(first.entries, HeadersKind::Immutable);
    match &rb.content_range {
        Some(cr) => headers.push_entry("content-range", cr.as_str()),
        None => {},
    }
    let length = to_decimal(rb.bytes.len() as u64);
    headers.push_entry("content-length", length.as_str());
    let status = rb.status;
    let range_requested = rb.range_requested;
    let mut response = Response::new_from_bytes(rb.bytes, url);
    response.status = Some(status);
    if status == 206 {
        response.status_text = Some("Partial Content".to_owned());
    }
    response.range_requested = range_requested;
    response.headers = headers;
    proof {
        let middle = match rb.content_range {
            Some(cr) => seq![("content-range"@, cr@)],
            None => Seq::<HeaderView>::empty(),
        };
        assert(response.headers@ =~= first_view + middle + seq![("content-length"@, decimal(rb.bytes@.len()))]);
    }
    response
}

/// The answer to a `file:` URL, given the file's contents (`None` where the
/// file could not be read).
pub fn file_fetch(request: &Request, url: Url, contents: Option<Vec<u8>>) -> (r: Response)
    ensures
        file_result(request, url, contents, r),
{
    if !str_equal(request.method.as_str(), "GET") {
        return network_error();
    }
    let bytes = match contents {
        Some(bytes) => bytes,
        None => return network_error(),
    };
    let ghost b = bytes@;
    let rb = get_ranged_bytes(&request.headers, bytes);
    let r = match rb {
        None => network_error(),
        Some(rb) => {
            respond_ranged(url, Headers::new(HeadersKind::Immutable), rb)
        },
    };
    assert(ranged_result(request.headers@, b, rb));
    r
}

/// The answer to a `blob:` URL, given what the blob store holds for it.
pub fn blob_fetch(request: &Request, url: Url, blob: Option<Blob>) -> (r: Response)
    ensures
        blob_result(request, url, blob, r),
{
    if !str_equal(request.method.as_str(), "GET") {
        return network_error();
    }
    let blob = match blob {
        Some(blob) => blob,
        None => return network_error(),
    };
    let kind = match &blob.kind {
        Some(k) => k.clone(),
        None => String::new(),
    };
    if !is_valid_header_value(kind.as_str()) {
        return network_error();
    }
    let mut first = Headers::new(HeadersKind::Immutable);
    first.push_entry("content-type", kind.as_str());
    let ghost b = blob.bytes@;
    let rb = get_ranged_bytes(&request.headers, blob.bytes);
    let r = match rb {
        None => network_error(),
        Some(rb) => respond_ranged(url, first, rb),
    };
    assert(ranged_result(request.headers@, b, rb));
    r
}

pub open spec fn scheme_result(request: &Request, r: SchemeAction) -> bool {
    let scheme = request.url@.scheme;
    let get = request.method@ == "GET"@;
    if scheme == "about"@ {
        r matches SchemeAction::Respond(resp) && (if request.url@.path == "blank"@ {
            about_blank_result(request.url, resp)
        } else {
            is_network_error(resp)
        })
    } else if scheme == "data"@ {
        r matches SchemeAction::Respond(resp) && data_result(request.url, resp)
    } else if (scheme == "file"@ || scheme == "blob"@) && !get {
        r matches SchemeAction::Respond(resp) && is_network_error(resp)
    } else if scheme == "file"@ {
        r is ReadFile
    } else if scheme == "blob"@ {
        r is LookupBlob
    } else {
        r matches SchemeAction::Respond(resp) && is_network_error(resp)
    }
}

/// What a request to a local scheme needs: `about:blank` and `data:` are
/// answered at once, `file:` and `blob:` take a GET and wait for the host;
/// anything else is a network error.
pub fn scheme_fetch(request: &Request) -> (r: SchemeAction)
    ensures
        scheme_result(request, r),
{
    let scheme = request.url.scheme.as_str();
    if str_equal(scheme, "about") {
        if str_equal(request.url.path.as_str(), "blank") {
            SchemeAction::Respond(about_blank_fetch(request.url.copy()))
        } else {
            SchemeAction::Respond(network_error())
        }
    } else if str_equal(scheme, "data") {
        SchemeAction::Respond(data_fetch(request.url.copy()))
    } else if str_equal(scheme, "file") || str_equal(scheme, "blob") {
        if !str_equal(request.method.as_str(), "GET") {
            SchemeAction::Respond(network_error())
        } else if str_equal(scheme, "file") {
            SchemeAction::ReadFile
        } else {
            SchemeAction::LookupBlob
        }
    } else {
        SchemeAction::Respond(network_error())
    }
}

} // verus!
