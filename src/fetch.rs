use vstd::prelude::*;

use crate::body::{BodyView, FetchBody};
use crate::header::{has_name, only_listed, strings_view, values_of, without_name, HeaderView, Headers, HeadersKind};
use crate::ports::{is_bad_port, is_blocked_port};
use crate::request::{Referrer, Request, RequestCache, RequestCredentials, RequestMode, RequestRedirect};
use crate::response::{is_network_error, network_error, Response, ResponseKind, ResponseTaint};
use crate::text::{concat2, decimal, push_decimal, str_equal, to_decimal};
use crate::url::{is_http_scheme, is_local_scheme, opt_view, Url, UrlView};

verus! {

/// Where main fetch sends a request.
#[derive(Clone, Copy, Debug, PartialEq, Eq, Structural)]
pub enum Route {
    /// The request fails with a network error.
    Refuse,
    /// A local scheme answers it.
    Local,
    /// HTTP fetch answers it, and its response is filtered by the taint.
    Http(ResponseTaint),
}

/// Where a request goes: same-origin requests to the network fail closed,
/// local schemes are answered locally, blocked ports and `no-cors` requests
/// that do not follow redirects are refused, and any other scheme fails.
pub open spec fn route_of(url: UrlView, mode: RequestMode, redirect: RequestRedirect) -> Route {
    if mode == RequestMode::SameOrigin && is_http_scheme(url.scheme) {
        Route::Refuse
    } else if is_local_scheme(url.scheme) {
        Route::Local
    } else if is_http_scheme(url.scheme) {
        if url.port is Some && is_blocked_port(url.port->0) {
            Route::Refuse
        } else if mode == RequestMode::NoCors {
            if redirect != RequestRedirect::Follow {
                Route::Refuse
            } else {
                Route::Http(ResponseTaint::Basic)
            }
        } else {
            Route::Http(ResponseTaint::Cors)
        }
    } else {
        Route::Refuse
    }
}

/// The first decision of main fetch.
pub fn route(request: &Request) -> (r: Route)
    ensures
        r == route_of(request.url@, request.mode, request.redirect),
{
    let http = request.url.is_http();
    if request.mode == RequestMode::SameOrigin && http {
        Route::Refuse
    } else if request.url.is_local() {
        Route::Local
    } else if http {
        if let Some(port) = request.url.port {
            if is_bad_port(port) {
                return Route::Refuse;
            }
        }
        if request.mode == RequestMode::NoCors {
            if request.redirect != RequestRedirect::Follow {
                Route::Refuse
            } else {
                Route::Http(ResponseTaint::Basic)
            }
        } else {
            Route::Http(ResponseTaint::Cors)
        }
    } else {
        Route::Refuse
    }
}

/// A request as handed to the transport.
#[derive(Debug)]
pub struct OutgoingRequest {
    pub method: String,
    pub url: Url,
    pub headers: Headers,
    pub body: FetchBody,
    /// Whether the request asks for a byte range.
    pub range_requested: bool,
}

/// The `Content-Length` that a request declares: the body's length, or zero
/// for a POST or PUT without a body.
pub open spec fn content_length_of(method: Seq<char>, body: BodyView) -> Option<nat> {
    match body {
        BodyView::Bytes(b) => Some(b.len()),
        BodyView::Absent => if method == "POST"@ || method == "PUT"@ {
            Some(0)
        } else {
            None
        },
        BodyView::Stream => None,
    }
}

pub open spec fn has_conditional(h: Seq<HeaderView>) -> bool {
    has_name(h, "if-modified-since"@) || has_name(h, "if-none-match"@) || has_name(h, "if-unmodified-since"@)
        || has_name(h, "if-match"@) || has_name(h, "if-range"@)
}

/// The cache mode of the request: a conditional request bypasses the cache.
pub open spec fn cache_after(cache: RequestCache, h: Seq<HeaderView>) -> RequestCache {
    if cache == RequestCache::Default && has_conditional(h) {
        RequestCache::NoStore
    } else {
        cache
    }
}

pub open spec fn push_if(h: Seq<HeaderView>, cond: bool, e: HeaderView) -> Seq<HeaderView> {
    if cond {
        h.push(e)
    } else {
        h
    }
}

pub open spec fn push_if_absent(h: Seq<HeaderView>, cond: bool, e: HeaderView) -> Seq<HeaderView> {
    push_if(h, cond && !has_name(h, e.0), e)
}

/// The `Host` value for a URL: its host, and its port if it is not the default.
pub open spec fn host_value(u: UrlView) -> Seq<char> {
    match u.port {
        Some(p) => u.host->0 + ":"@ + decimal(p as nat),
        None => u.host->0,
    }
}

/// The headers up to and including `User-Agent`.
pub open spec fn identity_headers(req: &Request, user_agent: Seq<char>) -> Seq<HeaderView> {
    let h0 = req.headers@;
    let h1 = match content_length_of(req.method@, req.body@) {
        Some(n) => h0.push(("content-length"@, decimal(n))),
        None => h0,
    };
    let h2 = match req.referrer {
        Referrer::Url(u) => h1.push(("referer"@, u@.href)),
        _ => h1,
    };
    push_if_absent(h2, true, ("user-agent"@, user_agent))
}

/// The headers that the transport is sent for `req`.
pub open spec fn network_headers(req: &Request, user_agent: Seq<char>) -> Seq<HeaderView> {
    let h3 = identity_headers(req, user_agent);
    let cache = cache_after(req.cache, h3);
    let h4 = push_if_absent(h3, cache == RequestCache::NoCache, ("cache-control"@, "max-age=0"@));
    let bypass = cache == RequestCache::NoStore || cache == RequestCache::Reload;
    let h5 = push_if_absent(h4, bypass, ("pragma"@, "no-cache"@));
    let h6 = push_if_absent(h5, bypass, ("cache-control"@, "no-cache"@));
    let h7 = push_if(h6, has_name(h6, "range"@), ("accept-encoding"@, "identity"@));
    push_if_absent(h7, req.url@.host is Some, ("host"@, host_value(req.url@)))
}

fn push_if_absent_exec(h: &mut Headers, cond: bool, name: &str, value: &str)
    ensures
        final(h)@ == push_if_absent(old(h)@, cond, (name@, value@)),
        final(h).kind == old(h).kind,
{
    if cond && !h.contains(name) {
        h.push_entry(name, value);
    }
}

fn host_value_exec(u: &Url) -> (r: String)
    requires
        u@.host is Some,
    ensures
        r@ == host_value(u@),
{
    let host = match &u.host {
        Some(h) => h.clone(),
        None => String::new(),
    };
    match u.port {
        Some(p) => {
            let mut s = concat2(host.as_str(), ":");
            push_decimal(&mut s, p as u64);
            s
        },
        None => host,
    }
}

/// Normalises the headers of a request for the transport; `None` where the
/// request may only be answered from a cache, which this pipeline does not
/// keep.
pub fn prepare_network_request(request: &Request, user_agent: &str) -> (r: Option<OutgoingRequest>)
    ensures
        r is None <==> cache_after(request.cache, identity_headers(request, user_agent@))
            == RequestCache::OnlyIfCached,
        r matches Some(out) ==> {
            &&& out.method@ == request.method@
            &&& out.url@ == request.url@
            &&& out.body@ == request.body@
            &&& out.headers@ == network_headers(request, user_agent@)
            &&& out.range_requested == has_name(out.headers@, "range"@)
        },
{
    let mut h = request.headers.copy();
    let len: Option<usize> = match request.body.len() {
        Some(n) => Some(n),
        None => if request.body.is_none() && (str_equal(request.method.as_str(), "POST") || str_equal(
            request.method.as_str(),
            "PUT",
        )) {
            Some(0)
        } else {
            None
        },
    };
    if let Some(n) = len {
        let v = to_decimal(n as u64);
        h.push_entry("content-length", v.as_str());
    }
    if let Referrer::Url(u) = &request.referrer {
        h.push_entry("referer", u.href.as_str());
    }
    push_if_absent_exec(&mut h, true, "user-agent", user_agent);
    assert(h@ == identity_headers(request, user_agent@));
    let conditional = h.contains("if-modified-since") || h.contains("if-none-match") || h.contains(
        "if-unmodified-since",
    ) || h.contains("if-match") || h.contains("if-range");
    let cache = if request.cache == RequestCache::Default && conditional {
        RequestCache::NoStore
    } else {
        request.cache
    };
    push_if_absent_exec(&mut h, cache == RequestCache::NoCache, "cache-control", "max-age=0");
    let bypass = cache == RequestCache::NoStore || cache == RequestCache::Reload;
    push_if_absent_exec(&mut h, bypass, "pragma", "no-cache");
    push_if_absent_exec(&mut h, bypass, "cache-control", "no-cache");
    if h.contains("range") {
        h.push_entry("accept-encoding", "identity");
    }
    if request.url.host.is_some() && !h.contains("host") {
        let v = host_value_exec(&request.url);
        h.push_entry("host", v.as_str());
    }
    if cache == RequestCache::OnlyIfCached {
        return None;
    }
    let range_requested = h.contains("range");
    Some(
        OutgoingRequest {
            method: request.method.clone(),
            url: request.url.copy(),
            headers: h,
            body: request.body.copy(),
            range_requested,
        },
    )
}

/// What the transport answered.
#[derive(Debug)]
pub struct IncomingResponse {
    pub status: u16,
    pub status_text: Option<String>,
    pub headers: Vec<(String, String)>,
    pub body: FetchBody,
}

/// What to do with the transport's answer.
#[derive(Debug)]
pub enum NetworkOutcome {
    Respond(Response),
    /// Send the request once more, as a retry.
    Retry,
}

/// The response made of what the transport answered to `request`.
pub open spec fn incoming_response(request: &Request, incoming: IncomingResponse, range_requested: bool, r: Response) -> bool {
    &&& r.kind == ResponseKind::Default
    &&& r.url is Some && r.url->0@ == request.url@
    &&& r.status == Some(incoming.status)
    &&& opt_view(r.status_text) == opt_view(incoming.status_text)
    &&& r.headers@ == crate::header::entries_view(incoming.headers@)
    &&& r.headers.kind == HeadersKind::Immutable
    &&& r.body == incoming.body
    &&& !r.redirected
    &&& r.range_requested == range_requested
}

/// Handles the transport's answer (`None` for a transport failure): a
/// failure, or a proxy asking for credentials that no window can give, is a
/// network error; a misdirected request whose body can be sent again is
/// retried once.
pub fn process_network_response(
    request: &Request,
    incoming: Option<IncomingResponse>,
    range_requested: bool,
    is_retry: bool,
) -> (r: NetworkOutcome)
    ensures
        match incoming {
            None => r matches NetworkOutcome::Respond(e) && is_network_error(e),
            Some(inc) => if inc.status == 407 && !request.client_window {
                r matches NetworkOutcome::Respond(e) && is_network_error(e)
            } else if inc.status == 421 && !is_retry && !(request.body@ is Stream) {
                r is Retry
            } else {
                r matches NetworkOutcome::Respond(resp) && incoming_response(request, inc, range_requested, resp)
            },
        },
{
    let inc = match incoming {
        Some(inc) => inc,
        None => return NetworkOutcome::Respond(network_error()),
    };
    if inc.status == 407 && !request.client_window {
        return NetworkOutcome::Respond(network_error());
    }
    if inc.status == 421 && !is_retry && request.body.is_not_stream() {
        return NetworkOutcome::Retry;
    }
    NetworkOutcome::Respond(
        Response {
            kind: ResponseKind::Default,
            url: Some(request.url.copy()),
            status: Some(inc.status),
            status_text: inc.status_text,
            headers: Headers::from_entries(inc.headers, HeadersKind::Immutable),
            body: inc.body,
            redirected: false,
            range_requested,
        },
    )
}

/// What HTTP fetch does with a response.
#[derive(Debug)]
pub enum HttpStep {
    /// The response is final; the flag tells an opaque redirect.
    Done(Response, bool),
    /// The response is a redirect to follow.
    Redirect(Response),
}

pub open spec fn is_redirect_status(status: Option<u16>) -> bool {
    status matches Some(s) && 300 <= s && s <= 399
}

/// A redirect is followed, refused or handed over as an opaque redirect, as
/// the request's redirect mode says; any other response is final.
pub fn http_fetch_step(request: &Request, response: Response) -> (r: HttpStep)
    ensures
        !is_redirect_status(response.status) ==> r == HttpStep::Done(response, false),
        is_redirect_status(response.status) && request.redirect == RequestRedirect::Follow ==> r
            == HttpStep::Redirect(response),
        is_redirect_status(response.status) && request.redirect == RequestRedirect::Error ==> (r matches HttpStep::Done(e, o)
            && is_network_error(e) && !o),
        is_redirect_status(response.status) && request.redirect == RequestRedirect::Manual ==> r
            == HttpStep::Done(response, true),
{
    let redirect = match response.status {
        Some(s) => 300 <= s && s <= 399,
        None => false,
    };
    if !redirect {
        return HttpStep::Done(response, false);
    }
    match request.redirect {
        RequestRedirect::Follow => HttpStep::Redirect(response),
        RequestRedirect::Error => HttpStep::Done(network_error(), false),
        RequestRedirect::Manual => HttpStep::Done(response, true),
    }
}

/// The response headers that a script never sees.
pub open spec fn strip_forbidden(h: Seq<HeaderView>) -> Seq<HeaderView> {
    without_name(without_name(h, "set-cookie"@), "set-cookie2"@)
}

/// Whether `Access-Control-Allow-Headers` has a value `*`.
pub open spec fn allows_all(h: Seq<HeaderView>) -> bool {
    exists|i: int|
        0 <= i < values_of(h, "access-control-allow-headers"@).len() && #[trigger] values_of(
            h,
            "access-control-allow-headers"@,
        )[i] == "*"@
}

/// The headers of a CORS response that the caller may see: all of them where
/// `*` is allowed and no credentials are included, else those that
/// `Access-Control-Allow-Headers` names.
pub open spec fn cors_exposed(h: Seq<HeaderView>, credentials: RequestCredentials) -> Seq<HeaderView> {
    if allows_all(h) && credentials != RequestCredentials::Include {
        h
    } else {
        only_listed(h, values_of(h, "access-control-allow-headers"@))
    }
}

/// Statuses whose responses carry no body.
pub open spec fn null_body_status(status: Option<u16>) -> bool {
    status == Some(101u16) || status == Some(103u16) || status == Some(204u16) || status == Some(205u16)
        || status == Some(304u16)
}

/// Whether the body of the response is dropped.
pub open spec fn drops_body(method: Seq<char>, status: Option<u16>) -> bool {
    method == "HEAD"@ || method == "CONNECT"@ || null_body_status(status)
}

/// What main fetch hands back for the response `resp` to `request`, after
/// `redirections` redirects, with the response taint and whether HTTP fetch
/// returned an opaque redirect.
pub open spec fn finished(
    request: &Request,
    resp: Response,
    taint: ResponseTaint,
    opaque_redirect: bool,
    redirections: u8,
    r: Response,
) -> bool {
    if redirections > 0 || resp.kind == ResponseKind::Error {
        r == Response { redirected: redirections > 0, ..resp }
    } else if !opaque_redirect && taint == ResponseTaint::Opaque && resp.status == Some(206u16)
        && resp.range_requested && !has_name(request.headers@, "range"@) {
        is_network_error(r)
    } else if opaque_redirect {
        &&& r.kind == ResponseKind::OpaqueRedirect
        &&& r.url is None
        &&& r.status is None
        &&& r.status_text is None
        &&& r.body@ == BodyView::Absent
        &&& r.headers@ == Seq::<HeaderView>::empty()
        &&& r.redirected == resp.redirected
        &&& r.range_requested == resp.range_requested
    } else if taint == ResponseTaint::Opaque {
        &&& r.kind == ResponseKind::Opaque
        &&& r.url is None
        &&& r.status is None
        &&& r.status_text is None
        &&& r.body@ == BodyView::Absent
        &&& r.headers@ == Seq::<HeaderView>::empty()
        &&& r.redirected == resp.redirected
        &&& r.range_requested == resp.range_requested
    } else {
        &&& r.kind == (if taint == ResponseTaint::Basic { ResponseKind::Basic } else { ResponseKind::Cors })
        &&& r.url is Some
        &&& r.url->0@ == (match resp.url {
            Some(u) => u@,
            None => request.url@,
        })
        &&& r.status == resp.status
        &&& opt_view(r.status_text) == opt_view(resp.status_text)
        &&& r.body@ == (if drops_body(request.method@, resp.status) { BodyView::Absent } else { resp.body@ })
        &&& r.headers@ == strip_forbidden(
            if taint == ResponseTaint::Basic {
                resp.headers@
            } else {
                cors_exposed(resp.headers@, request.credentials)
            },
        )
        &&& r.headers.kind == resp.headers.kind
        &&& r.redirected == resp.redirected
        &&& r.range_requested == resp.range_requested
    }
}

fn any_wildcard(values: &Vec<String>) -> (r: bool)
    ensures
        r == exists|i: int| 0 <= i < values@.len() && #[trigger] strings_view(values@)[i] == "*"@,
{
    let mut i: usize = 0;
    while i < values.len()
        invariant
            0 <= i <= values.len(),
            forall|j: int| 0 <= j < i ==> #[trigger] strings_view(values@)[j] != "*"@,
        decreases values.len() - i,
    {
        if str_equal(values[i].as_str(), "*") {
            assert(strings_view(values@)[i as int] == "*"@);
            return true;
        }
        i += 1;
    }
    false
}

/// The last steps of main fetch: a response of a redirect hop, or an error,
/// passes through; otherwise the response gets its URL, loses its body where
/// the method or status forbid one, and is filtered by its taint.
pub fn main_fetch_finish(
    request: &Request,
    response: Response,
    taint: ResponseTaint,
    opaque_redirect: bool,
    redirections: u8,
) -> (r: Response)
    ensures
        finished(request, response, taint, opaque_redirect, redirections, r),
{
    let ghost resp = response;
    let mut response = response;
    if redirections > 0 || response.kind == ResponseKind::Error {
        response.redirected = redirections > 0;
        return response;
    }
    if response.url.is_none() {
        response.url = Some(request.url.copy());
    }
    if !opaque_redirect && taint == ResponseTaint::Opaque && response.status == Some(206u16)
        && response.range_requested && !request.headers.contains("range") {
        return network_error();
    }
    let method = request.method.as_str();
    let null_status = response.status == Some(101u16) || response.status == Some(103u16) || response.status
        == Some(204u16) || response.status == Some(205u16) || response.status == Some(304u16);
    if !opaque_redirect && (str_equal(method, "HEAD") || str_equal(method, "CONNECT") || null_status) {
        response.body = FetchBody::none();
    }
    if opaque_redirect {
        response.kind = ResponseKind::OpaqueRedirect;
        response.url = None;
        response.status = None;
        response.status_text = None;
        response.body = FetchBody::none();
        response.headers.clear_entries();
        return response;
    }
    match taint {
        ResponseTaint::Basic => {
            response.kind = ResponseKind::Basic;
        },
        ResponseTaint::Cors => {
            response.kind = ResponseKind::Cors;
            let allowed = response.headers.get_all("access-control-allow-headers");
            let wildcard = any_wildcard(&allowed);
            proof {
                assert(strings_view(allowed@) == values_of(resp.headers@, "access-control-allow-headers"@));
            }
            if !(wildcard && request.credentials != RequestCredentials::Include) {
                response.headers.retain_listed(&allowed);
            }
        },
        ResponseTaint::Opaque => {
            response.kind = ResponseKind::Opaque;
            response.url = None;
            response.status = None;
            response.status_text = None;
            response.body = FetchBody::none();
            response.headers.clear_entries();
            return response;
        },
    }
    response.headers.remove_entries("set-cookie");
    response.headers.remove_entries("set-cookie2");
    response
}

/// A request to `http` or `https` whose port is on the blocked-port list is
/// refused, whatever its modes.
pub proof fn lemma_blocked_port_refused(url: UrlView, mode: RequestMode, redirect: RequestRedirect)
    requires
        is_http_scheme(url.scheme),
        url.port is Some,
        is_blocked_port(url.port->0),
    ensures
        route_of(url, mode, redirect) == Route::Refuse,
{
    reveal_strlit("http");
    reveal_strlit("https");
    reveal_strlit("about");
    reveal_strlit("blob");
    reveal_strlit("data");
    reveal_strlit("file");
    assert(url.scheme[0] == 'h');
    assert(!is_local_scheme(url.scheme));
}

} // verus!
