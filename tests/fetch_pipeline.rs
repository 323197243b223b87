use spiderfire_runtime::body::{FetchBody, FetchBodyInner, FetchBodyKind};
use spiderfire_runtime::fetch::{
    http_fetch_step, main_fetch_finish, prepare_network_request, process_network_response, route, HttpStep,
    IncomingResponse, NetworkOutcome, Route,
};
use spiderfire_runtime::header::{Headers, HeadersError, HeadersKind};
use spiderfire_runtime::pipeline::{accept_language, settle_fetch, start_fetch, FetchAction, FetchError, FetchRace, FetchTask};
use spiderfire_runtime::ports::is_bad_port;
use spiderfire_runtime::redirect::{http_redirect_fetch, redirect_location, Location, RedirectOutcome};
use spiderfire_runtime::request::{
    Referrer, ReferrerPolicy, Request, RequestCache, RequestCredentials, RequestMode, RequestRedirect,
};
use spiderfire_runtime::response::{network_error, Response, ResponseKind, ResponseTaint};
use spiderfire_runtime::scheme::{data_fetch, file_fetch, Blob};
use spiderfire_runtime::url::Url;

fn url(href: &str, scheme: &str, host: Option<&str>, port: Option<u16>, path: &str) -> Url {
    Url {
        href: href.to_string(),
        scheme: scheme.to_string(),
        username: String::new(),
        password: None,
        host: host.map(|h| h.to_string()),
        port,
        path: path.to_string(),
        query: None,
        fragment: None,
    }
}

fn request(method: &str, target: Url) -> Request {
    Request {
        method: method.to_string(),
        url: target,
        headers: Headers::new(HeadersKind::Mutable),
        body: FetchBody::none(),
        mode: RequestMode::Cors,
        credentials: RequestCredentials::SameOrigin,
        cache: RequestCache::Default,
        redirect: RequestRedirect::Follow,
        referrer: Referrer::Client,
        referrer_policy: ReferrerPolicy::Unset,
        client_window: false,
        locations: Vec::new(),
    }
}

fn http_url(path: &str) -> Url {
    url(&format!("http://example.com{}", path), "http", Some("example.com"), None, path)
}

fn header_list(h: &Headers) -> Vec<(String, String)> {
    h.entries.clone()
}

fn respond(action: FetchAction) -> Response {
    match action {
        FetchAction::Respond(r) => r,
        other => panic!("expected a response, got {:?}", other),
    }
}

fn incoming(status: u16, headers: &[(&str, &str)]) -> IncomingResponse {
    IncomingResponse {
        status,
        status_text: None,
        headers: headers.iter().map(|(n, v)| (n.to_string(), v.to_string())).collect(),
        body: FetchBody::from_bytes(b"payload".to_vec()),
    }
}

#[test]
fn about_blank_is_an_empty_html_page() {
    let req = request("GET", url("about:blank", "about", None, None, "blank"));
    let mut task = FetchTask::new(req, "agent".to_string());
    let resp = respond(task.main_fetch());
    assert_eq!(resp.kind, ResponseKind::Basic);
    assert_eq!(resp.status, Some(200));
    assert_eq!(header_list(&resp.headers), vec![("content-type".to_string(), "text/html;charset=UTF-8".to_string())]);
    assert!(resp.body.is_empty());
}

#[test]
fn about_other_path_is_a_network_error() {
    let req = request("GET", url("about:srcdoc", "about", None, None, "srcdoc"));
    let mut task = FetchTask::new(req, "agent".to_string());
    assert!(respond(task.main_fetch()).is_error());
}

#[test]
fn data_url_decodes_base64_payload() {
    let resp = data_fetch(url("data:text/plain;base64,aGVsbG8=", "data", None, None, "text/plain;base64,aGVsbG8="));
    assert_eq!(resp.status, Some(200));
    match &resp.body.body {
        FetchBodyInner::Bytes(b) => assert_eq!(b, b"hello"),
        _ => panic!("no body"),
    }
    assert_eq!(header_list(&resp.headers), vec![("content-type".to_string(), "text/plain".to_string())]);
}

#[test]
fn data_url_percent_payload() {
    let resp = data_fetch(url("data:application/json,%7B%7D", "data", None, None, "application/json,%7B%7D"));
    match &resp.body.body {
        FetchBodyInner::Bytes(b) => assert_eq!(b, b"{}"),
        _ => panic!("no body"),
    }
    assert_eq!(resp.headers.get_all("Content-Type"), vec!["application/json".to_string()]);
}

#[test]
fn data_url_without_comma_fails() {
    let resp = data_fetch(url("data:text/plain", "data", None, None, "text/plain"));
    assert!(resp.is_error());
}

#[test]
fn twenty_first_redirect_is_refused() {
    let req = request("GET", http_url("/a"));
    let mut task = FetchTask::new(req, "agent".to_string());
    let first = task.main_fetch();
    assert!(matches!(first, FetchAction::Send(_)));
    task.redirections = 20;
    let resp = respond(task.on_transport(Some(incoming(302, &[("location", "/next")]))));
    assert!(resp.is_error());
}

#[test]
fn redirect_below_cap_is_followed() {
    let req = request("GET", http_url("/a"));
    let mut task = FetchTask::new(req, "agent".to_string());
    task.main_fetch();
    task.redirections = 19;
    let action = task.on_transport(Some(incoming(301, &[("location", "/b?q=1#frag")])));
    match action {
        FetchAction::Send(out) => assert_eq!(out.url.href, "http://example.com/b?q=1#frag"),
        other => panic!("expected a request, got {:?}", other),
    }
    assert_eq!(task.redirections, 20);
    assert_eq!(task.request.url.path, "/b");
    assert_eq!(task.request.url.query.as_deref(), Some("q=1"));
    assert_eq!(task.request.locations.len(), 1);
    let resp = respond(task.on_transport(Some(incoming(200, &[("set-cookie", "a=b"), ("x", "1")]))));
    assert!(resp.redirected);
    assert_eq!(resp.kind, ResponseKind::Cors);
    assert_eq!(resp.headers.len(), 0);
}

#[test]
fn redirect_to_other_scheme_is_refused() {
    let req = request("GET", http_url("/a"));
    let mut task = FetchTask::new(req, "agent".to_string());
    task.main_fetch();
    let resp = respond(task.on_transport(Some(incoming(302, &[("location", "ftp://example.com/x")]))));
    assert!(resp.is_error());
}

#[test]
fn parses_relative_urls() {
    let base = http_url("/dir/page");
    let u = spiderfire_runtime::url::parse_url("../other?x#y", Some(&base)).unwrap();
    assert_eq!(u.href, "http://example.com/other?x#y");
    assert_eq!(u.fragment.as_deref(), Some("y"));
    assert!(spiderfire_runtime::url::parse_url("not a url", None).is_none());
    let u = spiderfire_runtime::url::parse_url("https://me:pw@host:8443/p", None).unwrap();
    assert_eq!((u.username.as_str(), u.password.as_deref(), u.port), ("me", Some("pw"), Some(8443)));
}

#[test]
fn post_redirected_by_found_becomes_get() {
    let mut req = request("POST", http_url("/form"));
    req.body = FetchBody::from_bytes(b"a=1".to_vec());
    for (n, v) in [
        ("Content-Type", "text/plain"),
        ("Content-Encoding", "gzip"),
        ("Content-Language", "en"),
        ("Content-Location", "/x"),
        ("X-Kept", "yes"),
    ] {
        req.headers.append(n, v).unwrap();
    }
    let mut resp = network_error();
    resp.kind = ResponseKind::Default;
    resp.status = Some(302);
    resp.url = Some(http_url("/form"));
    let outcome = http_redirect_fetch(&mut req, &resp, Some(http_url("/done")), ResponseTaint::Cors, 0);
    assert!(matches!(outcome, RedirectOutcome::Follow));
    assert_eq!(req.method, "GET");
    assert!(req.body.is_none());
    assert_eq!(header_list(&req.headers), vec![("X-Kept".to_string(), "yes".to_string())]);
    assert_eq!(req.url.path, "/done");
}

#[test]
fn see_other_keeps_get() {
    let mut req = request("GET", http_url("/a"));
    req.headers.append("Content-Type", "text/plain").unwrap();
    let mut resp = network_error();
    resp.status = Some(303);
    let outcome = http_redirect_fetch(&mut req, &resp, Some(http_url("/b")), ResponseTaint::Basic, 0);
    assert!(matches!(outcome, RedirectOutcome::Follow));
    assert_eq!(req.headers.len(), 1);
}

#[test]
fn redirect_carries_fragment_and_policy() {
    let mut req = request("GET", http_url("/a"));
    let mut resp = network_error();
    resp.status = Some(301);
    let mut prior = http_url("/a");
    prior.fragment = Some("top".to_string());
    resp.url = Some(prior);
    resp.headers = Headers::from_entries(
        vec![
            ("Referrer-Policy".to_string(), "origin".to_string()),
            ("Referrer-Policy".to_string(), "bogus".to_string()),
            ("Referrer-Policy".to_string(), "".to_string()),
        ],
        HeadersKind::Immutable,
    );
    let outcome = http_redirect_fetch(&mut req, &resp, Some(http_url("/b")), ResponseTaint::Basic, 0);
    assert!(matches!(outcome, RedirectOutcome::Follow));
    assert_eq!(req.url.fragment.as_deref(), Some("top"));
    assert_eq!(req.url.href, "http://example.com/b#top");
    assert_eq!(req.referrer_policy, ReferrerPolicy::Origin);
}

#[test]
fn redirect_refusals() {
    let mut resp = network_error();
    resp.status = Some(302);
    let mut req = request("GET", http_url("/a"));
    let ftp = url("ftp://example.com/", "ftp", Some("example.com"), None, "/");
    assert!(matches!(http_redirect_fetch(&mut req, &resp, Some(ftp), ResponseTaint::Basic, 0), RedirectOutcome::Refused(_)));
    assert!(matches!(http_redirect_fetch(&mut req, &resp, None, ResponseTaint::Basic, 0), RedirectOutcome::Refused(_)));
    let mut with_user = http_url("/b");
    with_user.username = "me".to_string();
    assert!(matches!(
        http_redirect_fetch(&mut req, &resp, Some(with_user), ResponseTaint::Cors, 0),
        RedirectOutcome::Refused(_)
    ));
    req.body = FetchBody { body: FetchBodyInner::Stream, kind: None };
    assert!(matches!(
        http_redirect_fetch(&mut req, &resp, Some(http_url("/b")), ResponseTaint::Basic, 0),
        RedirectOutcome::Refused(_)
    ));
    assert_eq!(req.url.path, "/a");
}

#[test]
fn location_header_count() {
    let mut resp = network_error();
    assert!(matches!(redirect_location(&resp), Location::Absent));
    resp.headers = Headers::from_entries(vec![("Location".to_string(), "/x".to_string())], HeadersKind::Immutable);
    assert!(matches!(redirect_location(&resp), Location::One(ref v) if v == "/x"));
    resp.headers = Headers::from_entries(
        vec![("Location".to_string(), "/x".to_string()), ("location".to_string(), "/y".to_string())],
        HeadersKind::Immutable,
    );
    assert!(matches!(redirect_location(&resp), Location::Ambiguous));
}

#[test]
fn blocked_port_is_a_network_error() {
    for port in [1u16, 25, 6667, 10080] {
        let req = request("GET", url("http://example.com/", "http", Some("example.com"), Some(port), "/"));
        assert_eq!(route(&req), Route::Refuse);
        let mut task = FetchTask::new(req, "agent".to_string());
        assert!(respond(task.main_fetch()).is_error());
    }
    assert!(is_bad_port(10080));
    assert!(!is_bad_port(8080));
    assert!(!is_bad_port(80));
}

#[test]
fn routes_by_mode_and_scheme() {
    let mut req = request("GET", http_url("/"));
    assert_eq!(route(&req), Route::Http(ResponseTaint::Cors));
    req.mode = RequestMode::NoCors;
    assert_eq!(route(&req), Route::Http(ResponseTaint::Basic));
    req.redirect = RequestRedirect::Manual;
    assert_eq!(route(&req), Route::Refuse);
    req.mode = RequestMode::SameOrigin;
    assert_eq!(route(&req), Route::Refuse);
    let req = request("GET", url("file:///tmp/x", "file", None, None, "/tmp/x"));
    assert_eq!(route(&req), Route::Local);
    let req = request("GET", url("gopher://x/", "gopher", Some("x"), None, "/"));
    assert_eq!(route(&req), Route::Refuse);
}

#[test]
fn range_of_local_file() {
    let mut req = request("GET", url("file:///tmp/ten", "file", None, None, "/tmp/ten"));
    req.headers.append("Range", "bytes=0-4").unwrap();
    let resp = file_fetch(&req, req.url.copy(), Some(b"0123456789".to_vec()));
    assert_eq!(resp.status, Some(206));
    assert_eq!(resp.status_text.as_deref(), Some("Partial Content"));
    assert!(resp.range_requested);
    match &resp.body.body {
        FetchBodyInner::Bytes(b) => assert_eq!(b, b"01234"),
        _ => panic!("no body"),
    }
    assert_eq!(resp.headers.get_all("content-range"), vec!["bytes 0-4/10".to_string()]);
    assert_eq!(resp.headers.get_all("content-length"), vec!["5".to_string()]);
}

#[test]
fn range_suffix_and_open_end() {
    let mut req = request("GET", url("file:///f", "file", None, None, "/f"));
    req.headers.append("Range", "bytes=-3").unwrap();
    let resp = file_fetch(&req, req.url.copy(), Some(b"0123456789".to_vec()));
    assert_eq!(resp.headers.get_all("content-range"), vec!["bytes 7-9/10".to_string()]);
    let mut req = request("GET", url("file:///f", "file", None, None, "/f"));
    req.headers.append("Range", "bytes=8-").unwrap();
    let resp = file_fetch(&req, req.url.copy(), Some(b"0123456789".to_vec()));
    assert_eq!(resp.headers.get_all("content-range"), vec!["bytes 8-9/10".to_string()]);
    let mut req = request("GET", url("file:///f", "file", None, None, "/f"));
    req.headers.append("Range", "bytes=4-100").unwrap();
    let resp = file_fetch(&req, req.url.copy(), Some(b"0123456789".to_vec()));
    assert_eq!(resp.headers.get_all("content-range"), vec!["bytes 4-9/10".to_string()]);
}

#[test]
fn unsatisfiable_range_is_a_network_error() {
    let mut req = request("GET", url("file:///f", "file", None, None, "/f"));
    req.headers.append("Range", "bytes=20-30").unwrap();
    assert!(file_fetch(&req, req.url.copy(), Some(b"0123456789".to_vec())).is_error());
    let mut req = request("GET", url("file:///f", "file", None, None, "/f"));
    req.headers.append("Range", "items=0-1").unwrap();
    assert!(file_fetch(&req, req.url.copy(), Some(b"0123456789".to_vec())).is_error());
}

#[test]
fn file_without_range_is_whole() {
    let req = request("GET", url("file:///f", "file", None, None, "/f"));
    let resp = file_fetch(&req, req.url.copy(), Some(b"abc".to_vec()));
    assert_eq!(resp.status, Some(200));
    assert!(!resp.range_requested);
    assert_eq!(header_list(&resp.headers), vec![("content-length".to_string(), "3".to_string())]);
    assert!(file_fetch(&req, req.url.copy(), None).is_error());
    let post = request("POST", url("file:///f", "file", None, None, "/f"));
    assert!(file_fetch(&post, post.url.copy(), Some(b"abc".to_vec())).is_error());
}

#[test]
fn blob_is_typed() {
    let req = request("GET", url("blob:x", "blob", None, None, "x"));
    let blob = Blob { bytes: b"hi".to_vec(), kind: Some("text/plain".to_string()) };
    let mut task = FetchTask::new(req, "agent".to_string());
    assert!(matches!(task.main_fetch(), FetchAction::LookupBlob));
    let resp = respond(task.on_blob(Some(blob)));
    assert_eq!(resp.status, Some(200));
    assert_eq!(resp.headers.get_all("content-type"), vec!["text/plain".to_string()]);
    assert_eq!(resp.headers.get_all("content-length"), vec!["2".to_string()]);
    let req = request("GET", url("blob:x", "blob", None, None, "x"));
    let mut task = FetchTask::new(req, "agent".to_string());
    task.main_fetch();
    assert!(respond(task.on_blob(None)).is_error());
}

#[test]
fn abort_rejects_with_reason() {
    let req = request("GET", http_url("/"));
    let r = settle_fetch(&req, FetchRace::Aborted(7));
    assert!(matches!(r, Err(FetchError::Aborted(7))));
    let r = settle_fetch(&req, FetchRace::Completed(network_error()));
    match r {
        Err(FetchError::Network(m)) => assert_eq!(m, "Network Error: Failed to fetch from http://example.com/"),
        other => panic!("{:?}", other),
    }
    let req = request("GET", http_url("/"));
    assert!(matches!(start_fetch(req, Some(3), &vec![], "agent".to_string()), Err(FetchError::Aborted(3))));
}

#[test]
fn start_adds_accept_headers() {
    let req = request("GET", http_url("/"));
    let (task, action) = start_fetch(req, None, &vec!["en-US".to_string(), "fr".to_string()], "agent".to_string()).unwrap();
    assert!(matches!(action, FetchAction::Send(_)));
    assert_eq!(task.request.headers.get_all("accept"), vec!["*/*".to_string()]);
    assert_eq!(task.request.headers.get_all("accept-language"), vec!["en-US,fr;q=0.999".to_string()]);
    assert_eq!(accept_language(&vec![]), "*");
}

#[test]
fn network_headers_are_normalised() {
    let mut req = request("POST", url("http://example.com:8080/", "http", Some("example.com"), Some(8080), "/"));
    req.cache = RequestCache::NoCache;
    req.headers.append("Range", "bytes=0-1").unwrap();
    let out = prepare_network_request(&req, "agent/1").unwrap();
    assert_eq!(
        header_list(&out.headers),
        vec![
            ("Range".to_string(), "bytes=0-1".to_string()),
            ("content-length".to_string(), "0".to_string()),
            ("user-agent".to_string(), "agent/1".to_string()),
            ("cache-control".to_string(), "max-age=0".to_string()),
            ("accept-encoding".to_string(), "identity".to_string()),
            ("host".to_string(), "example.com:8080".to_string()),
        ]
    );
    assert!(out.range_requested);
}

#[test]
fn conditional_request_bypasses_cache() {
    let mut req = request("GET", http_url("/"));
    req.headers.append("If-None-Match", "\"x\"").unwrap();
    req.referrer = Referrer::Url(http_url("/from"));
    let out = prepare_network_request(&req, "ua").unwrap();
    assert_eq!(out.headers.get_all("pragma"), vec!["no-cache".to_string()]);
    assert_eq!(out.headers.get_all("cache-control"), vec!["no-cache".to_string()]);
    assert_eq!(out.headers.get_all("referer"), vec!["http://example.com/from".to_string()]);
    assert_eq!(out.headers.get_all("host"), vec!["example.com".to_string()]);
    let mut req = request("GET", http_url("/"));
    req.cache = RequestCache::OnlyIfCached;
    assert!(prepare_network_request(&req, "ua").is_none());
}

#[test]
fn transport_outcomes() {
    let req = request("GET", http_url("/"));
    assert!(matches!(process_network_response(&req, None, false, false), NetworkOutcome::Respond(ref e) if e.is_error()));
    assert!(matches!(
        process_network_response(&req, Some(incoming(407, &[])), false, false),
        NetworkOutcome::Respond(ref e) if e.is_error()
    ));
    assert!(matches!(process_network_response(&req, Some(incoming(421, &[])), false, false), NetworkOutcome::Retry));
    match process_network_response(&req, Some(incoming(421, &[])), true, true) {
        NetworkOutcome::Respond(r) => {
            assert_eq!(r.status, Some(421));
            assert!(r.range_requested);
        },
        NetworkOutcome::Retry => panic!("retried twice"),
    }
}

#[test]
fn misdirected_request_is_retried_once() {
    let req = request("GET", http_url("/"));
    let mut task = FetchTask::new(req, "agent".to_string());
    task.main_fetch();
    let again = task.on_transport(Some(incoming(421, &[])));
    assert!(matches!(again, FetchAction::Send(_)));
    let resp = respond(task.on_transport(Some(incoming(421, &[]))));
    assert_eq!(resp.status, Some(421));
}

#[test]
fn redirect_modes() {
    let mut req = request("GET", http_url("/"));
    let resp = respond_step(http_fetch_step(&req, redirect_response()));
    assert!(resp.is_none());
    req.redirect = RequestRedirect::Error;
    assert!(matches!(http_fetch_step(&req, redirect_response()), HttpStep::Done(ref e, false) if e.is_error()));
    req.redirect = RequestRedirect::Manual;
    assert!(matches!(http_fetch_step(&req, redirect_response()), HttpStep::Done(_, true)));
}

fn redirect_response() -> Response {
    let mut r = network_error();
    r.kind = ResponseKind::Default;
    r.status = Some(307);
    r
}

fn respond_step(step: HttpStep) -> Option<Response> {
    match step {
        HttpStep::Done(r, _) => Some(r),
        HttpStep::Redirect(_) => None,
    }
}

#[test]
fn manual_redirect_is_opaque() {
    let mut req = request("GET", http_url("/"));
    req.redirect = RequestRedirect::Manual;
    let mut task = FetchTask::new(req, "agent".to_string());
    task.main_fetch();
    let resp = respond(task.on_transport(Some(incoming(302, &[("location", "/b")]))));
    assert_eq!(resp.kind, ResponseKind::OpaqueRedirect);
    assert_eq!(resp.status, None);
    assert!(resp.url.is_none());
    assert_eq!(resp.headers.len(), 0);
}

#[test]
fn cors_response_exposes_allowed_headers() {
    let req = request("GET", http_url("/"));
    let mut resp = Response::new_from_bytes(b"x".to_vec(), http_url("/"));
    resp.headers = Headers::from_entries(
        vec![
            ("Access-Control-Allow-Headers".to_string(), "x-visible".to_string()),
            ("X-Visible".to_string(), "1".to_string()),
            ("X-Hidden".to_string(), "2".to_string()),
            ("Set-Cookie".to_string(), "a=b".to_string()),
        ],
        HeadersKind::Immutable,
    );
    let out = main_fetch_finish(&req, resp, ResponseTaint::Cors, false, 0);
    assert_eq!(out.kind, ResponseKind::Cors);
    assert_eq!(header_list(&out.headers), vec![("X-Visible".to_string(), "1".to_string())]);
}

#[test]
fn cors_wildcard_without_credentials_exposes_all() {
    let req = request("GET", http_url("/"));
    let mut resp = Response::new_from_bytes(b"x".to_vec(), http_url("/"));
    resp.headers = Headers::from_entries(
        vec![
            ("Access-Control-Allow-Headers".to_string(), "*".to_string()),
            ("X-Any".to_string(), "1".to_string()),
            ("Set-Cookie2".to_string(), "a=b".to_string()),
        ],
        HeadersKind::Immutable,
    );
    let out = main_fetch_finish(&req, resp, ResponseTaint::Cors, false, 0);
    assert_eq!(out.headers.len(), 2);
    assert!(!out.headers.contains("set-cookie2"));
}

#[test]
fn head_and_no_content_drop_body() {
    let req = request("HEAD", http_url("/"));
    let resp = Response::new_from_bytes(b"x".to_vec(), http_url("/"));
    assert!(main_fetch_finish(&req, resp, ResponseTaint::Basic, false, 0).body.is_none());
    let req = request("GET", http_url("/"));
    let mut resp = Response::new_from_bytes(b"x".to_vec(), http_url("/"));
    resp.status = Some(204);
    assert!(main_fetch_finish(&req, resp, ResponseTaint::Basic, false, 0).body.is_none());
    let resp = Response::new_from_bytes(b"x".to_vec(), http_url("/"));
    assert!(!main_fetch_finish(&req, resp, ResponseTaint::Basic, false, 0).body.is_none());
}

#[test]
fn opaque_taint_hides_everything() {
    let req = request("GET", http_url("/"));
    let resp = Response::new_from_bytes(b"x".to_vec(), http_url("/"));
    let out = main_fetch_finish(&req, resp, ResponseTaint::Opaque, false, 0);
    assert_eq!(out.kind, ResponseKind::Opaque);
    assert!(out.status.is_none() && out.url.is_none() && out.body.is_none());
    let mut resp = Response::new_from_bytes(b"x".to_vec(), http_url("/"));
    resp.status = Some(206);
    resp.range_requested = true;
    assert!(main_fetch_finish(&req, resp, ResponseTaint::Opaque, false, 0).is_error());
}

#[test]
fn redirect_hop_passes_response_up() {
    let req = request("GET", http_url("/"));
    let resp = Response::new_from_bytes(b"x".to_vec(), http_url("/"));
    let out = main_fetch_finish(&req, resp, ResponseTaint::Cors, false, 2);
    assert!(out.redirected);
    assert_eq!(out.kind, ResponseKind::Basic);
}

#[test]
fn immutable_headers_refuse_append() {
    let mut h = Headers::new(HeadersKind::Immutable);
    assert_eq!(h.append("a", "b"), Err(HeadersError::Immutable));
    assert_eq!(h.len(), 0);
    let mut h = Headers::new(HeadersKind::RequestNoCors);
    assert_eq!(h.append("A", "1"), Ok(()));
    h.append("b", "2").unwrap();
    h.append("a", "3").unwrap();
    assert_eq!(h.get_all("a"), vec!["1".to_string(), "3".to_string()]);
    assert!(h.contains("B"));
    assert_eq!(h.remove_all("A"), Ok(()));
    assert_eq!(header_list(&h), vec![("b".to_string(), "2".to_string())]);
    assert_eq!(h.clear(), Ok(()));
    assert_eq!(h.len(), 0);
    let mut fixed = Headers::from_entries(vec![("a".to_string(), "1".to_string())], HeadersKind::Immutable);
    assert_eq!(fixed.remove_all("a"), Err(HeadersError::Immutable));
    assert_eq!(fixed.clear(), Err(HeadersError::Immutable));
    assert_eq!(fixed.len(), 1);
}

#[test]
fn body_kinds_give_content_types() {
    assert_eq!(FetchBodyKind::String.content_type(), "text/plain;charset=UTF-8");
    assert_eq!(FetchBodyKind::URLSearchParams.content_type(), "application/x-www-form-urlencoded;charset=UTF-8");
    assert_eq!(FetchBodyKind::Blob("image/png".to_string()).content_type(), "image/png");
    let body = FetchBody { body: FetchBodyInner::Bytes(b"x".to_vec()), kind: Some(FetchBodyKind::String) };
    let mut h = Headers::new(HeadersKind::Mutable);
    body.add_content_type_header(&mut h);
    body.add_content_type_header(&mut h);
    assert_eq!(h.get_all("content-type"), vec!["text/plain;charset=UTF-8".to_string()]);
    assert_eq!(body.len(), Some(1));
    assert!(!body.is_empty());
    assert!(FetchBody::none().is_empty());
}

#[test]
fn referrer_policy_tokens() {
    assert_eq!(ReferrerPolicy::parse("strict-origin-when-cross-origin"), Some(ReferrerPolicy::StrictOriginWhenCrossOrigin));
    assert_eq!(ReferrerPolicy::parse("unsafe-url"), Some(ReferrerPolicy::UnsafeUrl));
    assert_eq!(ReferrerPolicy::parse("Origin"), None);
}

#[test]
fn redirect_without_location_passes_response_through() {
    let req = request("GET", http_url("/a"));
    let mut task = FetchTask::new(req, "agent".to_string());
    task.main_fetch();
    let resp = respond(task.on_transport(Some(incoming(302, &[("x-note", "1")]))));
    assert_eq!(resp.status, Some(302));
    assert_eq!(resp.kind, ResponseKind::Cors);
    assert_eq!(task.request.url.path, "/a");
    assert!(task.request.locations.is_empty());
}

#[test]
fn no_cors_response_is_basic_without_cookies() {
    let mut req = request("GET", http_url("/a"));
    req.mode = RequestMode::NoCors;
    let mut task = FetchTask::new(req, "agent".to_string());
    task.main_fetch();
    let resp = respond(task.on_transport(Some(incoming(200, &[("Set-Cookie", "a=b"), ("X-Kept", "1")]))));
    assert_eq!(resp.kind, ResponseKind::Basic);
    assert_eq!(header_list(&resp.headers), vec![("X-Kept".to_string(), "1".to_string())]);
}

#[test]
fn twenty_redirects_then_refusal_after_twenty_one_requests() {
    let req = request("GET", http_url("/0"));
    let mut task = FetchTask::new(req, "agent".to_string());
    let mut action = task.main_fetch();
    let mut sent = 0;
    loop {
        match action {
            FetchAction::Send(out) => {
                sent += 1;
                assert_eq!(out.url.path, format!("/{}", sent - 1));
                let next = format!("/{}", sent);
                action = task.on_transport(Some(incoming(302, &[("location", next.as_str())])));
            }
            FetchAction::Respond(resp) => {
                assert!(resp.is_error());
                break;
            }
            other => panic!("{:?}", other),
        }
    }
    assert_eq!(sent, 21);
    assert_eq!(task.redirections, 20);
}

#[test]
fn head_of_data_url_has_no_body() {
    let req = request("HEAD", url("data:,hello", "data", None, None, ",hello"));
    let mut task = FetchTask::new(req, "agent".to_string());
    let resp = respond(task.main_fetch());
    assert_eq!(resp.status, Some(200));
    assert!(resp.body.is_none());
}
