use vstd::prelude::*;

use crate::body::BodyView;
use crate::fetch::{
    cache_after, drops_body, is_redirect_status, finished, identity_headers, incoming_response, http_fetch_step, main_fetch_finish, network_headers, prepare_network_request,
    process_network_response, route, route_of, strip_forbidden, HttpStep, IncomingResponse, NetworkOutcome,
    OutgoingRequest, Route,
};
use crate::header::{has_name, strings_view, values_of, HeaderView};
use crate::redirect::{http_redirect_fetch, redirect_location, redirect_refused, redirected_request, Location, RedirectOutcome};
use crate::request::{Request, RequestCache, RequestRedirect};
use crate::response::{is_network_error, network_error, Response, ResponseKind, ResponseTaint};
use crate::scheme::{blob_fetch, blob_result, file_fetch, file_result, scheme_fetch, scheme_result, Blob, SchemeAction};
use crate::text::{concat2, decimal, push_decimal, same_name};
use crate::url::{parse_url, parsed_url, Url};

verus! {

/// What a fetch waits for.
#[derive(Debug)]
pub enum Waiting {
    /// Nothing: the fetch is not under way, or is done.
    Nothing,
    /// The contents of the file that the request's URL names.
    File,
    /// What the blob store holds for the request's URL.
    Blob,
    /// The transport's answer to the request it was sent.
    Transport,
}

/// What the host does next for a fetch.
#[derive(Debug)]
pub enum FetchAction {
    /// The fetch is over: hand the response to the caller.
    Respond(Response),
    /// Read the file that the request's URL names; then call `on_file`.
    ReadFile,
    /// Look the request's URL up in the blob store; then call `on_blob`.
    LookupBlob,
    /// Send this request over the transport; then call `on_transport`.
    Send(OutgoingRequest),
}

/// One fetch, driven step by step: main fetch, HTTP fetch and the redirect
/// handler as a loop with a redirect counter. Each method does all that can
/// be done without the outside world and says what the host must do next.
#[derive(Debug)]
pub struct FetchTask {
    pub request: Request,
    /// The redirects followed so far.
    pub redirections: u8,
    /// The taint of the first hop, which filters the final response.
    pub first_taint: ResponseTaint,
    /// The taint of the current hop.
    pub taint: ResponseTaint,
    /// Whether the request in flight is a retry.
    pub is_retry: bool,
    /// Whether the request in flight asks for a byte range.
    pub range_requested: bool,
    pub user_agent: String,
    pub waiting: Waiting,
}

/// The final response for a response reached after `redirections`
/// redirects: the hop that reached it passes it up marked as redirected, and
/// the first hop filters it.
pub open spec fn completed(
    request: &Request,
    resp: Response,
    taint: ResponseTaint,
    first_taint: ResponseTaint,
    opaque: bool,
    redirections: u8,
    r: Response,
) -> bool {
    if redirections == 0 {
        finished(request, resp, taint, opaque, 0, r)
    } else {
        exists|mid: Response|
            #[trigger] finished(request, resp, taint, opaque, redirections, mid) && finished(
                request,
                mid,
                first_taint,
                false,
                0,
                r,
            )
    }
}

/// What a fetch of `about:blank` gives: a `200` with the HTML content type
/// and no content; a HEAD or CONNECT gets no body at all.
pub open spec fn about_blank_response(method: Seq<char>, r: Response) -> bool {
    &&& r.kind == ResponseKind::Basic
    &&& r.status == Some(200u16)
    &&& r.headers@ == seq![("content-type"@, "text/html;charset=UTF-8"@)]
    &&& r.body@ == (if drops_body(method, Some(200u16)) {
        BodyView::Absent
    } else {
        BodyView::Bytes(Seq::empty())
    })
}

/// Whether an error response has nothing but its kind (its `redirected`
/// flag aside).
pub open spec fn error_bare(r: Response) -> bool {
    r.kind == ResponseKind::Error ==> {
        &&& r.url is None
        &&& r.status is None
        &&& r.status_text is None
        &&& r.headers@ == Seq::<HeaderView>::empty()
        &&& r.body@ == BodyView::Absent
        &&& !r.range_requested
    }
}

/// Whether every error response that the action hands back is the bare
/// network error.
pub open spec fn bare_errors(r: FetchAction) -> bool {
    r matches FetchAction::Respond(out) ==> (out.kind == ResponseKind::Error ==> is_network_error(out))
}

proof fn lemma_finished_bare(
    request: &Request,
    resp: Response,
    taint: ResponseTaint,
    opaque: bool,
    redirections: u8,
    r: Response,
)
    requires
        finished(request, resp, taint, opaque, redirections, r),
        error_bare(resp),
    ensures
        error_bare(r),
        redirections == 0 && r.kind == ResponseKind::Error ==> !r.redirected,
{
}

proof fn lemma_completed_bare(
    request: &Request,
    resp: Response,
    taint: ResponseTaint,
    first_taint: ResponseTaint,
    opaque: bool,
    redirections: u8,
    out: Response,
)
    requires
        completed(request, resp, taint, first_taint, opaque, redirections, out),
        error_bare(resp),
    ensures
        out.kind == ResponseKind::Error ==> is_network_error(out),
{
    if redirections == 0 {
        lemma_finished_bare(request, resp, taint, opaque, 0, out);
    } else {
        let mid = choose|mid: Response|
            #[trigger] finished(request, resp, taint, opaque, redirections, mid) && finished(
                request,
                mid,
                first_taint,
                false,
                0,
                out,
            );
        lemma_finished_bare(request, resp, taint, opaque, redirections, mid);
        lemma_finished_bare(request, mid, first_taint, false, 0, out);
    }
}

/// What main fetch sends for `request`: its method, URL and body, with the
/// headers normalised for the transport.
pub open spec fn sent(request: &Request, user_agent: Seq<char>, out: OutgoingRequest) -> bool {
    &&& out.method@ == request.method@
    &&& out.url@ == request.url@
    &&& out.body@ == request.body@
    &&& out.headers@ == network_headers(request, user_agent)
    &&& out.range_requested == has_name(out.headers@, "range"@)
}

/// What main fetch does with `request` after `redirections` redirects, from
/// a task whose first hop had the taint `first_in`, leaving the task `post`:
/// refused requests fail; local schemes are answered with taint basic, at
/// once or after a file read or blob lookup; network requests get the taint
/// of their route and are sent, unless they may only come from a cache.
pub open spec fn main_fetch_outcome(
    request: &Request,
    redirections: u8,
    user_agent: Seq<char>,
    first_in: ResponseTaint,
    post: &FetchTask,
    r: FetchAction,
) -> bool {
    &&& post.request == *request
    &&& post.redirections == redirections
    &&& post.user_agent@ == user_agent
    &&& bare_errors(r)
    &&& match route_of(request.url@, request.mode, request.redirect) {
        Route::Refuse => r matches FetchAction::Respond(e) && is_network_error(e) && post.first_taint == first_in,
        Route::Local => {
            &&& post.taint == ResponseTaint::Basic
            &&& post.first_taint == (if redirections == 0 { ResponseTaint::Basic } else { first_in })
            &&& match r {
                FetchAction::ReadFile => request.url@.scheme == "file"@ && request.method@ == "GET"@
                    && post.waiting is File,
                FetchAction::LookupBlob => request.url@.scheme == "blob"@ && request.method@ == "GET"@
                    && post.waiting is Blob,
                FetchAction::Respond(out) => exists|resp: Response|
                    scheme_result(request, SchemeAction::Respond(resp)) && #[trigger] completed(
                        request,
                        resp,
                        ResponseTaint::Basic,
                        post.first_taint,
                        false,
                        redirections,
                        out,
                    ),
                FetchAction::Send(_) => false,
            }
        },
        Route::Http(t) => {
            &&& post.taint == t
            &&& post.first_taint == (if redirections == 0 { t } else { first_in })
            &&& !post.is_retry
            &&& if cache_after(request.cache, identity_headers(request, user_agent)) == RequestCache::OnlyIfCached {
                r matches FetchAction::Respond(e) && is_network_error(e)
            } else {
                r matches FetchAction::Send(out) && sent(request, user_agent, out) && post.waiting is Transport
                    && post.range_requested == out.range_requested
            }
        },
    }
}

/// What the task does with the transport's answer `incoming` (`None` for a
/// transport failure), from the task `pre` to the task `post`.
pub open spec fn transport_outcome(pre: &FetchTask, incoming: Option<IncomingResponse>, post: &FetchTask, r: FetchAction) -> bool {
    let req = &pre.request;
    &&& bare_errors(r)
    &&& post.user_agent == pre.user_agent
    &&& post.first_taint == pre.first_taint
    &&& match incoming {
        None => r matches FetchAction::Respond(e) && is_network_error(e) && post.request == *req,
        Some(inc) => if inc.status == 407 && !req.client_window {
            r matches FetchAction::Respond(e) && is_network_error(e) && post.request == *req
        } else if inc.status == 421 && !pre.is_retry && !(req.body@ is Stream) {
            &&& if cache_after(req.cache, identity_headers(req, pre.user_agent@)) == RequestCache::OnlyIfCached {
                r matches FetchAction::Respond(e) && is_network_error(e)
            } else {
                r matches FetchAction::Send(out) && sent(req, pre.user_agent@, out) && post.waiting is Transport
            }
            &&& post.is_retry
            &&& post.request == *req
            &&& post.redirections == pre.redirections
        } else if !(300 <= inc.status <= 399) || req.redirect == RequestRedirect::Manual {
            &&& r matches FetchAction::Respond(out) && exists|resp: Response|
                incoming_response(req, inc, pre.range_requested, resp) && #[trigger] completed(
                    req,
                    resp,
                    pre.taint,
                    pre.first_taint,
                    is_redirect_status(Some(inc.status)),
                    pre.redirections,
                    out,
                )
            &&& post.request == *req
        } else if req.redirect == RequestRedirect::Error {
            r matches FetchAction::Respond(e) && is_network_error(e) && post.request == *req
        } else {
            let locations = values_of(crate::header::entries_view(inc.headers@), "location"@);
            if locations.len() == 0 {
                &&& r matches FetchAction::Respond(out) && exists|resp: Response|
                    incoming_response(req, inc, pre.range_requested, resp) && #[trigger] completed(
                        req,
                        resp,
                        pre.taint,
                        pre.first_taint,
                        false,
                        pre.redirections,
                        out,
                    )
                &&& post.request == *req
            } else if locations.len() > 1 {
                r matches FetchAction::Respond(e) && is_network_error(e) && post.request == *req
            } else {
                let loc = parsed_url(locations[0], Some(req.url@.href));
                if redirect_refused(req, Some(inc.status), loc, pre.taint, pre.redirections) {
                    r matches FetchAction::Respond(e) && is_network_error(e) && post.request == *req
                } else {
                    &&& exists|resp: Response|
                        #[trigger] incoming_response(req, inc, pre.range_requested, resp) && redirected_request(
                            req,
                            &post.request,
                            &resp,
                            loc->0,
                        )
                    &&& main_fetch_outcome(
                        &post.request,
                        (pre.redirections + 1) as u8,
                        pre.user_agent@,
                        pre.first_taint,
                        post,
                        r,
                    )
                }
            }
        }
    }
}

proof fn lemma_keep_single(e: HeaderView, keep: spec_fn(HeaderView) -> bool)
    ensures
        keep(e) ==> crate::header::keep_entries(seq![e], keep) == seq![e],
{
    let s = seq![e];
    assert(s.drop_last() =~= Seq::<HeaderView>::empty());
    assert(s.last() == e);
    assert(crate::header::keep_entries(s.drop_last(), keep) == Seq::<HeaderView>::empty());
    if keep(e) {
        assert(crate::header::keep_entries(s, keep) =~= Seq::<HeaderView>::empty().push(e));
        assert(Seq::<HeaderView>::empty().push(e) =~= s);
    }
}

proof fn lemma_blank_page_survives(h: Seq<HeaderView>)
    requires
        h == seq![("content-type"@, "text/html;charset=UTF-8"@)],
    ensures
        strip_forbidden(h) == h,
{
    let e = h[0];
    reveal_strlit("content-type");
    reveal_strlit("set-cookie");
    reveal_strlit("set-cookie2");
    assert(h =~= seq![e]);
    assert(!same_name(e.0, "set-cookie"@));
    assert(!same_name(e.0, "set-cookie2"@));
    lemma_keep_single(e, |x: HeaderView| !same_name(x.0, "set-cookie"@));
    lemma_keep_single(e, |x: HeaderView| !same_name(x.0, "set-cookie2"@));
}

impl FetchTask {
    /// A fetch of `request`, not yet started.
    pub fn new(request: Request, user_agent: String) -> (r: FetchTask)
        ensures
            r.request == request,
            r.user_agent == user_agent,
            r.redirections == 0,
            r.first_taint == ResponseTaint::Basic,
            r.waiting is Nothing,
    {
        FetchTask {
            request,
            redirections: 0,
            first_taint: ResponseTaint::Basic,
            taint: ResponseTaint::Basic,
            is_retry: false,
            range_requested: false,
            user_agent,
            waiting: Waiting::Nothing,
        }
    }

    fn complete(&mut self, resp: Response, opaque: bool) -> (r: FetchAction)
        ensures
            r matches FetchAction::Respond(out) && completed(
                &old(self).request,
                resp,
                old(self).taint,
                old(self).first_taint,
                opaque,
                old(self).redirections,
                out,
            ),
            error_bare(resp) ==> bare_errors(r),
            final(self).waiting is Nothing,
            final(self).request == old(self).request,
            final(self).redirections == old(self).redirections,
            final(self).is_retry == old(self).is_retry,
            final(self).taint == old(self).taint,
            final(self).first_taint == old(self).first_taint,
            final(self).user_agent == old(self).user_agent,
    {
        self.waiting = Waiting::Nothing;
        let r = if self.redirections == 0 {
            FetchAction::Respond(main_fetch_finish(&self.request, resp, self.taint, opaque, 0))
        } else {
            let mid = main_fetch_finish(&self.request, resp, self.taint, opaque, self.redirections);
            let out = main_fetch_finish(&self.request, mid, self.first_taint, false, 0);
            FetchAction::Respond(out)
        };
        proof {
            if error_bare(resp) {
                lemma_completed_bare(
                    &self.request,
                    resp,
                    self.taint,
                    self.first_taint,
                    opaque,
                    self.redirections,
                    r->Respond_0,
                );
            }
        }
        r
    }

    fn send(&mut self) -> (r: FetchAction)
        ensures
            final(self).request == old(self).request,
            final(self).is_retry == old(self).is_retry,
            final(self).redirections == old(self).redirections,
            final(self).taint == old(self).taint,
            final(self).first_taint == old(self).first_taint,
            final(self).user_agent == old(self).user_agent,
            bare_errors(r),
            if cache_after(old(self).request.cache, identity_headers(&old(self).request, old(self).user_agent@))
                == RequestCache::OnlyIfCached {
                r matches FetchAction::Respond(e) && is_network_error(e)
            } else {
                r matches FetchAction::Send(out) && sent(&old(self).request, old(self).user_agent@, out)
                    && final(self).waiting is Transport && final(self).range_requested == out.range_requested
            },
    {
        match prepare_network_request(&self.request, self.user_agent.as_str()) {
            Some(out) => {
                self.range_requested = out.range_requested;
                self.waiting = Waiting::Transport;
                FetchAction::Send(out)
            },
            None => {
                let e = network_error();
                let r = self.complete(e, false);
                proof {
                    lemma_completed_bare(
                        &self.request,
                        e,
                        self.taint,
                        self.first_taint,
                        false,
                        self.redirections,
                        r->Respond_0,
                    );
                }
                r
            },
        }
    }

    /// Main fetch on the current request, after `redirections` redirects.
    pub fn main_fetch(&mut self) -> (r: FetchAction)
        ensures
            main_fetch_outcome(
                &old(self).request,
                old(self).redirections,
                old(self).user_agent@,
                old(self).first_taint,
                final(self),
                r,
            ),
            final(self).user_agent == old(self).user_agent,
            old(self).redirections == 0 && old(self).request.url@.scheme == "about"@ && old(self).request.url@.path
                == "blank"@ ==> (r matches FetchAction::Respond(resp) && about_blank_response(
                old(self).request.method@,
                resp,
            )),
    {
        proof {
            reveal_strlit("about");
            reveal_strlit("http");
            reveal_strlit("https");
            assert("about"@ != "https"@) by {
                assert("about"@[0] != "https"@[0]);
            }
            assert("about"@ != "http"@) by {
                assert("about"@[0] != "http"@[0]);
            }
            reveal_strlit("data");
            reveal_strlit("file");
            reveal_strlit("blob");
            assert("data"@ != "file"@ && "data"@ != "blob"@ && "file"@ != "blob"@) by {
                assert("data"@[0] != "file"@[0] && "data"@[0] != "blob"@[0] && "file"@[0] != "blob"@[0]);
            }
            assert("about"@ != "file"@ && "about"@ != "blob"@) by {
                assert("about"@[0] != "file"@[0] && "about"@[0] != "blob"@[0]);
            }
        }
        match route(&self.request) {
            Route::Refuse => {
                let e = network_error();
                let r = self.complete(e, false);
                proof {
                    lemma_completed_bare(
                        &self.request,
                        e,
                        self.taint,
                        self.first_taint,
                        false,
                        self.redirections,
                        r->Respond_0,
                    );
                }
                r
            },
            Route::Local => {
                if self.redirections == 0 {
                    self.first_taint = ResponseTaint::Basic;
                }
                self.taint = ResponseTaint::Basic;
                let action = scheme_fetch(&self.request);
                match action {
                    SchemeAction::Respond(resp) => {
                        let ghost before = self.request;
                        let r = self.complete(resp, false);
                        proof {
                            if old(self).redirections == 0 && before.url@.scheme == "about"@ && before.url@.path == "blank"@ {
                                lemma_blank_page_survives(resp.headers@);
                            }
                            assert(scheme_result(&before, SchemeAction::Respond(resp)));
                        }
                        r
                    },
                    SchemeAction::ReadFile => {
                        self.waiting = Waiting::File;
                        FetchAction::ReadFile
                    },
                    SchemeAction::LookupBlob => {
                        self.waiting = Waiting::Blob;
                        FetchAction::LookupBlob
                    },
                }
            },
            Route::Http(taint) => {
                if self.redirections == 0 {
                    self.first_taint = taint;
                }
                self.taint = taint;
                self.is_retry = false;
                self.send()
            },
        }
    }

    /// Hands over the contents of the file (`None` where it could not be read).
    pub fn on_file(&mut self, contents: Option<Vec<u8>>) -> (r: FetchAction)
        requires
            old(self).waiting is File,
        ensures
            r matches FetchAction::Respond(out) && exists|resp: Response|
                file_result(&old(self).request, old(self).request.url, contents, resp) && #[trigger] completed(
                    &old(self).request,
                    resp,
                    old(self).taint,
                    old(self).first_taint,
                    false,
                    old(self).redirections,
                    out,
                ),
            bare_errors(r),
            final(self).waiting is Nothing,
            final(self).request == old(self).request,
    {
        let url = self.request.url.copy();
        let resp = file_fetch(&self.request, url, contents);
        proof {
            assert(url@ == self.request.url@);
        }
        self.complete(resp, false)
    }

    /// Hands over what the blob store holds for the URL.
    pub fn on_blob(&mut self, blob: Option<Blob>) -> (r: FetchAction)
        requires
            old(self).waiting is Blob,
        ensures
            r matches FetchAction::Respond(out) && exists|resp: Response|
                blob_result(&old(self).request, old(self).request.url, blob, resp) && #[trigger] completed(
                    &old(self).request,
                    resp,
                    old(self).taint,
                    old(self).first_taint,
                    false,
                    old(self).redirections,
                    out,
                ),
            bare_errors(r),
            final(self).waiting is Nothing,
            final(self).request == old(self).request,
    {
        let url = self.request.url.copy();
        let resp = blob_fetch(&self.request, url, blob);
        self.complete(resp, false)
    }

    /// Hands over the transport's answer (`None` for a transport failure).
    /// A redirect is followed at once: its `Location` is resolved against
    /// the response's URL, and main fetch runs again on the new request.
    pub fn on_transport(&mut self, incoming: Option<IncomingResponse>) -> (r: FetchAction)
        requires
            old(self).waiting is Transport,
        ensures
            transport_outcome(old(self), incoming, final(self), r),
    {
        let outcome = process_network_response(&self.request, incoming, self.range_requested, self.is_retry);
        let resp = match outcome {
            NetworkOutcome::Retry => {
                self.is_retry = true;
                return self.send();
            },
            NetworkOutcome::Respond(resp) => resp,
        };
        match http_fetch_step(&self.request, resp) {
            HttpStep::Done(resp, opaque) => self.complete(resp, opaque),
            HttpStep::Redirect(resp) => match redirect_location(&resp) {
                Location::Absent => self.complete(resp, false),
                Location::Ambiguous => self.complete(network_error(), false),
                Location::One(value) => {
                    let location = parse_url(value.as_str(), resp.url.as_ref());
                    self.follow(&resp, location)
                },
            },
        }
    }

    /// Follows a redirect to `location` (`None` where it did not parse).
    fn follow(&mut self, resp: &Response, location: Option<Url>) -> (r: FetchAction)
        ensures
            bare_errors(r),
            final(self).user_agent == old(self).user_agent,
            final(self).first_taint == old(self).first_taint,
            redirect_refused(
                &old(self).request,
                resp.status,
                match location {
                    Some(u) => Some(u@),
                    None => None,
                },
                old(self).taint,
                old(self).redirections,
            ) ==> (r matches FetchAction::Respond(e) && is_network_error(e) && final(self).request == old(self).request),
            !redirect_refused(
                &old(self).request,
                resp.status,
                match location {
                    Some(u) => Some(u@),
                    None => None,
                },
                old(self).taint,
                old(self).redirections,
            ) ==> redirected_request(&old(self).request, &final(self).request, resp, location->0@)
                && main_fetch_outcome(
                &final(self).request,
                (old(self).redirections + 1) as u8,
                old(self).user_agent@,
                old(self).first_taint,
                final(self),
                r,
            ),
    {
        match http_redirect_fetch(&mut self.request, resp, location, self.taint, self.redirections) {
            RedirectOutcome::Refused(e) => self.complete(e, false),
            RedirectOutcome::Follow => {
                self.redirections = self.redirections + 1;
                self.main_fetch()
            },
        }
    }
}

/// The `Accept-Language` value for the user's locales, most preferred
/// first: each after the first is weighted one thousandth less.
pub open spec fn accept_language_of(locales: Seq<Seq<char>>) -> Seq<char>
    decreases locales.len(),
{
    if locales.len() == 0 {
        "*"@
    } else if locales.len() == 1 {
        locales[0]
    } else {
        let i = locales.len() - 1;
        accept_language_of(locales.drop_last()) + ","@ + locales[i] + ";q=0."@ + decimal((1000 - i) as nat)
    }
}

/// Builds the `Accept-Language` value for the user's locales.
pub fn accept_language(locales: &Vec<String>) -> (r: String)
    requires
        locales@.len() <= 1001,
    ensures
        r@ == accept_language_of(strings_view(locales@)),
{
    let ghost ls = strings_view(locales@);
    if locales.len() == 0 {
        return "*".to_owned();
    }
    let mut s = locales[0].clone();
    let mut i: usize = 1;
    assert(ls.subrange(0, 1).drop_last() =~= Seq::<Seq<char>>::empty());
    while i < locales.len()
        invariant
            1 <= i <= locales.len(),
            locales@.len() <= 1001,
            ls == strings_view(locales@),
            s@ == accept_language_of(ls.subrange(0, i as int)),
        decreases locales.len() - i,
    {
        let t = concat2(s.as_str(), ",");
        let t = concat2(t.as_str(), locales[i].as_str());
        let mut t = concat2(t.as_str(), ";q=0.");
        push_decimal(&mut t, (1000 - i) as u64);
        assert(ls.subrange(0, i + 1).drop_last() =~= ls.subrange(0, i as int));
        s = t;
        i += 1;
    }
    assert(ls.subrange(0, locales@.len() as int) =~= ls);
    s
}

/// How the race between a fetch and its abort signal ended.
#[derive(Debug)]
pub enum FetchRace {
    /// The fetch finished first.
    Completed(Response),
    /// The signal fired first, with the handle of its reason.
    Aborted(u64),
}

/// Why a fetch call was rejected.
#[derive(Debug)]
pub enum FetchError {
    /// The abort signal fired; carries the handle of its reason.
    Aborted(u64),
    /// The fetch ended in a network error.
    Network(String),
}

/// The message of the rejection for a network error.
pub open spec fn network_error_message(href: Seq<char>) -> Seq<char> {
    "Network Error: Failed to fetch from "@ + href
}

/// Settles a fetch call: an abort rejects with its reason, a network error
/// rejects with a message naming the URL, any other response fulfils it.
pub fn settle_fetch(request: &Request, race: FetchRace) -> (r: Result<Response, FetchError>)
    ensures
        match race {
            FetchRace::Aborted(reason) => r == Err::<Response, FetchError>(FetchError::Aborted(reason)),
            FetchRace::Completed(resp) => if resp.kind == ResponseKind::Error {
                r matches Err(FetchError::Network(m)) && m@ == network_error_message(request.url@.href)
            } else {
                r == Ok::<Response, FetchError>(resp)
            },
        },
{
    match race {
        FetchRace::Aborted(reason) => Err(FetchError::Aborted(reason)),
        FetchRace::Completed(resp) => if resp.kind == ResponseKind::Error {
            Err(FetchError::Network(concat2("Network Error: Failed to fetch from ", request.url.href.as_str())))
        } else {
            Ok(resp)
        },
    }
}

/// `new` is `old` with `Accept` and `Accept-Language` given defaults where
/// absent, and nothing else changed.
pub open spec fn with_default_headers(old: &Request, new: &Request, locales: Seq<Seq<char>>) -> bool {
    let h1 = if has_name(old.headers@, "accept"@) {
        old.headers@
    } else {
        old.headers@.push(("accept"@, "*/*"@))
    };
    let h2 = if has_name(h1, "accept-language"@) {
        h1
    } else {
        h1.push(("accept-language"@, accept_language_of(locales)))
    };
    &&& new.headers@ == h2
    &&& new.headers.kind == old.headers.kind
    &&& new.method == old.method
    &&& new.url == old.url
    &&& new.body == old.body
    &&& new.mode == old.mode
    &&& new.credentials == old.credentials
    &&& new.cache == old.cache
    &&& new.redirect == old.redirect
    &&& new.referrer == old.referrer
    &&& new.referrer_policy == old.referrer_policy
    &&& new.client_window == old.client_window
    &&& new.locations == old.locations
}

/// Begins a fetch of `request`: a signal that has already fired rejects it
/// at once; otherwise `Accept` and `Accept-Language` are given defaults where
/// absent and main fetch starts.
pub fn start_fetch(
    request: Request,
    aborted: Option<u64>,
    locales: &Vec<String>,
    user_agent: String,
) -> (r: Result<(FetchTask, FetchAction), FetchError>)
    requires
        locales@.len() <= 1001,
    ensures
        aborted matches Some(reason) ==> r == Err::<(FetchTask, FetchAction), FetchError>(FetchError::Aborted(reason)),
        aborted is None ==> (r matches Ok(p) && with_default_headers(&request, &p.0.request, strings_view(locales@))
            && main_fetch_outcome(&p.0.request, 0, user_agent@, ResponseTaint::Basic, &p.0, p.1)),
{
    if let Some(reason) = aborted {
        return Err(FetchError::Aborted(reason));
    }
    let mut request = request;
    if !request.headers.contains("accept") {
        request.headers.push_entry("accept", "*/*");
    }
    let languages = accept_language(locales);
    if !request.headers.contains("accept-language") {
        request.headers.push_entry("accept-language", languages.as_str());
    }
    let mut task = FetchTask::new(request, user_agent);
    let action = task.main_fetch();
    Ok((task, action))
}

} // verus!
