use vstd::prelude::*;

use crate::body::{BodyView, FetchBody};
use crate::header::{values_of, without_name, HeaderView};
use crate::request::{policy_named, ReferrerPolicy, Request};
use crate::response::{is_network_error, network_error, Response, ResponseTaint};
use crate::url::{has_credentials, is_http_scheme, Url, UrlView};

verus! {

/// The most redirects that one fetch follows.
pub const MAX_REDIRECTS: u8 = 20;

/// What a redirect response says of where to go.
#[derive(Debug)]
pub enum Location {
    /// No `Location` header: the response is final.
    Absent,
    /// More than one `Location` header.
    Ambiguous,
    /// The one `Location` value, to be resolved against the response's URL.
    One(String),
}

/// Reads the `Location` header of a redirect response.
pub fn redirect_location(response: &Response) -> (r: Location)
    ensures
        values_of(response.headers@, "location"@).len() == 0 ==> r is Absent,
        values_of(response.headers@, "location"@).len() > 1 ==> r is Ambiguous,
        values_of(response.headers@, "location"@).len() == 1 ==> (r matches Location::One(v) && v@
            == values_of(response.headers@, "location"@)[0]),
{
    let values = response.headers.get_all("location");
    proof {
        assert(crate::header::strings_view(values@).len() == values@.len());
    }
    if values.len() == 0 {
        Location::Absent
    } else if values.len() > 1 {
        Location::Ambiguous
    } else {
        let v = values[0].clone();
        assert(crate::header::strings_view(values@)[0] == values@[0]@);
        Location::One(v)
    }
}

/// The resolved location, given the fragment of the redirect response's URL
/// where it has none of its own.
pub open spec fn carried(loc: UrlView, prior: Option<Url>) -> UrlView {
    if loc.fragment is None && prior is Some && prior->0@.fragment is Some {
        UrlView { href: loc.href + "#"@ + prior->0@.fragment->0, fragment: prior->0@.fragment, ..loc }
    } else {
        loc
    }
}

/// Whether a redirect may not be followed.
pub open spec fn redirect_refused(
    request: &Request,
    status: Option<u16>,
    location: Option<UrlView>,
    taint: ResponseTaint,
    redirections: u8,
) -> bool {
    ||| location is None
    ||| !is_http_scheme(location->0.scheme)
    ||| redirections >= MAX_REDIRECTS
    ||| (taint == ResponseTaint::Cors && has_credentials(location->0))
    ||| (status != Some(303u16) && request.body@ is Stream)
}

/// Whether following the redirect turns the request into a bodiless GET.
pub open spec fn downgrades(method: Seq<char>, status: Option<u16>) -> bool {
    ||| ((status == Some(301u16) || status == Some(302u16)) && method == "POST"@)
    ||| (status == Some(303u16) && !(method == "GET"@ || method == "HEAD"@))
}

/// The headers that describe a body, which a downgraded request loses.
pub open spec fn without_body_headers(h: Seq<HeaderView>) -> Seq<HeaderView> {
    without_name(
        without_name(without_name(without_name(h, "content-encoding"@), "content-language"@), "content-location"@),
        "content-type"@,
    )
}

/// The last non-empty `Referrer-Policy` value that names a policy.
pub open spec fn last_policy(values: Seq<Seq<char>>) -> Option<ReferrerPolicy>
    decreases values.len(),
{
    if values.len() == 0 {
        None
    } else if values.last().len() > 0 && policy_named(values.last()) is Some {
        policy_named(values.last())
    } else {
        last_policy(values.drop_last())
    }
}

pub open spec fn urls_view(s: Seq<Url>) -> Seq<UrlView> {
    s.map_values(|u: Url| u@)
}

/// How the request reads after a redirect to `loc` is followed.
pub open spec fn redirected_request(old: &Request, new: &Request, response: &Response, loc: UrlView) -> bool {
    let down = downgrades(old.method@, response.status);
    let target = carried(loc, response.url);
    &&& new.method@ == (if down { "GET"@ } else { old.method@ })
    &&& new.body@ == (if down { BodyView::Absent } else { old.body@ })
    &&& new.headers@ == (if down { without_body_headers(old.headers@) } else { old.headers@ })
    &&& new.headers.kind == old.headers.kind
    &&& new.url@ == target
    &&& urls_view(new.locations@) == urls_view(old.locations@).push(target)
    &&& new.referrer_policy == (match last_policy(values_of(response.headers@, "referrer-policy"@)) {
        Some(p) => p,
        None => old.referrer_policy,
    })
    &&& new.mode == old.mode
    &&& new.credentials == old.credentials
    &&& new.cache == old.cache
    &&& new.redirect == old.redirect
    &&& new.referrer == old.referrer
    &&& new.client_window == old.client_window
}

/// Picks the policy of the last `Referrer-Policy` value that names one.
pub fn find_last_policy(values: &Vec<String>) -> (r: Option<ReferrerPolicy>)
    ensures
        r == last_policy(crate::header::strings_view(values@)),
{
    let ghost vs = crate::header::strings_view(values@);
    let mut i: usize = values.len();
    assert(vs.subrange(0, i as int) =~= vs);
    while i > 0
        invariant
            0 <= i <= values.len(),
            vs == crate::header::strings_view(values@),
            last_policy(vs) == last_policy(vs.subrange(0, i as int)),
        decreases i,
    {
        let ghost pre = vs.subrange(0, i as int);
        assert(pre.drop_last() =~= vs.subrange(0, i - 1));
        assert(pre.last() == values@[i - 1]@);
        let v = values[i - 1].as_str();
        if v.unicode_len() > 0 {
            let p = ReferrerPolicy::parse(v);
            if p.is_some() {
                return p;
            }
        }
        i -= 1;
    }
    None
}

/// What the redirect handler decided.
#[derive(Debug)]
pub enum RedirectOutcome {
    /// The redirect may not be followed.
    Refused(Response),
    /// The request now targets the new location: run main fetch again with
    /// one more redirection.
    Follow,
}

/// Follows a redirect: `location` is the `Location` value resolved against
/// the response's URL (`None` where it does not parse). A refused redirect
/// leaves the request as it was.
pub fn http_redirect_fetch(
    request: &mut Request,
    response: &Response,
    location: Option<Url>,
    taint: ResponseTaint,
    redirections: u8,
) -> (r: RedirectOutcome)
    ensures
        r is Refused <==> redirect_refused(
            old(request),
            response.status,
            match location {
                Some(u) => Some(u@),
                None => None,
            },
            taint,
            redirections,
        ),
        r matches RedirectOutcome::Refused(e) ==> (is_network_error(e) && *final(request) == *old(request)),
        r is Follow ==> redirected_request(old(request), final(request), response, location->0@),
{
    let mut loc = match location {
        Some(u) => u,
        None => return RedirectOutcome::Refused(network_error()),
    };
    let ghost loc0 = loc@;
    if loc.fragment.is_none() {
        if let Some(prior) = &response.url {
            if let Some(f) = &prior.fragment {
                loc.set_fragment(f.as_str());
            }
        }
    }
    assert(loc@ == carried(loc0, response.url));
    if !loc.is_http() {
        return RedirectOutcome::Refused(network_error());
    }
    if redirections >= MAX_REDIRECTS {
        return RedirectOutcome::Refused(network_error());
    }
    if taint == ResponseTaint::Cors && loc.has_credentials() {
        return RedirectOutcome::Refused(network_error());
    }
    if response.status != Some(303u16) && request.body.is_stream() {
        return RedirectOutcome::Refused(network_error());
    }
    let post = crate::text::str_equal(request.method.as_str(), "POST");
    let get_or_head = crate::text::str_equal(request.method.as_str(), "GET") || crate::text::str_equal(
        request.method.as_str(),
        "HEAD",
    );
    if ((response.status == Some(301u16) || response.status == Some(302u16)) && post) || (response.status
        == Some(303u16) && !get_or_head) {
        request.method = "GET".to_owned();
        request.body = FetchBody::none();
        request.headers.remove_entries("content-encoding");
        request.headers.remove_entries("content-language");
        request.headers.remove_entries("content-location");
        request.headers.remove_entries("content-type");
    }
    let ghost before = request.locations@;
    let copy = loc.copy();
    request.locations.push(copy);
    proof {
        assert(urls_view(request.locations@) =~= urls_view(before).push(loc@));
    }
    request.url = loc;
    let policies = response.headers.get_all("referrer-policy");
    if let Some(p) = find_last_policy(&policies) {
        request.referrer_policy = p;
    }
    RedirectOutcome::Follow
}

/// A POST answered by a `302` goes on as a GET without a body and without
/// the headers that described the body.
pub proof fn lemma_post_found_becomes_get(old: &Request, new: &Request, response: &Response, loc: UrlView)
    requires
        old.method@ == "POST"@,
        response.status == Some(302u16),
        redirected_request(old, new, response, loc),
    ensures
        new.method@ == "GET"@,
        new.body@ == BodyView::Absent,
        new.headers@ == without_body_headers(old.headers@),
{
}

} // verus!
