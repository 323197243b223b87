use vstd::prelude::*;

use crate::body::FetchBody;
use crate::header::Headers;
use crate::text::str_equal;
use crate::url::Url;

verus! {

#[derive(Clone, Copy, Debug, PartialEq, Eq, Structural)]
pub enum RequestMode {
    SameOrigin,
    NoCors,
    Cors,
}

#[derive(Clone, Copy, Debug, PartialEq, Eq, Structural)]
pub enum RequestCredentials {
    Omit,
    SameOrigin,
    Include,
}

#[derive(Clone, Copy, Debug, PartialEq, Eq, Structural)]
pub enum RequestCache {
    Default,
    NoStore,
    Reload,
    NoCache,
    ForceCache,
    OnlyIfCached,
}

#[derive(Clone, Copy, Debug, PartialEq, Eq, Structural)]
pub enum RequestRedirect {
    Follow,
    Error,
    Manual,
}

#[derive(Clone, Copy, Debug, PartialEq, Eq, Structural)]
pub enum ReferrerPolicy {
    Unset,
    NoReferrer,
    NoReferrerWhenDowngrade,
    SameOrigin,
    Origin,
    StrictOrigin,
    OriginWhenCrossOrigin,
    StrictOriginWhenCrossOrigin,
    UnsafeUrl,
}

/// The policy that a `Referrer-Policy` value names, if any.
pub open spec fn policy_named(s: Seq<char>) -> Option<ReferrerPolicy> {
    if s == "no-referrer"@ {
        Some(ReferrerPolicy::NoReferrer)
    } else if s == "no-referrer-when-downgrade"@ {
        Some(ReferrerPolicy::NoReferrerWhenDowngrade)
    } else if s == "same-origin"@ {
        Some(ReferrerPolicy::SameOrigin)
    } else if s == "origin"@ {
        Some(ReferrerPolicy::Origin)
    } else if s == "strict-origin"@ {
        Some(ReferrerPolicy::StrictOrigin)
    } else if s == "origin-when-cross-origin"@ {
        Some(ReferrerPolicy::OriginWhenCrossOrigin)
    } else if s == "strict-origin-when-cross-origin"@ {
        Some(ReferrerPolicy::StrictOriginWhenCrossOrigin)
    } else if s == "unsafe-url"@ {
        Some(ReferrerPolicy::UnsafeUrl)
    } else {
        None
    }
}

impl ReferrerPolicy {
    /// Reads a `Referrer-Policy` token.
    pub fn parse(s: &str) -> (r: Option<ReferrerPolicy>)
        ensures
            r == policy_named(s@),
    {
        if str_equal(s, "no-referrer") {
            Some(ReferrerPolicy::NoReferrer)
        } else if str_equal(s, "no-referrer-when-downgrade") {
            Some(ReferrerPolicy::NoReferrerWhenDowngrade)
        } else if str_equal(s, "same-origin") {
            Some(ReferrerPolicy::SameOrigin)
        } else if str_equal(s, "origin") {
            Some(ReferrerPolicy::Origin)
        } else if str_equal(s, "strict-origin") {
            Some(ReferrerPolicy::StrictOrigin)
        } else if str_equal(s, "origin-when-cross-origin") {
            Some(ReferrerPolicy::OriginWhenCrossOrigin)
        } else if str_equal(s, "strict-origin-when-cross-origin") {
            Some(ReferrerPolicy::StrictOriginWhenCrossOrigin)
        } else if str_equal(s, "unsafe-url") {
            Some(ReferrerPolicy::UnsafeUrl)
        } else {
            None
        }
    }
}

/// Who the request claims to come from.
#[derive(Debug)]
pub enum Referrer {
    NoReferrer,
    Client,
    Url(Url),
}

/// A request on its way through the pipeline.
#[derive(Debug)]
pub struct Request {
    pub method: String,
    pub url: Url,
    pub headers: Headers,
    pub body: FetchBody,
    pub mode: RequestMode,
    pub credentials: RequestCredentials,
    pub cache: RequestCache,
    pub redirect: RequestRedirect,
    pub referrer: Referrer,
    pub referrer_policy: ReferrerPolicy,
    /// Whether the request has a window to ask the user for proxy credentials.
    pub client_window: bool,
    /// The URLs that redirects led to, oldest first.
    pub locations: Vec<Url>,
}

} // verus!
