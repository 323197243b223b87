use vstd::prelude::*;

use crate::text::{concat2, str_equal};

verus! {

/// A parsed absolute URL, held as its parts and its serialisation.
#[derive(Debug)]
pub struct Url {
    /// The whole URL as text.
    pub href: String,
    pub scheme: String,
    pub username: String,
    pub password: Option<String>,
    pub host: Option<String>,
    /// The port, when it is not the scheme's default.
    pub port: Option<u16>,
    pub path: String,
    pub query: Option<String>,
    pub fragment: Option<String>,
}

pub open spec fn opt_view(o: Option<String>) -> Option<Seq<char>> {
    match o {
        Some(s) => Some(s@),
        None => None,
    }
}

/// What a URL is, in contracts.
pub struct UrlView {
    pub href: Seq<char>,
    pub scheme: Seq<char>,
    pub username: Seq<char>,
    pub password: Option<Seq<char>>,
    pub host: Option<Seq<char>>,
    pub port: Option<u16>,
    pub path: Seq<char>,
    pub query: Option<Seq<char>>,
    pub fragment: Option<Seq<char>>,
}

impl View for Url {
    type V = UrlView;

    open spec fn view(&self) -> UrlView {
        UrlView {
            href: self.href@,
            scheme: self.scheme@,
            username: self.username@,
            password: opt_view(self.password),
            host: opt_view(self.host),
            port: self.port,
            path: self.path@,
            query: opt_view(self.query),
            fragment: opt_view(self.fragment),
        }
    }
}

/// The schemes that go over the network.
pub open spec fn is_http_scheme(scheme: Seq<char>) -> bool {
    scheme == "http"@ || scheme == "https"@
}

/// The schemes that are answered without the network.
pub open spec fn is_local_scheme(scheme: Seq<char>) -> bool {
    scheme == "about"@ || scheme == "blob"@ || scheme == "data"@ || scheme == "file"@
}

/// Whether the URL carries a user name or a password.
pub open spec fn has_credentials(u: UrlView) -> bool {
    u.username.len() > 0 || u.password is Some
}

pub fn copy_opt(o: &Option<String>) -> (r: Option<String>)
    ensures
        opt_view(r) == opt_view(*o),
{
    match o {
        Some(s) => Some(s.clone()),
        None => None,
    }
}

impl Url {
    /// A copy of the URL.
    pub fn copy(&self) -> (r: Url)
        ensures
            r@ == self@,
    {
        Url {
            href: self.href.clone(),
            scheme: self.scheme.clone(),
            username: self.username.clone(),
            password: copy_opt(&self.password),
            host: copy_opt(&self.host),
            port: self.port,
            path: self.path.clone(),
            query: copy_opt(&self.query),
            fragment: copy_opt(&self.fragment),
        }
    }

    pub fn is_http(&self) -> (r: bool)
        ensures
            r == is_http_scheme(self@.scheme),
    {
        let s = self.scheme.as_str();
        str_equal(s, "http") || str_equal(s, "https")
    }

    pub fn is_local(&self) -> (r: bool)
        ensures
            r == is_local_scheme(self@.scheme),
    {
        let s = self.scheme.as_str();
        str_equal(s, "about") || str_equal(s, "blob") || str_equal(s, "data") || str_equal(s, "file")
    }

    pub fn has_credentials(&self) -> (r: bool)
        ensures
            r == has_credentials(self@),
    {
        self.username.unicode_len() > 0 || self.password.is_some()
    }

    /// Gives a URL without a fragment the fragment `fragment`; the
    /// serialisation gains `#` and the fragment at its end.
    pub fn set_fragment(&mut self, fragment: &str)
        requires
            old(self)@.fragment is None,
        ensures
            final(self)@ == (UrlView {
                href: old(self)@.href + "#"@ + fragment@,
                fragment: Some(fragment@),
                ..old(self)@
            }),
    {
        let with_mark = concat2(self.href.as_str(), "#");
        self.href = concat2(with_mark.as_str(), fragment);
        self.fragment = Some(fragment.to_owned());
    }
}

/// The URL that the `url` crate parses `input` to, relative to the URL
/// serialised as `base` where one is given; `None` where it does not parse.
pub uninterp spec fn parsed_url(input: Seq<char>, base: Option<Seq<char>>) -> Option<UrlView>;

/// Relies on `url::Url`: `parse` for an absolute input or the base, `join`
/// for an input relative to the base, and its accessors for the parts.
#[verifier::external_body]
fn parse_with_url_crate(input: &str, base: Option<&str>) -> (r: Option<Url>)
    ensures
        match r {
            Some(u) => parsed_url(input@, match base { Some(b) => Some(b@), None => None }) == Some(u@),
            None => parsed_url(input@, match base { Some(b) => Some(b@), None => None }) is None,
        },
{
    let u = match base { Some(b) => url::Url::parse(b).ok()?.join(input), None => url::Url::parse(input) }.ok()?;
    let s = |o: Option<&str>| o.map(String::from);
    Some(Url {
        href: u.as_str().into(), scheme: u.scheme().into(), username: u.username().into(),
        password: s(u.password()), host: s(u.host_str()), port: u.port(), path: u.path().into(),
        query: s(u.query()), fragment: s(u.fragment()),
    })
}

/// Parses `input` as a URL, relative to `base` where one is given.
pub fn parse_url(input: &str, base: Option<&Url>) -> (r: Option<Url>)
    ensures
        match r {
            Some(u) => parsed_url(input@, match base { Some(b) => Some(b@.href), None => None }) == Some(u@),
            None => parsed_url(input@, match base { Some(b) => Some(b@.href), None => None }) is None,
        },
{
    match base {
        Some(b) => parse_with_url_crate(input, Some(b.href.as_str())),
        None => parse_with_url_crate(input, None),
    }
}

} // verus!
