//! Turning the references that a server returns into absolute URLs.
//!
//! A server names its resources by path. The authority that a path belongs
//! to is the one of the resource that was asked: its scheme, host and port
//! are read once, with the `url` crate, and written in front of each path.
//! A reference that is an absolute URL of that authority already is left as
//! it is.

use vstd::prelude::*;
use crate::text::{chars_of, decimal, push_all, push_decimal, same_chars, string_of};

verus! {

/// What `url::Url::parse` makes of a text: nothing where it is no absolute
/// URL, else the scheme, the host if there is one, and the port if one is
/// written that is not the default of the scheme.
pub uninterp spec fn url_parts(url: Seq<char>) -> Option<(Seq<char>, Option<Seq<char>>, Option<u16>)>;

/// Parts with their texts as sequences of characters.
pub open spec fn parts_view(parts: Option<(String, Option<String>, Option<u16>)>) -> Option<
    (Seq<char>, Option<Seq<char>>, Option<u16>),
> {
    match parts {
        Some((scheme, host, port)) => Some(
            (
                scheme@,
                match host {
                    Some(h) => Some(h@),
                    None => None,
                },
                port,
            ),
        ),
        None => None,
    }
}

/// Whether a text begins with a slash, as a path does.
pub open spec fn is_path(href: Seq<char>) -> bool {
    href.len() > 0 && href[0] == '/'
}

/// `url::Url::parse`, with `scheme`, `host_str` and `port` read from the
/// URL that it returns. [`url_parts`] names the result, which depends on
/// the text alone. A text that begins with a slash is refused: a URL
/// begins with the letter of a scheme, and nothing but blanks and control
/// characters is passed over before it.
#[verifier::external_body]
fn parts_of(url: &str) -> (parts: Option<(String, Option<String>, Option<u16>)>)
    ensures
        parts_view(parts) == url_parts(url@),
        is_path(url@) ==> parts is None,
{
    match url::Url::parse(url) {
        Ok(parsed) => Some(
            (parsed.scheme().to_owned(), parsed.host_str().map(|h| h.to_owned()), parsed.port()),
        ),
        Err(_) => None,
    }
}

/// The scheme, the host and the port that URLs of one server share.
pub struct Authority {
    pub scheme: Seq<char>,
    pub host: Seq<char>,
    pub port: Option<u16>,
}

/// The authority that parts of a URL stand for; none without a host.
pub open spec fn authority(
    parts: Option<(Seq<char>, Option<Seq<char>>, Option<u16>)>,
) -> Option<Authority> {
    match parts {
        Some((scheme, Some(host), port)) => Some(Authority { scheme, host, port }),
        _ => None,
    }
}

/// The authority of `url`. There is none where `url` is not absolute or
/// has no host.
pub open spec fn origin_of(url: Seq<char>) -> Option<Authority> {
    authority(url_parts(url))
}

/// An authority written as the beginning of a URL: `scheme://host`, then
/// `:port` where there is a port.
pub open spec fn origin_text(origin: Authority) -> Seq<char> {
    origin.scheme + seq![':', '/', '/'] + origin.host + match origin.port {
        Some(p) => seq![':'] + decimal(p as nat),
        None => Seq::empty(),
    }
}

/// `href` as an absolute URL of `origin`, given the parts of `href`:
/// unchanged where they are the scheme, the host and the port of `origin`,
/// else with `origin` written in front.
pub open spec fn attached(
    origin: Authority,
    href: Seq<char>,
    parts: Option<(Seq<char>, Option<Seq<char>>, Option<u16>)>,
) -> Seq<char> {
    if authority(parts) == Some(origin) {
        href
    } else {
        origin_text(origin) + href
    }
}

/// `href` as an absolute URL of `origin`: unchanged where it is an absolute
/// URL with the scheme, the host and the port of `origin`, else with
/// `origin` written in front.
pub open spec fn resolved(origin: Authority, href: Seq<char>) -> Seq<char> {
    attached(origin, href, url_parts(href))
}

/// Resolving an absolute URL against a base of the same authority returns
/// that URL: where `href` has the scheme, the host and the port of `base`,
/// the result is `href`.
pub proof fn lemma_absolute_unchanged(base: Seq<char>, href: Seq<char>)
    requires
        origin_of(base) is Some,
        origin_of(href) == origin_of(base),
    ensures
        resolved(origin_of(base)->0, href) == href,
{
}

/// What resolving returns is of the authority that it was resolved
/// against, or it is written with that authority in front.
pub proof fn lemma_resolved_cases(origin: Authority, href: Seq<char>)
    ensures
        origin_of(href) == Some(origin) ==> resolved(origin, href) == href && origin_of(
            resolved(origin, href),
        ) == Some(origin),
        origin_of(href) != Some(origin) ==> resolved(origin, href) == origin_text(origin) + href
            && origin_text(origin).is_prefix_of(resolved(origin, href)),
{
    if origin_of(href) != Some(origin) {
        assert((origin_text(origin) + href).subrange(0, origin_text(origin).len() as int)
            =~= origin_text(origin));
    }
}

/// Resolving what was left unchanged a second time changes nothing.
pub proof fn lemma_resolved_twice(origin: Authority, href: Seq<char>)
    requires
        origin_of(href) == Some(origin),
    ensures
        resolved(origin, resolved(origin, href)) == resolved(origin, href),
{
}

/// The scheme, host and port of a URL, kept with the text that they are
/// written as.
pub struct Origin {
    scheme: Vec<char>,
    host: Vec<char>,
    port: Option<u16>,
}

impl View for Origin {
    type V = Authority;

    closed spec fn view(&self) -> Authority {
        Authority { scheme: self.scheme@, host: self.host@, port: self.port }
    }
}

impl Origin {
    /// The origin with a scheme, a host and a port.
    pub fn new(scheme: &str, host: &str, port: Option<u16>) -> (origin: Origin)
        ensures
            origin@ == (Authority { scheme: scheme@, host: host@, port }),
    {
        Origin { scheme: chars_of(scheme), host: chars_of(host), port }
    }

    /// Reads the origin of `url`; `None` where it has none.
    pub fn of(url: &str) -> (origin: Option<Origin>)
        ensures
            match origin {
                Some(o) => origin_of(url@) == Some(o@),
                None => origin_of(url@) is None,
            },
    {
        match parts_of(url) {
            Some((scheme, Some(host), port)) => Some(
                Origin::new(scheme.as_str(), host.as_str(), port),
            ),
            _ => None,
        }
    }

    fn written(&self) -> (text: Vec<char>)
        ensures
            text@ == origin_text(self@),
    {
        let mut text: Vec<char> = Vec::new();
        push_all(&mut text, &self.scheme);
        text.push(':');
        text.push('/');
        text.push('/');
        push_all(&mut text, &self.host);
        match self.port {
            Some(p) => {
                text.push(':');
                push_decimal(&mut text, p as u64);
                assert(text@ =~= origin_text(self@));
            },
            None => {
                assert(text@ =~= origin_text(self@));
            },
        }
        text
    }

    /// The origin as it is written at the beginning of a URL.
    pub fn text(&self) -> (s: String)
        ensures
            s@ == origin_text(self@),
    {
        let text = self.written();
        string_of(&text)
    }

    /// Whether parts of a URL are the scheme, the host and the port of this
    /// origin.
    pub fn holds(&self, parts: &Option<(String, Option<String>, Option<u16>)>) -> (same: bool)
        ensures
            same == (authority(parts_view(*parts)) == Some(self@)),
    {
        match parts {
            Some((scheme, Some(host), port)) => {
                let s = chars_of(scheme.as_str());
                let h = chars_of(host.as_str());
                let ports = match (port, &self.port) {
                    (Some(p), Some(q)) => *p == *q,
                    (None, None) => true,
                    _ => false,
                };
                same_chars(&s, &self.scheme) && same_chars(&h, &self.host) && ports
            },
            _ => false,
        }
    }

    /// `href` as an absolute URL of this origin, given the parts of `href`.
    pub fn attach(&self, href: &str, parts: &Option<(String, Option<String>, Option<u16>)>) -> (url:
        String)
        ensures
            url@ == attached(self@, href@, parts_view(*parts)),
    {
        if self.holds(parts) {
            href.to_owned()
        } else {
            let mut out = self.written();
            let h = chars_of(href);
            push_all(&mut out, &h);
            string_of(&out)
        }
    }

    /// Whether `url` is an absolute URL of this origin.
    pub fn covers(&self, url: &str) -> (same: bool)
        ensures
            same == (origin_of(url@) == Some(self@)),
    {
        let parts = parts_of(url);
        self.holds(&parts)
    }

    /// `href` as an absolute URL of this origin. A path, which begins with
    /// a slash, gets the origin in front.
    pub fn resolve(&self, href: &str) -> (url: String)
        ensures
            url@ == resolved(self@, href@),
            is_path(href@) ==> url@ == origin_text(self@) + href@,
    {
        let parts = parts_of(href);
        self.attach(href, &parts)
    }
}

/// `href` as an absolute URL of the authority of `base`: unchanged where it
/// is an absolute URL of that authority already, else with the origin of
/// `base` in front. `None` where `base` has no origin.
pub fn resolve(base: &str, href: &str) -> (url: Option<String>)
    ensures
        match url {
            Some(u) => origin_of(base@) is Some && u@ == resolved(origin_of(base@)->0, href@) && (
            is_path(href@) ==> u@ == origin_text(origin_of(base@)->0) + href@),
            None => origin_of(base@) is None,
        },
{
    match Origin::of(base) {
        Some(origin) => Some(origin.resolve(href)),
        None => None,
    }
}

} // verus!
