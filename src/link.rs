//! Absolute URLs, held by their serialized form, and resolution of hrefs.
use vstd::prelude::*;

verus! {

/// The serialization of `Url::parse(s)`, or `None` when `s` does not parse.
pub uninterp spec fn parsed_form(s: Seq<char>) -> Option<Seq<char>>;

/// The serialization of the URL that `href` denotes relative to the URL
/// serialized as `base`, or `None` when the href cannot be resolved.
pub uninterp spec fn joined(base: Seq<char>, href: Seq<char>) -> Option<Seq<char>>;

/// The host of the URL serialized as `url`, as text (a domain, or an IP
/// address); `None` when the URL has no host or the text does not parse.
pub uninterp spec fn host_str_of(url: Seq<char>) -> Option<Seq<char>>;

/// The view of an optional string.
pub open spec fn opt_text(o: Option<String>) -> Option<Seq<char>> {
    match o {
        Some(s) => Some(s@),
        None => None,
    }
}

/// Relies on `url::Url::parse` (re-exported by reqwest) and the serialization
/// `Url::as_str`: a function of the input text alone.
#[verifier::external_body]
fn parse_serialized(s: &str) -> (r: Option<String>)
    ensures
        opt_text(r) == parsed_form(s@),
{
    reqwest::Url::parse(s).ok().map(|u| u.as_str().to_owned())
}

/// Relies on `url::Url::join`: resolves `href` against the URL serialized as
/// `base` by the standard URL-resolution rules; the base text is turned back
/// into a `Url` by `Url::parse`.
#[verifier::external_body]
fn join_serialized(base: &str, href: &str) -> (r: Option<String>)
    ensures
        opt_text(r) == joined(base@, href@),
{
    reqwest::Url::parse(base).and_then(|b| b.join(href)).ok().map(|u| u.as_str().to_owned())
}

/// Relies on `url::Url::host_str`: the host as text, whether a domain or an
/// IP address; the text is turned back into a `Url` by `Url::parse`.
#[verifier::external_body]
fn host_serialized(url: &str) -> (r: Option<String>)
    ensures
        opt_text(r) == host_str_of(url@),
{
    reqwest::Url::parse(url).ok().and_then(|u| u.host_str().map(|h| h.to_owned()))
}

/// An absolute URL, held by its serialized form. Two links denote the same
/// page exactly when their serializations are equal.
#[derive(Clone, Debug)]
pub struct Link {
    text: String,
}

impl View for Link {
    type V = Seq<char>;

    closed spec fn view(&self) -> Seq<char> {
        self.text@
    }
}

/// A link that could not be resolved: the offending href and the base URL.
#[derive(Clone, Debug)]
pub struct ResolveError {
    pub href: String,
    pub base: String,
}

/// What resolving `href` against `base` gives: the absolute URL, or the pair
/// (href, base) that identifies the failure.
pub open spec fn resolution(base: Seq<char>, href: Seq<char>) -> Result<Seq<char>, (Seq<char>, Seq<char>)> {
    match joined(base, href) {
        Some(u) => Ok(u),
        None => Err((href, base)),
    }
}

/// The view of an outcome of `Link::resolve`.
pub open spec fn outcome_view(r: Result<Link, ResolveError>) -> Result<Seq<char>, (Seq<char>, Seq<char>)> {
    match r {
        Ok(l) => Ok(l@),
        Err(e) => Err((e.href@, e.base@)),
    }
}

impl Link {
    /// Parses an absolute URL; `None` when `s` is not one.
    pub fn parse(s: &str) -> (r: Option<Link>)
        ensures
            match r {
                Some(l) => parsed_form(s@) == Some(l@),
                None => parsed_form(s@) is None,
            },
    {
        match parse_serialized(s) {
            Some(text) => Some(Link { text }),
            None => None,
        }
    }

    /// A copy of this link.
    pub fn duplicate(&self) -> (r: Link)
        ensures
            r@ == self@,
    {
        Link { text: self.text.clone() }
    }

    /// The serialized form.
    pub fn as_str(&self) -> (r: &str)
        ensures
            r@ == self@,
    {
        self.text.as_str()
    }

    /// The host of this URL as text, `None` when it has none.
    pub fn host(&self) -> (r: Option<String>)
        ensures
            opt_text(r) == host_str_of(self@),
    {
        host_serialized(self.text.as_str())
    }

    /// Resolves `href` (absolute, scheme-relative, path-relative or a bare
    /// fragment) against this URL.
    pub fn resolve(&self, href: &str) -> (r: Result<Link, ResolveError>)
        ensures
            outcome_view(r) == resolution(self@, href@),
    {
        match join_serialized(self.text.as_str(), href) {
            Some(text) => Ok(Link { text }),
            None => Err(ResolveError { href: href.to_owned(), base: self.text.clone() }),
        }
    }
}

/// Resolution is a function of its inputs: two resolutions of the same
/// (base, href) pair give the same outcome.
pub proof fn lemma_resolve_idempotent(
    base: Link,
    href: Seq<char>,
    r1: Result<Link, ResolveError>,
    r2: Result<Link, ResolveError>,
)
    requires
        outcome_view(r1) == resolution(base@, href),
        outcome_view(r2) == resolution(base@, href),
    ensures
        outcome_view(r1) == outcome_view(r2),
{
}

} // verus!
