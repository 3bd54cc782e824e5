//! The crate's model of an absolute URL, and the origin policy.
//!
//! A [`Url`] holds as plain strings the components the crawl logic reads:
//! scheme, optional host, path, and optional query. The fragment is dropped
//! when a URL is parsed, since it is insignificant for fetch identity. Two
//! URLs denote the same resource exactly when their key strings — the
//! normalized `scheme://host/path?query` form — are equal.
//!
//! Parsing a string and resolving a relative reference against a base are
//! delegated to the `url` crate behind trusted wrappers; both results are
//! functions of their arguments alone and are named by uninterpreted spec
//! functions.

use vstd::prelude::*;
use vstd::string::StringExecFns;

verus! {

/// The mathematical view of a [`Url`]: each component as a character sequence.
pub struct UrlView {
    pub scheme: Seq<char>,
    pub host: Option<Seq<char>>,
    pub path: Seq<char>,
    pub query: Option<Seq<char>>,
}

impl UrlView {
    /// The normalized identity of a URL: `scheme://host/path?query`, with an
    /// absent host or query contributing nothing. Two URLs are the same
    /// resource exactly when their keys are equal.
    pub open spec fn key(self) -> Seq<char> {
        self.scheme + "://"@ + (match self.host {
            Some(h) => h,
            None => Seq::<char>::empty(),
        }) + self.path + (match self.query {
            Some(q) => "?"@ + q,
            None => Seq::<char>::empty(),
        })
    }
}

/// An absolute URL, reduced to the components the crawl reads. A host with
/// an explicit, non-default port carries it as `host:port`, as the
/// normalized serialization does.
pub struct Url {
    pub scheme: String,
    pub host: Option<String>,
    pub path: String,
    pub query: Option<String>,
}

impl View for Url {
    type V = UrlView;

    open spec fn view(&self) -> UrlView {
        UrlView {
            scheme: self.scheme@,
            host: match self.host {
                Some(h) => Some(h@),
                None => None,
            },
            path: self.path@,
            query: match self.query {
                Some(q) => Some(q@),
                None => None,
            },
        }
    }
}

/// What `url::Url::parse` yields on a given string: the scheme, host, path
/// and query of the parsed URL, or `None` where the string is not a valid
/// absolute URL. The result depends on the string alone.
pub uninterp spec fn parsed_url(s: Seq<char>) -> Option<UrlView>;

/// What resolving the reference `href` against the absolute URL `base`
/// yields, or `None` where either side is unusable. The result depends on
/// the two strings alone.
pub uninterp spec fn resolved_url(base: Seq<char>, href: Seq<char>) -> Option<UrlView>;

/// Relies on `url::Url::parse`: parses an absolute URL string, normalizing
/// it; the accessors `scheme`, `host_str`, `port`, `path` and `query`
/// project the components (a default port is already normalized away), and
/// the fragment is discarded. Parsing is a function of the input string
/// alone.
#[verifier::external_body]
fn parse_absolute(s: &str) -> (r: Option<Url>)
    ensures
        r is Some <==> parsed_url(s@) is Some,
        r matches Some(u) ==> parsed_url(s@) == Some(u@),
{
    let u = url::Url::parse(s).ok()?;
    let host = u.host_str().map(|h| match u.port() {
        Some(p) => format!("{h}:{p}"),
        None => h.to_string(),
    });
    let query = u.query().map(|q| q.to_string());
    Some(Url { scheme: u.scheme().to_string(), host, path: u.path().to_string(), query })
}

/// Relies on `url::Url::parse` and `url::Url::join`: resolves the reference
/// `href` against the base URL `base` by standard relative-URL resolution;
/// the same accessors as in [`parse_absolute`] project the components, and
/// the fragment is discarded. Resolution is a function of the two strings
/// alone.
#[verifier::external_body]
pub(crate) fn resolve_reference(base: &str, href: &str) -> (r: Option<Url>)
    ensures
        r is Some <==> resolved_url(base@, href@) is Some,
        r matches Some(u) ==> resolved_url(base@, href@) == Some(u@),
{
    let u = url::Url::parse(base).ok()?.join(href).ok()?;
    let host = u.host_str().map(|h| match u.port() {
        Some(p) => format!("{h}:{p}"),
        None => h.to_string(),
    });
    let query = u.query().map(|q| q.to_string());
    Some(Url { scheme: u.scheme().to_string(), host, path: u.path().to_string(), query })
}

impl Url {
    /// Builds a URL directly from its components, without parsing.
    pub fn new(scheme: String, host: Option<String>, path: String, query: Option<String>) -> (r:
        Url)
        ensures
            r@ == (UrlView {
                scheme: scheme@,
                host: match host {
                    Some(h) => Some(h@),
                    None => None,
                },
                path: path@,
                query: match query {
                    Some(q) => Some(q@),
                    None => None,
                },
            }),
    {
        Url { scheme, host, path, query }
    }

    /// Parses an absolute URL string into its components.
    pub fn parse(s: &str) -> (r: Option<Url>)
        ensures
            r is Some <==> parsed_url(s@) is Some,
            r matches Some(u) ==> parsed_url(s@) == Some(u@),
    {
        parse_absolute(s)
    }

    /// Resolves the reference `href` against this URL.
    pub fn resolve(&self, href: &str) -> (r: Option<Url>)
        ensures
            r is Some <==> resolved_url(self@.key(), href@) is Some,
            r matches Some(u) ==> resolved_url(self@.key(), href@) == Some(u@),
    {
        let base = self.key_string();
        resolve_reference(base.as_str(), href)
    }

    /// The normalized identity string of this URL; see [`UrlView::key`].
    pub fn key_string(&self) -> (r: String)
        ensures
            r@ == self@.key(),
    {
        let mut s = String::from_str(self.scheme.as_str());
        s.append("://");
        match &self.host {
            Some(h) => s.append(h.as_str()),
            None => (),
        }
        s.append(self.path.as_str());
        match &self.query {
            Some(q) => {
                s.append("?");
                s.append(q.as_str());
            },
            None => (),
        }
        proof {
            assert(s@ =~= self@.key());
        }
        s
    }
}

/// The mathematical view of an [`Origin`].
pub struct OriginView {
    pub scheme: Seq<char>,
    pub host: Seq<char>,
}

/// The (scheme, host) identity of the seed URL, fixed for a whole crawl run.
pub struct Origin {
    pub scheme: String,
    pub host: String,
}

impl View for Origin {
    type V = OriginView;

    open spec fn view(&self) -> OriginView {
        OriginView { scheme: self.scheme@, host: self.host@ }
    }
}

/// Does the candidate URL belong to the origin? False where the candidate
/// has no host, and where its scheme or host differs from the origin's.
pub open spec fn spec_same_origin(u: UrlView, o: OriginView) -> bool {
    match u.host {
        Some(h) => h == o.host && u.scheme == o.scheme,
        None => false,
    }
}

/// The origin policy: a pure predicate with no failure modes — a candidate
/// without a host is a normal `false` outcome.
pub fn same_origin(u: &Url, o: &Origin) -> (r: bool)
    ensures
        r == spec_same_origin(u@, o@),
{
    match &u.host {
        Some(h) => *h == o.host && u.scheme == o.scheme,
        None => false,
    }
}

} // verus!
