//! Request URIs as plain values, and their rewriting towards an upstream.
use vstd::prelude::*;

verus! {

/// The scheme of a URI.
#[derive(Clone, Copy, Debug, PartialEq, Eq, Structural)]
pub enum Scheme {
    Http,
    Https,
    Ws,
    Wss,
}

/// The WebSocket scheme that corresponds to a scheme: `ws` for plain
/// connections, `wss` for secured ones.
pub open spec fn upgraded_scheme(s: Scheme) -> Scheme {
    match s {
        Scheme::Http | Scheme::Ws => Scheme::Ws,
        Scheme::Https | Scheme::Wss => Scheme::Wss,
    }
}

impl Scheme {
    /// The WebSocket scheme that corresponds to this scheme.
    pub fn upgraded(self) -> (r: Scheme)
        ensures
            r == upgraded_scheme(self),
    {
        match self {
            Scheme::Http => Scheme::Ws,
            Scheme::Https => Scheme::Wss,
            Scheme::Ws => Scheme::Ws,
            Scheme::Wss => Scheme::Wss,
        }
    }

    /// The scheme as it is written in a URI.
    pub fn as_str(self) -> (r: &'static str)
        ensures
            r@ == scheme_text(self),
    {
        proof {
            reveal_strlit("http");
            reveal_strlit("https");
            reveal_strlit("ws");
            reveal_strlit("wss");
        }
        match self {
            Scheme::Http => "http",
            Scheme::Https => "https",
            Scheme::Ws => "ws",
            Scheme::Wss => "wss",
        }
    }
}

/// The text of a scheme.
pub open spec fn scheme_text(s: Scheme) -> Seq<char> {
    match s {
        Scheme::Http => seq!['h', 't', 't', 'p'],
        Scheme::Https => seq!['h', 't', 't', 'p', 's'],
        Scheme::Ws => seq!['w', 's'],
        Scheme::Wss => seq!['w', 's', 's'],
    }
}

/// A request URI in its parts. `path` is the path as received, `query` the
/// text after `?` if there was one.
#[derive(Clone, Debug, PartialEq, Eq)]
pub struct RequestUri {
    pub scheme: Option<Scheme>,
    pub authority: Option<String>,
    pub path: String,
    pub query: Option<String>,
}

/// What a request URI denotes.
pub struct UriView {
    pub scheme: Option<Scheme>,
    pub authority: Option<Seq<char>>,
    pub path: Seq<char>,
    pub query: Option<Seq<char>>,
}

pub open spec fn opt_view(o: Option<String>) -> Option<Seq<char>> {
    match o {
        Some(s) => Some(s@),
        None => None,
    }
}

impl View for RequestUri {
    type V = UriView;

    open spec fn view(&self) -> UriView {
        UriView {
            scheme: self.scheme,
            authority: opt_view(self.authority),
            path: self.path@,
            query: opt_view(self.query),
        }
    }
}

/// The URI sent upstream: scheme and authority replaced, path and query kept.
pub open spec fn rewritten(u: UriView, authority: Seq<char>, scheme: Scheme) -> UriView {
    UriView { scheme: Some(scheme), authority: Some(authority), path: u.path, query: u.query }
}

fn clone_opt(o: &Option<String>) -> (r: Option<String>)
    ensures
        opt_view(r) == opt_view(*o),
{
    match o {
        Some(s) => Some(s.clone()),
        None => None,
    }
}

impl RequestUri {
    /// Points the URI at another authority under the given scheme. The path
    /// and the query are copied unchanged.
    pub fn rewrite(&self, authority: &str, scheme: Scheme) -> (r: RequestUri)
        ensures
            r@ == rewritten(self@, authority@, scheme),
    {
        RequestUri {
            scheme: Some(scheme),
            authority: Some(authority.to_string()),
            path: self.path.clone(),
            query: clone_opt(&self.query),
        }
    }

    /// The same URI under another scheme.
    pub fn replace_scheme(&self, scheme: Scheme) -> (r: RequestUri)
        ensures
            r@ == (UriView { scheme: Some(scheme), ..self@ }),
    {
        RequestUri {
            scheme: Some(scheme),
            authority: clone_opt(&self.authority),
            path: self.path.clone(),
            query: clone_opt(&self.query),
        }
    }
}

/// Rewriting never touches the path or the query, whatever the target
/// authority and scheme.
pub proof fn lemma_rewrite_keeps_path_and_query(u: UriView, authority: Seq<char>, scheme: Scheme)
    ensures
        rewritten(u, authority, scheme).path == u.path,
        rewritten(u, authority, scheme).query == u.query,
        rewritten(u, authority, scheme).authority == Some(authority),
        rewritten(u, authority, scheme).scheme == Some(scheme),
{
}

} // verus!
