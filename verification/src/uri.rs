//! Uniform resource identifiers and their components.
//!
//! A component is text that the `http` crate accepts as one. A [`Uri`] is put
//! together by the `http` crate too, which decides which components go together.

use vstd::prelude::*;

use crate::text::{after_last, after_last_visible, before_first, before_first_visible, is_visible, u16_of};

verus! {

/// A parse error of the `http` crate.
#[verifier::external_type_specification]
#[verifier::external_body]
pub struct ExInvalidUri(http::uri::InvalidUri);

/// The error of the `http` crate for components that do not go together.
#[verifier::external_type_specification]
#[verifier::external_body]
pub struct ExInvalidUriParts(http::uri::InvalidUriParts);

/// Text that is no component of the asked kind.
#[derive(Clone, Copy, Debug, PartialEq, Eq, Structural)]
pub struct InvalidComponent;

/// Components that do not go together.
#[derive(Clone, Copy, Debug, PartialEq, Eq, Structural)]
pub struct InvalidParts;

/// Whether `c` may stand in a scheme.
pub open spec fn is_scheme_char(c: char) -> bool {
    ||| 'a' <= c <= 'z'
    ||| 'A' <= c <= 'Z'
    ||| '0' <= c <= '9'
    ||| c == '+'
    ||| c == '-'
    ||| c == '.'
    ||| c == '~'
}

/// Whether `s` is a scheme.
pub open spec fn is_scheme(s: Seq<char>) -> bool {
    &&& s.len() <= 64
    &&& forall|i: int| 0 <= i < s.len() ==> is_scheme_char(#[trigger] s[i])
}

/// Whether the `http` crate takes `s` for an authority.
pub uninterp spec fn is_authority(s: Seq<char>) -> bool;

/// The text of the path and query that the `http` crate reads from `s`.
pub uninterp spec fn path_and_query_of(s: Seq<char>) -> Option<Seq<char>>;

/// The host of an authority: what stands behind any user information, as far as
/// the port, or with its brackets where it is bracketed.
pub open spec fn host_of(authority: Seq<char>) -> Seq<char> {
    let host_port = match after_last(authority, '@') {
        Some(rest) => rest,
        None => authority,
    };
    if host_port.len() > 0 && host_port[0] == '[' {
        before_first(host_port, ']').push(']')
    } else {
        before_first(host_port, ':')
    }
}

/// The port of an authority: the number behind its last colon.
pub open spec fn port_of(authority: Seq<char>) -> Option<u16> {
    match after_last(authority, ':') {
        Some(rest) => u16_of(rest),
        None => None,
    }
}

/// `http::uri::Scheme::from_str`: takes up to 64 letters, digits and `+-.~`, and
/// keeps the text.
#[verifier::external_body]
fn scheme_from_str(s: &str) -> (r: Result<String, http::uri::InvalidUri>)
    ensures
        r is Ok <==> is_scheme(s@),
        r matches Ok(text) ==> text@ == s@,
{
    s.parse::<http::uri::Scheme>().map(|scheme| scheme.as_str().to_string())
}

/// `http::uri::Authority::from_str`: keeps the text that it takes, which is not
/// empty and holds visible ASCII characters only. Which text it takes goes by
/// the name [`is_authority`].
#[verifier::external_body]
fn authority_from_str(s: &str) -> (r: Result<String, http::uri::InvalidUri>)
    ensures
        r is Ok <==> is_authority(s@),
        r matches Ok(text) ==> text@ == s@ && text@.len() > 0 && is_visible(text@),
{
    s.parse::<http::uri::Authority>().map(|authority| authority.as_str().to_string())
}

/// `http::uri::PathAndQuery::from_str`: what it reads goes by the name
/// [`path_and_query_of`]. It reads a slash as it stands, and reads its own text
/// back as it stands.
#[verifier::external_body]
fn path_and_query_from_str(s: &str) -> (r: Result<String, http::uri::InvalidUri>)
    ensures
        r is Ok <==> path_and_query_of(s@) is Some,
        r matches Ok(text) ==> path_and_query_of(s@) == Some(text@) && path_and_query_of(text@) == Some(text@),
        s@ == seq!['/'] ==> r is Ok && r->Ok_0@ == s@,
{
    s.parse::<http::uri::PathAndQuery>().map(|path| path.as_str().to_string())
}

/// `http::uri::Authority::host`: the host of an authority.
#[verifier::external_body]
fn authority_host(s: &str) -> (r: String)
    requires
        is_authority(s@),
    ensures
        r@ == host_of(s@),
{
    s.parse::<http::uri::Authority>().expect("an authority").host().to_string()
}

/// `http::uri::Authority::port_u16`: the port of an authority.
#[verifier::external_body]
fn authority_port(s: &str) -> (r: Option<u16>)
    requires
        is_authority(s@),
    ensures
        r == port_of(s@),
{
    s.parse::<http::uri::Authority>().expect("an authority").port_u16()
}

/// What an optional component holds.
pub open spec fn text_of(component: Option<&str>) -> Option<Seq<char>> {
    match component {
        Some(s) => Some(s@),
        None => None,
    }
}

/// What an optional component holds.
pub open spec fn string_of(component: Option<String>) -> Option<Seq<char>> {
    match component {
        Some(s) => Some(s@),
        None => None,
    }
}

/// The components of a URI.
#[verifier::ext_equal]
pub struct UriView {
    pub scheme: Option<Seq<char>>,
    pub authority: Option<Seq<char>>,
    pub path_and_query: Option<Seq<char>>,
}

/// Whether the components go together: a scheme needs an authority and a path,
/// and an authority without a scheme stands alone.
pub open spec fn fit(parts: UriView) -> bool {
    if parts.scheme is Some {
        parts.authority is Some && parts.path_and_query is Some
    } else {
        parts.authority is None || parts.path_and_query is None
    }
}

/// The URI made of components that go together: where there is no authority
/// alone, the path is a slash unless it is given.
pub open spec fn assembled(parts: UriView) -> UriView {
    UriView {
        path_and_query: if parts.path_and_query is None && parts.authority is None {
            Some(seq!['/'])
        } else {
            parts.path_and_query
        },
        ..parts
    }
}

/// `http::Uri::from_parts`, on text that parses as each component, and read back
/// as text: it takes the components that [`fit`] and keeps them, but for the
/// slash that an empty URI stands for. The path of the result reads back as it
/// stands.
#[verifier::external_body]
fn uri_from_parts(scheme: Option<&str>, authority: Option<&str>, path: Option<&str>) -> (r: Result<
    (Option<String>, Option<String>, Option<String>),
    http::uri::InvalidUriParts,
>)
    requires
        scheme matches Some(s) ==> is_scheme(s@),
        authority matches Some(s) ==> is_authority(s@),
        path matches Some(s) ==> path_and_query_of(s@) == Some(s@),
    ensures
        r is Ok <==> fit(
            UriView {
                scheme: text_of(scheme),
                authority: text_of(authority),
                path_and_query: text_of(path),
            },
        ),
        r matches Ok(uri) ==> (UriView {
            scheme: string_of(uri.0),
            authority: string_of(uri.1),
            path_and_query: string_of(uri.2),
        }) == assembled(
            UriView {
                scheme: text_of(scheme),
                authority: text_of(authority),
                path_and_query: text_of(path),
            },
        ),
        r matches Ok(uri) ==> (uri.2 matches Some(p) ==> path_and_query_of(p@) == Some(p@)),
{
    let mut parts = http::uri::Parts::default();
    parts.scheme = scheme.map(|s| s.parse().expect("a scheme"));
    parts.authority = authority.map(|s| s.parse().expect("an authority"));
    parts.path_and_query = path.map(|s| s.parse().expect("a path"));
    let uri = http::Uri::from_parts(parts)?;
    Ok((
        uri.scheme_str().map(String::from),
        uri.authority().map(|a| a.as_str().to_string()),
        uri.path_and_query().map(|p| p.as_str().to_string()),
    ))
}

/// A scheme, such as `http`.
#[derive(Debug)]
pub struct Scheme {
    text: String,
}

impl View for Scheme {
    type V = Seq<char>;

    closed spec fn view(&self) -> Seq<char> {
        self.text@
    }
}

impl Scheme {
    #[verifier::type_invariant]
    spec fn valid(self) -> bool {
        is_scheme(self.text@)
    }

    /// Reads a scheme.
    pub fn parse(s: &str) -> (r: Result<Scheme, InvalidComponent>)
        ensures
            r is Ok <==> is_scheme(s@),
            r matches Ok(scheme) ==> scheme@ == s@,
    {
        match scheme_from_str(s) {
            Ok(text) => Ok(Scheme { text }),
            Err(_) => Err(InvalidComponent),
        }
    }

    /// The scheme `http`.
    pub fn http() -> (r: Scheme)
        ensures
            r@ == "http"@,
    {
        proof {
            reveal_strlit("http");
        }
        match Scheme::parse("http") {
            Ok(scheme) => scheme,
            Err(_) => vstd::pervasive::unreached(),
        }
    }

    /// The scheme `https`.
    pub fn https() -> (r: Scheme)
        ensures
            r@ == "https"@,
    {
        proof {
            reveal_strlit("https");
        }
        match Scheme::parse("https") {
            Ok(scheme) => scheme,
            Err(_) => vstd::pervasive::unreached(),
        }
    }

    /// The text of the scheme.
    pub fn as_str(&self) -> (r: &str)
        ensures
            r@ == self@,
    {
        self.text.as_str()
    }

    /// Whether the scheme is `s`, letter for letter.
    pub fn is(&self, s: &str) -> (r: bool)
        ensures
            r == (self@ == s@),
    {
        self.text == s.to_string()
    }
}

impl Clone for Scheme {
    fn clone(&self) -> (r: Scheme)
        ensures
            r == *self,
    {
        proof {
            use_type_invariant(self);
        }
        Scheme { text: self.text.clone() }
    }
}

/// An authority: a host with, at most, user information before it and a port
/// behind it.
#[derive(Debug)]
pub struct Authority {
    text: String,
}

impl View for Authority {
    type V = Seq<char>;

    closed spec fn view(&self) -> Seq<char> {
        self.text@
    }
}

impl Authority {
    #[verifier::type_invariant]
    spec fn valid(self) -> bool {
        is_authority(self.text@) && is_visible(self.text@)
    }

    /// Reads an authority.
    pub fn parse(s: &str) -> (r: Result<Authority, InvalidComponent>)
        ensures
            r is Ok <==> is_authority(s@),
            r matches Ok(authority) ==> authority@ == s@,
    {
        match authority_from_str(s) {
            Ok(text) => Ok(Authority { text }),
            Err(_) => Err(InvalidComponent),
        }
    }

    /// The text of the authority.
    pub fn as_str(&self) -> (r: &str)
        ensures
            r@ == self@,
    {
        self.text.as_str()
    }

    /// The host.
    pub fn host(&self) -> (r: String)
        ensures
            r@ == host_of(self@),
            is_visible(r@),
    {
        proof {
            use_type_invariant(self);
            host_visible(self.text@);
        }
        authority_host(self.text.as_str())
    }

    /// The port.
    pub fn port_u16(&self) -> (r: Option<u16>)
        ensures
            r == port_of(self@),
    {
        proof {
            use_type_invariant(self);
        }
        authority_port(self.text.as_str())
    }
}

impl Clone for Authority {
    fn clone(&self) -> (r: Authority)
        ensures
            r == *self,
    {
        proof {
            use_type_invariant(self);
        }
        Authority { text: self.text.clone() }
    }
}

proof fn host_visible(authority: Seq<char>)
    requires
        is_visible(authority),
    ensures
        is_visible(host_of(authority)),
{
    after_last_visible(authority, '@');
    let host_port = match after_last(authority, '@') {
        Some(rest) => rest,
        None => authority,
    };
    before_first_visible(host_port, ']');
    before_first_visible(host_port, ':');
}

/// A path with, at most, a query behind it.
#[derive(Debug)]
pub struct PathAndQuery {
    text: String,
}

impl View for PathAndQuery {
    type V = Seq<char>;

    closed spec fn view(&self) -> Seq<char> {
        self.text@
    }
}

impl PathAndQuery {
    #[verifier::type_invariant]
    spec fn valid(self) -> bool {
        path_and_query_of(self.text@) == Some(self.text@)
    }

    /// Reads a path and query.
    pub fn parse(s: &str) -> (r: Result<PathAndQuery, InvalidComponent>)
        ensures
            r is Ok <==> path_and_query_of(s@) is Some,
            r matches Ok(path) ==> path_and_query_of(s@) == Some(path@),
            s@ == seq!['/'] ==> r is Ok && r->Ok_0@ == s@,
    {
        match path_and_query_from_str(s) {
            Ok(text) => Ok(PathAndQuery { text }),
            Err(_) => Err(InvalidComponent),
        }
    }

    /// The path that is a slash alone.
    pub fn slash() -> (r: PathAndQuery)
        ensures
            r@ == seq!['/'],
    {
        proof {
            reveal_strlit("/");
            assert("/"@ =~= seq!['/']);
        }
        match PathAndQuery::parse("/") {
            Ok(path) => path,
            Err(_) => vstd::pervasive::unreached(),
        }
    }

    /// The text of the path and query.
    pub fn as_str(&self) -> (r: &str)
        ensures
            r@ == self@,
    {
        self.text.as_str()
    }
}

impl Clone for PathAndQuery {
    fn clone(&self) -> (r: PathAndQuery)
        ensures
            r == *self,
    {
        proof {
            use_type_invariant(self);
        }
        PathAndQuery { text: self.text.clone() }
    }
}

/// What an optional scheme holds.
pub open spec fn scheme_view(scheme: Option<Scheme>) -> Option<Seq<char>> {
    match scheme {
        Some(s) => Some(s@),
        None => None,
    }
}

/// What an optional authority holds.
pub open spec fn authority_view(authority: Option<Authority>) -> Option<Seq<char>> {
    match authority {
        Some(a) => Some(a@),
        None => None,
    }
}

/// What an optional path and query holds.
pub open spec fn path_view(path: Option<PathAndQuery>) -> Option<Seq<char>> {
    match path {
        Some(p) => Some(p@),
        None => None,
    }
}

/// Components to make a [`Uri`] of.
#[derive(Debug)]
pub struct Parts {
    pub scheme: Option<Scheme>,
    pub authority: Option<Authority>,
    pub path_and_query: Option<PathAndQuery>,
}

impl View for Parts {
    type V = UriView;

    open spec fn view(&self) -> UriView {
        UriView {
            scheme: scheme_view(self.scheme),
            authority: authority_view(self.authority),
            path_and_query: path_view(self.path_and_query),
        }
    }
}

/// A URI: of the shape `scheme://authority/path`, an authority alone, or a path
/// alone.
#[derive(Debug)]
pub struct Uri {
    scheme: Option<Scheme>,
    authority: Option<Authority>,
    path_and_query: Option<PathAndQuery>,
}

impl View for Uri {
    type V = UriView;

    closed spec fn view(&self) -> UriView {
        UriView {
            scheme: scheme_view(self.scheme),
            authority: authority_view(self.authority),
            path_and_query: path_view(self.path_and_query),
        }
    }
}

impl Uri {
    #[verifier::type_invariant]
    spec fn valid(self) -> bool {
        fit(self@) && assembled(self@) == self@
    }

    /// Makes a URI of components that go together.
    pub fn from_parts(parts: Parts) -> (r: Result<Uri, InvalidParts>)
        ensures
            r is Ok <==> fit(parts@),
            r matches Ok(uri) ==> uri@ == assembled(parts@),
    {
        let scheme = match &parts.scheme {
            Some(s) => {
                proof {
                    use_type_invariant(s);
                }
                Some(s.text.as_str())
            },
            None => None,
        };
        let authority = match &parts.authority {
            Some(a) => {
                proof {
                    use_type_invariant(a);
                }
                Some(a.text.as_str())
            },
            None => None,
        };
        let path = match &parts.path_and_query {
            Some(p) => {
                proof {
                    use_type_invariant(p);
                }
                Some(p.text.as_str())
            },
            None => None,
        };
        match uri_from_parts(scheme, authority, path) {
            Ok((scheme, authority, path)) => Ok(
                Uri {
                    scheme: match scheme {
                        Some(text) => Some(Scheme { text }),
                        None => None,
                    },
                    authority: match authority {
                        Some(text) => Some(Authority { text }),
                        None => None,
                    },
                    path_and_query: match path {
                        Some(text) => Some(PathAndQuery { text }),
                        None => None,
                    },
                },
            ),
            Err(_) => Err(InvalidParts),
        }
    }

    /// The scheme, where there is one.
    pub fn scheme(&self) -> (r: Option<&Scheme>)
        ensures
            r is Some <==> self@.scheme is Some,
            r matches Some(scheme) ==> self@.scheme == Some(scheme@),
    {
        self.scheme.as_ref()
    }

    /// The authority, where there is one.
    pub fn authority(&self) -> (r: Option<&Authority>)
        ensures
            r is Some <==> self@.authority is Some,
            r matches Some(authority) ==> self@.authority == Some(authority@),
    {
        self.authority.as_ref()
    }

    /// The path and query, which only an authority alone lacks.
    pub fn path_and_query(&self) -> (r: Option<&PathAndQuery>)
        ensures
            r is Some <==> self@.path_and_query is Some,
            r matches Some(path) ==> self@.path_and_query == Some(path@),
            r is None <==> self@.scheme is None && self@.authority is Some,
    {
        proof {
            use_type_invariant(self);
        }
        self.path_and_query.as_ref()
    }
}

impl Clone for Uri {
    fn clone(&self) -> (r: Uri)
        ensures
            r@ == self@,
    {
        proof {
            use_type_invariant(self);
        }
        Uri {
            scheme: match &self.scheme {
                Some(s) => Some(s.clone()),
                None => None,
            },
            authority: match &self.authority {
                Some(a) => Some(a.clone()),
                None => None,
            },
            path_and_query: match &self.path_and_query {
                Some(p) => Some(p.clone()),
                None => None,
            },
        }
    }
}

impl Default for Uri {
    /// The path that is a slash alone.
    fn default() -> (r: Uri)
        ensures
            r@ == (UriView { scheme: None, authority: None, path_and_query: Some(seq!['/']) }),
    {
        match Uri::from_parts(Parts { scheme: None, authority: None, path_and_query: None }) {
            Ok(uri) => uri,
            Err(_) => vstd::pervasive::unreached(),
        }
    }
}

} // verus!
