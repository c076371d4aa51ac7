//! The forms that the URI of a request takes on its way, and the destination
//! that it names.

use vstd::prelude::*;

use crate::error::{Error, ErrorKind};
use crate::text::{
    decimal, decimal_visible, is_visible, u16_of, u16_reads_back, u16_to_string,
};
use crate::uri::{
    assembled, fit, host_of, port_of, Authority, Parts, PathAndQuery, Scheme, Uri, UriView,
};

verus! {

/// The destination of a request: connections are kept and shared per key.
pub type PoolKey = (Scheme, Authority);

/// The path and query of a URI alone; a slash where there is none.
pub open spec fn origin_form_of(uri: UriView) -> UriView {
    UriView {
        scheme: None,
        authority: None,
        path_and_query: match uri.path_and_query {
            Some(path) => Some(path),
            None => Some(seq!['/']),
        },
    }
}

/// The form that a proxy is sent: the URI as it is, but for `https`, which a
/// proxy tunnels and does not read.
pub open spec fn absolute_form_of(uri: UriView) -> UriView {
    if uri.scheme == Some("https"@) {
        origin_form_of(uri)
    } else {
        uri
    }
}

/// The authority of a URI alone.
pub open spec fn authority_form_of(uri: UriView) -> UriView {
    UriView { scheme: None, authority: uri.authority, path_and_query: None }
}

/// The URI of a destination.
pub open spec fn destination(scheme: Seq<char>, authority: Seq<char>) -> UriView {
    UriView { scheme: Some(scheme), authority: Some(authority), path_and_query: Some(seq!['/']) }
}

/// Whether a URI names a destination: a tunnel may leave its scheme open.
pub open spec fn names_domain(uri: UriView, is_http_connect: bool) -> bool {
    uri.authority is Some && (uri.scheme is Some || is_http_connect)
}

/// The scheme of a destination: where it is left open, the port decides.
pub open spec fn domain_scheme(uri: UriView) -> Seq<char> {
    match uri.scheme {
        Some(scheme) => scheme,
        None => if port_of(uri.authority->0) == Some(443u16) {
            "https"@
        } else {
            "http"@
        },
    }
}

/// The URI with its scheme settled.
pub open spec fn with_domain(uri: UriView) -> UriView {
    if uri.scheme is Some {
        uri
    } else {
        destination(domain_scheme(uri), uri.authority->0)
    }
}

/// Whether a URI goes by a scheme that runs over TLS.
pub open spec fn is_secure(uri: UriView) -> bool {
    uri.scheme == Some("https"@) || uri.scheme == Some("wss"@)
}

/// The port of a URI.
pub open spec fn uri_port(uri: UriView) -> Option<u16> {
    match uri.authority {
        Some(authority) => port_of(authority),
        None => None,
    }
}

/// The port of a URI, unless it is the one that its scheme stands for.
pub open spec fn non_default_port(uri: UriView) -> Option<u16> {
    let default: u16 = if is_secure(uri) {
        443
    } else {
        80
    };
    if uri_port(uri) == Some(default) {
        None
    } else {
        uri_port(uri)
    }
}

/// The value of the `Host` header that goes with an authority.
pub open spec fn host_header_of(uri: UriView) -> Seq<char> {
    match non_default_port(uri) {
        Some(port) => host_of(uri.authority->0) + seq![':'] + decimal(port as nat),
        None => host_of(uri.authority->0),
    }
}

/// Leaves the path and query of the URI alone.
pub fn origin_form(uri: &mut Uri)
    ensures
        final(uri)@ == origin_form_of(old(uri)@),
{
    let path: PathAndQuery = match uri.path_and_query() {
        Some(path) => path.clone(),
        None => PathAndQuery::slash(),
    };
    let parts = Parts { scheme: None, authority: None, path_and_query: Some(path) };
    *uri = match Uri::from_parts(parts) {
        Ok(uri) => uri,
        Err(_) => vstd::pervasive::unreached(),
    };
}

/// Brings the URI into the form that a proxy is sent.
pub fn absolute_form(uri: &mut Uri)
    requires
        old(uri)@.scheme is Some,
        old(uri)@.authority is Some,
    ensures
        final(uri)@ == absolute_form_of(old(uri)@),
{
    // A connector that claims to be a proxy should have tunneled `https`.
    let tunneled = match uri.scheme() {
        Some(scheme) => scheme.is("https"),
        None => false,
    };
    if tunneled {
        origin_form(uri);
    }
}

/// Leaves the authority of the URI alone.
pub fn authority_form(uri: &mut Uri)
    requires
        old(uri)@.authority is Some,
    ensures
        final(uri)@ == authority_form_of(old(uri)@),
{
    let authority: Authority = match uri.authority() {
        Some(authority) => authority.clone(),
        None => vstd::pervasive::unreached(),
    };
    let parts = Parts { scheme: None, authority: Some(authority), path_and_query: None };
    *uri = match Uri::from_parts(parts) {
        Ok(uri) => uri,
        Err(_) => vstd::pervasive::unreached(),
    };
}

/// Finds the destination that the URI names, and settles the scheme of the URI
/// where a tunnel leaves it open.
pub fn extract_domain<S>(uri: &mut Uri, is_http_connect: bool) -> (r: Result<PoolKey, Error<S>>)
    ensures
        r is Ok <==> names_domain(old(uri)@, is_http_connect),
        r matches Ok(key) ==> {
            &&& key.0@ == domain_scheme(old(uri)@)
            &&& Some(key.1@) == old(uri)@.authority
            &&& final(uri)@ == with_domain(old(uri)@)
        },
        r matches Err(err) ==> {
            &&& err == crate::error::plain::<S>(ErrorKind::UserAbsoluteUriRequired)
            &&& final(uri)@ == old(uri)@
        },
{
    let scheme: Option<Scheme> = match uri.scheme() {
        Some(scheme) => Some(scheme.clone()),
        None => None,
    };
    let authority: Option<Authority> = match uri.authority() {
        Some(authority) => Some(authority.clone()),
        None => None,
    };
    match (scheme, authority) {
        (Some(scheme), Some(authority)) => Ok((scheme, authority)),
        (None, Some(authority)) => {
            if !is_http_connect {
                return Err(Error::new(ErrorKind::UserAbsoluteUriRequired));
            }
            let scheme = match authority.port_u16() {
                Some(443) => Scheme::https(),
                _ => Scheme::http(),
            };
            set_scheme(uri, scheme.clone());
            Ok((scheme, authority))
        },
        _ => Err(Error::new(ErrorKind::UserAbsoluteUriRequired)),
    }
}

/// The URI to connect to for a destination.
pub fn domain_as_uri(key: PoolKey) -> (r: Uri)
    ensures
        r@ == destination(key.0@, key.1@),
{
    let parts = Parts {
        scheme: Some(key.0),
        authority: Some(key.1),
        path_and_query: Some(PathAndQuery::slash()),
    };
    match Uri::from_parts(parts) {
        Ok(uri) => uri,
        Err(_) => vstd::pervasive::unreached(),
    }
}

/// Gives a scheme and the path that is a slash to a URI that has no scheme.
pub fn set_scheme(uri: &mut Uri, scheme: Scheme)
    requires
        old(uri)@.scheme is None,
        old(uri)@.authority is Some,
    ensures
        final(uri)@ == destination(scheme@, old(uri)@.authority->0),
{
    let authority: Authority = match uri.authority() {
        Some(authority) => authority.clone(),
        None => vstd::pervasive::unreached(),
    };
    let parts = Parts {
        scheme: Some(scheme),
        authority: Some(authority),
        path_and_query: Some(PathAndQuery::slash()),
    };
    *uri = match Uri::from_parts(parts) {
        Ok(uri) => uri,
        Err(_) => vstd::pervasive::unreached(),
    };
}

/// The port of the URI, unless it is the one that its scheme stands for.
pub fn get_non_default_port(uri: &Uri) -> (r: Option<u16>)
    ensures
        r == non_default_port(uri@),
{
    let port = match uri.authority() {
        Some(authority) => authority.port_u16(),
        None => None,
    };
    match (port, is_schema_secure(uri)) {
        (Some(443), true) => None,
        (Some(80), false) => None,
        _ => port,
    }
}

/// Whether the URI goes by a scheme that runs over TLS.
pub fn is_schema_secure(uri: &Uri) -> (r: bool)
    ensures
        r == is_secure(uri@),
{
    match uri.scheme() {
        Some(scheme) => scheme.is("wss") || scheme.is("https"),
        None => false,
    }
}

/// The value of the `Host` header for a request to the URI.
pub fn host_header(uri: &Uri) -> (r: String)
    requires
        uri@.authority is Some,
    ensures
        r@ == host_header_of(uri@),
        is_visible(r@),
{
    let hostname = match uri.authority() {
        Some(authority) => authority.host(),
        None => vstd::pervasive::unreached(),
    };
    match get_non_default_port(uri) {
        Some(port) => {
            proof {
                reveal_strlit(":");
                assert(":"@ =~= seq![':']);
                decimal_visible(port as nat);
            }
            hostname.concat(":").concat(u16_to_string(port).as_str())
        },
        None => hostname,
    }
}

/// Each form stays as it is when it is brought into that form again.
pub proof fn forms_last(uri: UriView)
    ensures
        origin_form_of(origin_form_of(uri)) == origin_form_of(uri),
        absolute_form_of(absolute_form_of(uri)) == absolute_form_of(uri),
        authority_form_of(authority_form_of(uri)) == authority_form_of(uri),
{
}

/// Each form is one that a URI can have, where the URI it is taken from is.
pub proof fn forms_fit(uri: UriView)
    requires
        fit(uri),
        assembled(uri) == uri,
    ensures
        fit(origin_form_of(uri)),
        assembled(origin_form_of(uri)) == origin_form_of(uri),
        fit(absolute_form_of(uri)),
        assembled(absolute_form_of(uri)) == absolute_form_of(uri),
        uri.authority is Some ==> {
            &&& fit(authority_form_of(uri))
            &&& assembled(authority_form_of(uri)) == authority_form_of(uri)
            &&& fit(with_domain(uri))
            &&& assembled(with_domain(uri)) == with_domain(uri)
        },
{
}

/// A URI whose destination was found is absolute, and has that destination from
/// then on, whatever it is asked for.
pub proof fn domain_is_settled(uri: UriView, is_http_connect: bool, later: bool)
    requires
        names_domain(uri, is_http_connect),
    ensures
        with_domain(uri).scheme == Some(domain_scheme(uri)),
        with_domain(uri).authority == uri.authority,
        names_domain(with_domain(uri), later),
        domain_scheme(with_domain(uri)) == domain_scheme(uri),
        with_domain(with_domain(uri)) == with_domain(uri),
{
}

/// What is connected to is the destination that the URI names.
pub proof fn destination_is_that_of_the_uri(uri: UriView, is_http_connect: bool)
    requires
        names_domain(uri, is_http_connect),
    ensures
        destination(domain_scheme(uri), uri.authority->0).scheme == with_domain(uri).scheme,
        destination(domain_scheme(uri), uri.authority->0).authority == with_domain(uri).authority,
        names_domain(destination(domain_scheme(uri), uri.authority->0), false),
{
}

/// A tunnel to port 443 is one over TLS, and any other one is not.
pub proof fn open_scheme_goes_by_the_port(uri: UriView)
    requires
        uri.scheme is None,
        uri.authority is Some,
    ensures
        is_secure(with_domain(uri)) <==> uri_port(uri) == Some(443u16),
{
    reveal_strlit("http");
    reveal_strlit("https");
    reveal_strlit("wss");
    assert("http"@.len() == 4);
    assert("https"@.len() == 5);
    assert("wss"@.len() == 3);
}

/// The port in a `Host` header is that of the URI, and is left out where the
/// scheme stands for it.
pub proof fn host_header_names_the_port(uri: UriView)
    requires
        uri.authority is Some,
    ensures
        uri_port(uri) is None ==> host_header_of(uri) == host_of(uri.authority->0),
        uri_port(uri) == Some(443u16) && is_secure(uri) ==> host_header_of(uri) == host_of(
            uri.authority->0,
        ),
        uri_port(uri) == Some(80u16) && !is_secure(uri) ==> host_header_of(uri) == host_of(
            uri.authority->0,
        ),
        port_of(uri.authority->0) matches Some(port) ==> (port != (if uri.scheme == Some("https"@)
            || uri.scheme == Some("wss"@) {
            443u16
        } else {
            80u16
        }) ==> host_header_of(uri) == host_of(uri.authority->0) + seq![':'] + decimal(
            port as nat,
        )),
        non_default_port(uri) matches Some(port) ==> {
            &&& uri_port(uri) == Some(port)
            &&& host_header_of(uri) == host_of(uri.authority->0) + seq![':'] + decimal(port as nat)
            &&& u16_of(decimal(port as nat)) == Some(port)
        },
{
    if let Some(port) = non_default_port(uri) {
        u16_reads_back(port);
    }
}

} // verus!
