//! The client.

use std::marker::PhantomData;
use std::sync::Arc;

use vstd::prelude::*;
use vstd::utf8::encode_utf8;

use crate::builder::Builder;
use crate::config::{Config, Http1Options, Http2Options};
use crate::connect::ConnectTo;
use crate::error::{plain, Error, ErrorKind};
use crate::forms::{
    absolute_form, absolute_form_of, authority_form, authority_form_of, destination, domain_as_uri,
    domain_scheme, extract_domain, host_header, host_header_of, names_domain, origin_form,
    origin_form_of, with_domain, PoolKey,
};
use crate::headers::{
    header_values, new_headers, or_insert, with_default, Fields, ROOM_FOR_NAMES,
};
use crate::pool::{cloned_option, PoolClient};
use crate::request::{Method, Request, Version};
use crate::uri::{assembled, fit, Uri, UriView};

verus! {

/// A client to make outgoing HTTP requests with bodies of type `B`, over the
/// connections of a connector of type `C` and of a pool of type `P`, which the clones
/// of the client share.
#[derive(Debug)]
pub struct Client<C, B, E, T, P> {
    pub config: Config,
    pub connector: C,
    pub executor: E,
    pub h1: Http1Options,
    pub h2: Http2Options,
    pub h2_timer: Option<T>,
    pub pool: Arc<P>,
    pub body: PhantomData<B>,
}

/// A request that waits for a connection to its destination.
#[derive(Debug)]
pub struct Pending<B> {
    request: Request<B>,
    pool_key: PoolKey,
}

impl<B> View for Pending<B> {
    type V = (Request<B>, PoolKey);

    closed spec fn view(&self) -> (Request<B>, PoolKey) {
        (self.request, self.pool_key)
    }
}

/// Whether the destination is the one that the URI names.
pub open spec fn is_key_of(key: PoolKey, uri: UriView) -> bool {
    uri.scheme == Some(key.0@) && uri.authority == Some(key.1@)
}

impl<B> Pending<B> {
    /// The URI of the request is absolute, and names the destination.
    #[verifier::type_invariant]
    spec fn valid(self) -> bool {
        is_key_of(self.pool_key, self.request.uri@)
    }

    /// The destination, which is that of the request.
    pub fn pool_key(&self) -> (r: &PoolKey)
        ensures
            *r == self@.1,
            is_key_of(*r, self@.0.uri@),
    {
        proof {
            use_type_invariant(self);
        }
        &self.pool_key
    }

    /// The request, whose URI is absolute.
    pub fn request(&self) -> (r: &Request<B>)
        ensures
            *r == self@.0,
            is_key_of(self@.1, r.uri@),
    {
        proof {
            use_type_invariant(self);
        }
        &self.request
    }

    /// Notes where the request goes, for another try.
    pub fn route(&self) -> (r: Route)
        ensures
            r@.0@ == self@.0.uri@,
            r@.1 == self@.1,
    {
        proof {
            use_type_invariant(self);
        }
        Route {
            uri: self.request.uri.clone(),
            pool_key: (self.pool_key.0.clone(), self.pool_key.1.clone()),
        }
    }
}

/// Where a request goes: its URI, before it is brought into the form that a
/// connection takes, and the destination that the URI names.
#[derive(Debug)]
pub struct Route {
    uri: Uri,
    pool_key: PoolKey,
}

impl View for Route {
    type V = (Uri, PoolKey);

    closed spec fn view(&self) -> (Uri, PoolKey) {
        (self.uri, self.pool_key)
    }
}

impl Route {
    #[verifier::type_invariant]
    spec fn valid(self) -> bool {
        is_key_of(self.pool_key, self.uri@)
    }

    /// Puts a request back on its way: whatever its URI was brought into, it has the
    /// one of the route again.
    pub fn pending<B>(self, request: Request<B>) -> (r: Pending<B>)
        ensures
            r@.0 == (Request { uri: self@.0, ..request }),
            r@.1 == self@.1,
    {
        proof {
            use_type_invariant(&self);
        }
        let Route { uri, pool_key } = self;
        let Request { method, uri: _, version, headers, body } = request;
        Pending { request: Request { method, uri, version, headers, body }, pool_key }
    }
}

/// The answer to a request: an error at once, or what waits for a connection.
#[derive(Debug)]
pub struct ResponseFuture<B, S> {
    inner: Result<Pending<B>, Error<S>>,
}

impl<B, S> View for ResponseFuture<B, S> {
    type V = Result<Pending<B>, Error<S>>;

    closed spec fn view(&self) -> Result<Pending<B>, Error<S>> {
        self.inner
    }
}

impl<B, S> ResponseFuture<B, S> {
    /// The answer that is `value`.
    pub fn new(value: Result<Pending<B>, Error<S>>) -> (r: Self)
        ensures
            r@ == value,
    {
        ResponseFuture { inner: value }
    }

    /// The answer to a request that asks for a version of HTTP that no connection
    /// speaks.
    pub fn error_version() -> (r: Self)
        ensures
            r@ == Err::<Pending<B>, Error<S>>(plain(ErrorKind::UserUnsupportedVersion)),
    {
        ResponseFuture::new(Err(Error::new(ErrorKind::UserUnsupportedVersion)))
    }

    /// The error, or what waits for a connection.
    pub fn into_inner(self) -> (r: Result<Pending<B>, Error<S>>)
        ensures
            r == self@,
    {
        self.inner
    }
}

/// Why a request is refused without being sent: no tunnel over HTTP/1.0, no other
/// version than HTTP/1.0, HTTP/1.1 and HTTP/2, and no URI that names no
/// destination.
pub open spec fn refusal(is_connect: bool, version: Version, uri: UriView) -> Option<ErrorKind> {
    if version == Version::Http10 && is_connect {
        Some(ErrorKind::UserUnsupportedRequestMethod)
    } else if version == Version::Http09 || version == Version::Http3 {
        Some(ErrorKind::UserUnsupportedVersion)
    } else if !names_domain(uri, is_connect) {
        Some(ErrorKind::UserAbsoluteUriRequired)
    } else {
        None
    }
}

/// Whether `pending` is the request `req` on its way to its destination.
pub open spec fn is_pending<B>(pending: Pending<B>, req: Request<B>) -> bool {
    let sent = pending@.0;
    let key = pending@.1;
    &&& sent.method == req.method
    &&& sent.version == req.version
    &&& sent.headers == req.headers
    &&& sent.body == req.body
    &&& sent.uri@ == with_domain(req.uri@)
    &&& key.0@ == domain_scheme(req.uri@)
    &&& Some(key.1@) == req.uri@.authority
}

impl<E, T> Client<(), (), E, T, ()> {
    /// Create a builder to configure a new client.
    pub fn builder(executor: E) -> (r: Builder<E, T>)
        ensures
            r.is_new(executor),
            r.valid(),
    {
        Builder::new(executor)
    }
}

impl<C, B, E, T, P> Client<C, B, E, T, P> {
    /// Send a `GET` request to the supplied URI, with the default body.
    pub fn get<S>(&self, uri: Uri) -> (r: ResponseFuture<B, S>) where B: Default
        ensures
            !names_domain(uri@, false) ==> r@ == Err::<Pending<B>, Error<S>>(
                plain(ErrorKind::UserAbsoluteUriRequired),
            ),
            names_domain(uri@, false) ==> (r@ matches Ok(pending) && {
                &&& pending@.0.method is Get
                &&& pending@.0.version == Version::Http11
                &&& header_values(pending@.0.headers) == Fields::empty()
                &&& pending@.0.uri@ == uri@
                &&& call_ensures(B::default, (), pending@.0.body)
                &&& Some(pending@.1.0@) == uri@.scheme
                &&& Some(pending@.1.1@) == uri@.authority
            }),
    {
        let body = B::default();
        let req = Request {
            method: Method::Get,
            uri,
            version: Version::Http11,
            headers: new_headers(),
            body,
        };
        self.request(req)
    }

    /// Send a constructed request using this client.
    pub fn request<S>(&self, req: Request<B>) -> (r: ResponseFuture<B, S>)
        ensures
            refusal(req.method is Connect, req.version, req.uri@) matches Some(kind) ==> r@ == Err::<
                Pending<B>,
                Error<S>,
            >(plain(kind)),
            refusal(req.method is Connect, req.version, req.uri@) is None ==> (r@ matches Ok(pending)
                && is_pending(pending, req)),
    {
        let mut req = req;
        let is_http_connect = req.method.is_connect();
        match req.version {
            Version::Http11 => (),
            Version::Http10 => {
                if is_http_connect {
                    return ResponseFuture::new(
                        Err(Error::new(ErrorKind::UserUnsupportedRequestMethod)),
                    );
                }
            },
            Version::Http2 => (),
            _ => {
                return ResponseFuture::error_version();
            },
        }
        match extract_domain(&mut req.uri, is_http_connect) {
            Ok(pool_key) => ResponseFuture::new(Ok(Pending { request: req, pool_key })),
            Err(err) => ResponseFuture::new(Err(err)),
        }
    }

    /// Prepares a request for the connection that was found for it.
    pub fn send_request<B2, X, S>(&self, pending: Pending<B>, pooled: &PoolClient<B2, X>) -> (r: Outgoing<
        B,
        S,
    >)
        ensures
            prepared(self.config.set_host, pooled.tx is Http1, pooled.conn_info.is_proxied, pending@.0, r),
    {
        proof {
            use_type_invariant(&pending);
        }
        let Pending { request, pool_key: _ } = pending;
        let mut req = request;
        if pooled.is_http1() {
            if req.version == Version::Http2 {
                return Outgoing::Refused(Error::new(ErrorKind::UserUnsupportedVersion));
            }
            if self.config.set_host {
                let host = host_header(&req.uri);
                proof {
                    reveal_strlit("host");
                }
                if !or_insert(&mut req.headers, "host", host.as_str()) {
                    return Outgoing::HeadersFull;
                }
            }
            // A tunnel is always asked for by its authority, so this comes first.
            if req.method.is_connect() {
                authority_form(&mut req.uri);
            } else if pooled.conn_info.is_proxied {
                absolute_form(&mut req.uri);
            } else {
                origin_form(&mut req.uri);
            }
        } else if req.method.is_connect() {
            authority_form(&mut req.uri);
        }
        Outgoing::Ready(req)
    }

    /// The connection to the destination, not started yet.
    pub fn connect_to(&self, pool_key: PoolKey) -> (r: ConnectTo)
        ensures
            r.pool_key == pool_key,
            r.dst@ == destination(pool_key.0@, pool_key.1@),
            r.ver == self.config.ver,
    {
        let dst = domain_as_uri((pool_key.0.clone(), pool_key.1.clone()));
        ConnectTo { pool_key, dst, ver: self.config.ver }
    }
}

/// What comes of a request once there is a connection for it.
#[derive(Debug)]
pub enum Outgoing<B, S> {
    /// The request, as the connection is to be handed it.
    Ready(Request<B>),
    Refused(Error<S>),
    /// The header map of the request has no room for another name.
    HeadersFull,
}

/// The URI that a request is sent with. A tunnel is asked for by its authority.
/// Otherwise HTTP/2 takes the URI as it is, a proxy takes it in its own form, and
/// a server takes the path.
pub open spec fn sent_uri(
    is_connect: bool,
    is_http1: bool,
    is_proxied: bool,
    uri: UriView,
) -> UriView {
    if is_connect {
        authority_form_of(uri)
    } else if !is_http1 {
        uri
    } else if is_proxied {
        absolute_form_of(uri)
    } else {
        origin_form_of(uri)
    }
}

/// The header fields that a request is sent with: over HTTP/1, a `Host` header is
/// added where it is asked for and there is none.
pub open spec fn sent_headers(
    set_host: bool,
    is_http1: bool,
    uri: UriView,
    fields: Fields,
) -> Fields {
    if is_http1 && set_host {
        with_default(fields, "host"@, host_header_of(uri))
    } else {
        fields
    }
}

/// Whether `out` is what comes of the request `req`: it is refused where it asks
/// for HTTP/2 and the connection speaks HTTP/1, and else sent, unless it is to be
/// given a `Host` header and its header map is full. Where it is to be given none, its
/// header map is sent as it is.
pub open spec fn prepared<B, S>(
    set_host: bool,
    is_http1: bool,
    is_proxied: bool,
    req: Request<B>,
    out: Outgoing<B, S>,
) -> bool {
    if is_http1 && req.version == Version::Http2 {
        out == Outgoing::<B, S>::Refused(plain(ErrorKind::UserUnsupportedVersion))
    } else {
        match out {
            Outgoing::Ready(sent) => {
                &&& sent.method == req.method
                &&& sent.version == req.version
                &&& sent.body == req.body
                &&& sent.uri@ == sent_uri(req.method is Connect, is_http1, is_proxied, req.uri@)
                &&& header_values(sent.headers) == sent_headers(
                    set_host,
                    is_http1,
                    req.uri@,
                    header_values(req.headers),
                )
                &&& !(is_http1 && set_host) ==> sent.headers == req.headers
            },
            Outgoing::Refused(_) => false,
            Outgoing::HeadersFull => is_http1 && set_host && header_values(req.headers).len()
                > ROOM_FOR_NAMES,
        }
    }
}

/// `std::sync::Arc::clone`: another pointer to what is shared.
#[verifier::external_body]
fn share<P>(shared: &Arc<P>) -> (r: Arc<P>)
    ensures
        r == *shared,
{
    shared.clone()
}

impl<C: Clone, B, E: Clone, T: Clone, P> Clone for Client<C, B, E, T, P> {
    /// The pool is not cloned: the client and its clone have one pool.
    fn clone(&self) -> (r: Client<C, B, E, T, P>)
        ensures
            r.config == self.config,
            r.h1 == self.h1,
            r.h2 == self.h2,
            r.pool == self.pool,
            cloned(self.connector, r.connector),
            cloned(self.executor, r.executor),
            cloned_option(self.h2_timer, r.h2_timer),
    {
        Client {
            config: self.config,
            connector: self.connector.clone(),
            executor: self.executor.clone(),
            h1: self.h1,
            h2: self.h2,
            h2_timer: match &self.h2_timer {
                Some(timer) => Some(timer.clone()),
                None => None,
            },
            pool: share(&self.pool),
            body: PhantomData,
        }
    }
}

/// Whoever asks for a tunnel over HTTP/1.0 is refused, whatever the URI, and so is
/// a request for a version that is neither HTTP/1 nor HTTP/2.
pub proof fn refused_by_version(is_connect: bool, version: Version, uri: UriView)
    ensures
        refusal(true, Version::Http10, uri) == Some(ErrorKind::UserUnsupportedRequestMethod),
        version == Version::Http09 || version == Version::Http3 ==> refusal(
            is_connect,
            version,
            uri,
        ) == Some(ErrorKind::UserUnsupportedVersion),
        refusal(is_connect, version, uri) is None ==> version == Version::Http10 || version
            == Version::Http11 || version == Version::Http2,
{
}

/// A request is refused for nothing else: it is accepted whenever it asks for HTTP/1.0,
/// without a tunnel, for HTTP/1.1 or for HTTP/2, and its URI has an authority and, unless
/// it asks for a tunnel, a scheme.
pub proof fn accepted_by_version_and_uri(is_connect: bool, version: Version, uri: UriView)
    ensures
        refusal(is_connect, version, uri) is None <==> {
            &&& version == Version::Http10 || version == Version::Http11 || version
                == Version::Http2
            &&& !(version == Version::Http10 && is_connect)
            &&& uri.authority is Some
            &&& uri.scheme is Some || is_connect
        },
{
}

/// What an HTTP/2 connection is handed of a request that asks for no tunnel has the
/// scheme, authority and path of the request, whatever version it asks for, and its
/// header map.
pub proof fn http2_request_keeps_its_uri<B, S>(
    set_host: bool,
    is_proxied: bool,
    req: Request<B>,
    out: Outgoing<B, S>,
)
    requires
        prepared(set_host, false, is_proxied, req, out),
        !(req.method is Connect),
    ensures
        out matches Outgoing::Ready(sent) && {
            &&& sent.uri@ == req.uri@
            &&& sent.headers == req.headers
        },
{
}

/// A request that is not refused has a destination, and is refused no more once the
/// destination was found.
pub proof fn accepted_stays_accepted(is_connect: bool, version: Version, uri: UriView)
    requires
        refusal(is_connect, version, uri) is None,
    ensures
        uri.authority is Some,
        refusal(is_connect, version, with_domain(uri)) is None,
        with_domain(with_domain(uri)) == with_domain(uri),
{
}

/// Where a request that was accepted goes, the target of the request is in the form
/// that is understood there: the authority for a tunnel, the path for an HTTP/1
/// server and for `https` through a proxy, and the whole URI else.
pub proof fn target_is_understood(
    is_connect: bool,
    is_http1: bool,
    is_proxied: bool,
    version: Version,
    uri: UriView,
)
    requires
        refusal(is_connect, version, uri) is None,
        fit(uri),
        assembled(uri) == uri,
    ensures
        ({
            let target = sent_uri(is_connect, is_http1, is_proxied, with_domain(uri));
            &&& fit(target) && assembled(target) == target
            &&& is_connect ==> target == UriView {
                scheme: None,
                authority: uri.authority,
                path_and_query: None,
            }
            &&& !is_connect && is_http1 && (!is_proxied || uri.scheme == Some("https"@)) ==> target
                == UriView { scheme: None, authority: None, path_and_query: uri.path_and_query }
            &&& !is_connect && (!is_http1 || is_proxied && uri.scheme != Some("https"@)) ==> target
                == uri
        }),
{
}

/// A request over HTTP/1 has a `Host` header where the client sets one: its own, or
/// else the one of its destination. No other header field changes.
pub proof fn http1_request_has_host(uri: UriView, fields: Fields)
    ensures
        ({
            let sent = sent_headers(true, true, uri, fields);
            &&& sent.contains_key("host"@)
            &&& fields.contains_key("host"@) ==> sent == fields
            &&& !fields.contains_key("host"@) ==> sent["host"@] == seq![
                encode_utf8(host_header_of(uri)),
            ]
            &&& forall|name: Seq<char>| #![auto]
                name != "host"@ ==> (sent.contains_key(name) <==> fields.contains_key(name))
                    && sent[name] == fields[name]
        }),
        sent_headers(true, true, uri, sent_headers(true, true, uri, fields)) == sent_headers(
            true,
            true,
            uri,
            fields,
        ),
{
}

/// No header field changes over HTTP/2, nor where the client sets no `Host` header.
pub proof fn headers_stay(set_host: bool, is_http1: bool, uri: UriView, fields: Fields)
    requires
        !set_host || !is_http1,
    ensures
        sent_headers(set_host, is_http1, uri, fields) == fields,
{
}

} // verus!
