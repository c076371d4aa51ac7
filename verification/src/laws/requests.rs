//! Requests, and how they are sent.

use vstd::prelude::*;
use vstd::utf8::encode_utf8;

use crate::client::{Client, Outgoing, Pending, ResponseFuture, Route};
use crate::error::{Cause, Error, ErrorKind};
use crate::forms::PoolKey;
use crate::headers::header_values;
use crate::pool::{ClientError, PoolClient};
use crate::request::{Request, Version};
use crate::send::Sent;
use crate::text::decimal;
use crate::uri::{host_of, port_of, Uri};

verus! {

/// A request is accepted if and only if it asks for HTTP/1.0, HTTP/1.1 or HTTP/2, asks
/// for no tunnel over HTTP/1.0, and its URI has an authority and, unless it asks for a
/// tunnel, a scheme.
pub proof fn request_is_accepted<C, B, E, T, P, S>(
    client: &Client<C, B, E, T, P>,
    req: Request<B>,
    answer: ResponseFuture<B, S>,
)
    requires
        call_ensures(Client::<C, B, E, T, P>::request::<S>, (client, req), answer),
    ensures
        answer@ is Ok <==> {
            &&& req.version == Version::Http10 || req.version == Version::Http11 || req.version
                == Version::Http2
            &&& !(req.version == Version::Http10 && req.method is Connect)
            &&& req.uri@.authority is Some
            &&& req.uri@.scheme is Some || req.method is Connect
        },
{
}

/// What a request is answered that is not accepted. What it asks for counts before
/// where it goes.
pub proof fn request_is_refused<C, B, E, T, P, S>(
    client: &Client<C, B, E, T, P>,
    req: Request<B>,
    answer: ResponseFuture<B, S>,
)
    requires
        call_ensures(Client::<C, B, E, T, P>::request::<S>, (client, req), answer),
    ensures
        answer@ matches Err(err) ==> err.source is None,
        answer@ matches Err(err) ==> (err.kind == ErrorKind::UserUnsupportedRequestMethod
            <==> req.version == Version::Http10 && req.method is Connect),
        answer@ matches Err(err) ==> (err.kind == ErrorKind::UserUnsupportedVersion
            <==> req.version == Version::Http09 || req.version == Version::Http3),
        answer@ matches Err(err) ==> (err.kind == ErrorKind::UserAbsoluteUriRequired <==> {
            &&& req.version == Version::Http11 || req.version == Version::Http2 || (req.version
                == Version::Http10 && !(req.method is Connect))
            &&& req.uri@.authority is None || req.uri@.scheme is None && !(req.method is Connect)
        }),
{
}

/// A request that is accepted goes on as it is, to the scheme and authority of its URI.
/// A tunnel that leaves the scheme open goes to `https` if its port is 443, and to
/// `http` otherwise, with the path `/`.
pub proof fn accepted_request_goes_by_its_uri<C, B, E, T, P, S>(
    client: &Client<C, B, E, T, P>,
    req: Request<B>,
    answer: ResponseFuture<B, S>,
)
    requires
        call_ensures(Client::<C, B, E, T, P>::request::<S>, (client, req), answer),
    ensures
        answer@ matches Ok(pending) ==> {
            &&& pending@.0.method == req.method
            &&& pending@.0.version == req.version
            &&& pending@.0.headers == req.headers
            &&& pending@.0.body == req.body
            &&& pending@.0.uri@.authority == req.uri@.authority
            &&& req.uri@.scheme is Some ==> pending@.0.uri@ == req.uri@
            &&& req.uri@.scheme is None ==> pending@.0.uri@.path_and_query == Some(seq!['/'])
            &&& req.uri@.scheme is None && port_of(req.uri@.authority->0) == Some(443u16)
                ==> pending@.0.uri@.scheme == Some("https"@)
            &&& req.uri@.scheme is None && port_of(req.uri@.authority->0) != Some(443u16)
                ==> pending@.0.uri@.scheme == Some("http"@)
            &&& Some(pending@.1.0@) == pending@.0.uri@.scheme
            &&& Some(pending@.1.1@) == req.uri@.authority
        },
{
}

/// To get a URI is to send a request for it: `GET`, HTTP/1.1, without header fields.
pub proof fn get_sends_a_request<C, B: Default, E, T, P, S>(
    client: &Client<C, B, E, T, P>,
    uri: Uri,
    answer: ResponseFuture<B, S>,
)
    requires
        call_ensures(Client::<C, B, E, T, P>::get::<S>, (client, uri), answer),
    ensures
        answer@ is Ok <==> uri@.scheme is Some && uri@.authority is Some,
        answer@ matches Err(err) ==> err.kind == ErrorKind::UserAbsoluteUriRequired && err.source
            is None,
        answer@ matches Ok(pending) ==> {
            &&& pending@.0.method is Get
            &&& pending@.0.version == Version::Http11
            &&& forall|name: Seq<char>| !header_values(pending@.0.headers).contains_key(name)
            &&& call_ensures(B::default, (), pending@.0.body)
            &&& pending@.0.uri@ == uri@
            &&& Some(pending@.1.0@) == uri@.scheme
            &&& Some(pending@.1.1@) == uri@.authority
        },
{
}

/// Two requests that differ in their header fields and bodies alone are both accepted,
/// for one destination, or both refused for one reason.
pub proof fn header_fields_and_body_do_not_count<C, B, E, T, P, S>(
    client: &Client<C, B, E, T, P>,
    req1: Request<B>,
    answer1: ResponseFuture<B, S>,
    req2: Request<B>,
    answer2: ResponseFuture<B, S>,
)
    requires
        req1.method == req2.method,
        req1.version == req2.version,
        req1.uri@ == req2.uri@,
        call_ensures(Client::<C, B, E, T, P>::request::<S>, (client, req1), answer1),
        call_ensures(Client::<C, B, E, T, P>::request::<S>, (client, req2), answer2),
    ensures
        answer1@ is Ok <==> answer2@ is Ok,
        answer1@ is Err ==> answer1@->Err_0 == answer2@->Err_0,
        answer1@ is Ok ==> {
            &&& answer1@->Ok_0@.0.uri@ == answer2@->Ok_0@.0.uri@
            &&& answer1@->Ok_0@.1.0@ == answer2@->Ok_0@.1.0@
            &&& answer1@->Ok_0@.1.1@ == answer2@->Ok_0@.1.1@
        },
{
}

/// A request for HTTP/2 is refused by an HTTP/1 connection, and no other request is
/// refused by any connection.
pub proof fn connection_refuses<C, B, E, T, P, B2, X, S>(
    client: &Client<C, B, E, T, P>,
    pending: Pending<B>,
    pooled: &PoolClient<B2, X>,
    out: Outgoing<B, S>,
)
    requires
        call_ensures(
            Client::<C, B, E, T, P>::send_request::<B2, X, S>,
            (client, pending, pooled),
            out,
        ),
    ensures
        out is Refused <==> pooled.tx is Http1 && pending@.0.version == Version::Http2,
        out matches Outgoing::Refused(err) ==> err.kind == ErrorKind::UserUnsupportedVersion
            && err.source is None,
        out is HeadersFull ==> {
            &&& pooled.tx is Http1
            &&& client.config.set_host
            &&& header_values(pending@.0.headers).len() > 6553
        },
{
}

/// The method, version and body of a request are sent as they are.
pub proof fn request_is_sent_as_it_is<C, B, E, T, P, B2, X, S>(
    client: &Client<C, B, E, T, P>,
    pending: Pending<B>,
    pooled: &PoolClient<B2, X>,
    out: Outgoing<B, S>,
)
    requires
        call_ensures(
            Client::<C, B, E, T, P>::send_request::<B2, X, S>,
            (client, pending, pooled),
            out,
        ),
    ensures
        out matches Outgoing::Ready(sent) ==> {
            &&& sent.method == pending@.0.method
            &&& sent.version == pending@.0.version
            &&& sent.body == pending@.0.body
        },
{
}

/// A tunnel is asked for by its authority alone, on any connection.
pub proof fn tunnel_is_asked_for_by_its_authority<C, B, E, T, P, B2, X, S>(
    client: &Client<C, B, E, T, P>,
    pending: Pending<B>,
    pooled: &PoolClient<B2, X>,
    out: Outgoing<B, S>,
)
    requires
        call_ensures(
            Client::<C, B, E, T, P>::send_request::<B2, X, S>,
            (client, pending, pooled),
            out,
        ),
        pending@.0.method is Connect,
    ensures
        out matches Outgoing::Ready(sent) ==> {
            &&& sent.uri@.scheme is None
            &&& sent.uri@.authority == pending@.0.uri@.authority
            &&& sent.uri@.path_and_query is None
        },
{
}

/// An HTTP/2 connection is handed the scheme, authority and path of every request that
/// asks for no tunnel, whatever version it asks for.
pub proof fn http2_connection_is_handed_the_whole_uri<C, B, E, T, P, B2, X, S>(
    client: &Client<C, B, E, T, P>,
    pending: Pending<B>,
    pooled: &PoolClient<B2, X>,
    out: Outgoing<B, S>,
)
    requires
        call_ensures(
            Client::<C, B, E, T, P>::send_request::<B2, X, S>,
            (client, pending, pooled),
            out,
        ),
        pooled.tx is Http2,
    ensures
        out is Ready,
        !(pending@.0.method is Connect) ==> out->Ready_0.uri@ == pending@.0.uri@,
        out->Ready_0.headers == pending@.0.headers,
{
}

/// An HTTP/1 connection is handed the path of a request that asks for no tunnel, but
/// for a proxy, which is handed the whole URI unless it is for `https`.
pub proof fn http1_connection_is_handed_the_path<C, B, E, T, P, B2, X, S>(
    client: &Client<C, B, E, T, P>,
    pending: Pending<B>,
    pooled: &PoolClient<B2, X>,
    out: Outgoing<B, S>,
)
    requires
        call_ensures(
            Client::<C, B, E, T, P>::send_request::<B2, X, S>,
            (client, pending, pooled),
            out,
        ),
        pooled.tx is Http1,
        !(pending@.0.method is Connect),
    ensures
        out matches Outgoing::Ready(sent) ==> {
            let to_proxy = pooled.conn_info.is_proxied && pending@.0.uri@.scheme != Some("https"@);
            &&& to_proxy ==> sent.uri@ == pending@.0.uri@
            &&& !to_proxy ==> sent.uri@.scheme is None && sent.uri@.authority is None
            &&& !to_proxy ==> sent.uri@.path_and_query is Some
            &&& !to_proxy && pending@.0.uri@.path_and_query is Some ==> sent.uri@.path_and_query
                == pending@.0.uri@.path_and_query
        },
{
}

/// Over HTTP/1, where the client sets it, a request without a `Host` header is given
/// that of its authority: the host, and the port unless it is 443 and the scheme is
/// `https` or `wss`, or 80 and the scheme is another one.
pub proof fn host_is_added_over_http1<C, B, E, T, P, B2, X, S>(
    client: &Client<C, B, E, T, P>,
    pending: Pending<B>,
    pooled: &PoolClient<B2, X>,
    out: Outgoing<B, S>,
)
    requires
        call_ensures(
            Client::<C, B, E, T, P>::send_request::<B2, X, S>,
            (client, pending, pooled),
            out,
        ),
        pooled.tx is Http1,
        client.config.set_host,
        !header_values(pending@.0.headers).contains_key("host"@),
        pending@.0.uri@.authority is Some,
    ensures
        out matches Outgoing::Ready(sent) ==> {
            let uri = pending@.0.uri@;
            let host = host_of(uri.authority->0);
            let secure = uri.scheme == Some("https"@) || uri.scheme == Some("wss"@);
            let fields = header_values(sent.headers);
            &&& fields.contains_key("host"@)
            &&& port_of(uri.authority->0) is None ==> fields["host"@] == seq![encode_utf8(host)]
            &&& forall|port: u16| port_of(uri.authority->0) == Some(port) ==> {
                if secure && port == 443 || !secure && port == 80 {
                    fields["host"@] == seq![encode_utf8(host)]
                } else {
                    fields["host"@] == seq![encode_utf8(host + seq![':'] + decimal(port as nat))]
                }
            }
        },
{
}

/// A `Host` header that is there stays, no other header field changes, and none at all
/// over HTTP/2 or where the client sets no `Host` header.
pub proof fn header_fields_are_sent_as_they_are<C, B, E, T, P, B2, X, S>(
    client: &Client<C, B, E, T, P>,
    pending: Pending<B>,
    pooled: &PoolClient<B2, X>,
    out: Outgoing<B, S>,
)
    requires
        call_ensures(
            Client::<C, B, E, T, P>::send_request::<B2, X, S>,
            (client, pending, pooled),
            out,
        ),
    ensures
        out matches Outgoing::Ready(sent) ==> {
            let before = header_values(pending@.0.headers);
            let after = header_values(sent.headers);
            &&& !client.config.set_host || pooled.tx is Http2 ==> sent.headers == pending@.0.headers
            &&& before.contains_key("host"@) ==> after == before
            &&& forall|name: Seq<char>|
                #![trigger after.contains_key(name)]
                #![trigger before.contains_key(name)]
                name != "host"@ ==> (after.contains_key(name) <==> before.contains_key(name))
            &&& forall|name: Seq<char>|
                #![trigger after[name]]
                #![trigger before[name]]
                before.contains_key(name) ==> after[name] == before[name]
        },
{
}

/// Where a request goes is noted for another try: its URI, and its destination.
pub proof fn route_is_that_of_the_request<B>(pending: &Pending<B>, route: Route)
    requires
        call_ensures(Pending::<B>::route, (pending,), route),
    ensures
        route@.0@ == pending@.0.uri@,
        route@.1 == pending@.1,
{
}

/// A request that a reused connection failed before any of it was written is sent again
/// by a client that retries, whatever its method, and to where it went at first.
pub proof fn unwritten_request_goes_again<C, B, E, T, P, D, S>(
    client: &Client<C, B, E, T, P>,
    route: Route,
    attempt: Result<D, ClientError<B, S>>,
    sent: Sent<D, B, S>,
)
    requires
        call_ensures(
            Client::<C, B, E, T, P>::retryably_send_request::<D, S>,
            (client, route, attempt),
            sent,
        ),
    ensures
        sent is Again <==> {
            &&& client.config.retry_canceled_requests
            &&& attempt matches Err(ClientError::Canceled { connection_reused: true, .. })
        },
        sent matches Sent::Again(pending) ==> {
            &&& pending@.0.method == attempt->Err_0->req.method
            &&& pending@.0.version == attempt->Err_0->req.version
            &&& pending@.0.headers == attempt->Err_0->req.headers
            &&& pending@.0.body == attempt->Err_0->req.body
            &&& pending@.0.uri == route@.0
            &&& pending@.1 == route@.1
        },
{
}

/// A request that is not sent again is answered by what came of it: a response as it
/// is, an error as it is, a canceled error where it was not written and the connection
/// was reused, and an error on the way of the request where the connection was new.
pub proof fn request_is_answered_by_what_came_of_it<C, B, E, T, P, D, S>(
    client: &Client<C, B, E, T, P>,
    route: Route,
    attempt: Result<D, ClientError<B, S>>,
    sent: Sent<D, B, S>,
)
    requires
        call_ensures(
            Client::<C, B, E, T, P>::retryably_send_request::<D, S>,
            (client, route, attempt),
            sent,
        ),
    ensures
        attempt matches Ok(response) ==> sent == Sent::<D, B, S>::Done(Ok(response)),
        attempt matches Err(ClientError::Normal(err)) ==> sent == Sent::<D, B, S>::Done(Err(err)),
        attempt matches Err(ClientError::Canceled { connection_reused, req: _, cause }) ==> {
            &&& connection_reused && !client.config.retry_canceled_requests ==> sent == Sent::<
                D,
                B,
                S,
            >::Done(
                Err(Error { kind: ErrorKind::Canceled, source: Some(Cause::Outside(cause)) }),
            )
            &&& !connection_reused ==> sent == Sent::<D, B, S>::Done(
                Err(Error { kind: ErrorKind::SendRequest, source: Some(Cause::Outside(cause)) }),
            )
        },
{
}

/// A request that waits tells the request and the destination that it was made of, and
/// the destination is the scheme and authority of its URI.
pub proof fn pending_request_tells_its_destination<B>(
    pending: &Pending<B>,
    request: &Request<B>,
    key: &PoolKey,
)
    requires
        call_ensures(Pending::<B>::request, (pending,), request),
        call_ensures(Pending::<B>::pool_key, (pending,), key),
    ensures
        *request == pending@.0,
        *key == pending@.1,
        request.uri@.scheme == Some(key.0@),
        request.uri@.authority == Some(key.1@),
{
}

/// A request that is put back on a route is as it was, but for its URI, which is that of
/// the route.
pub proof fn request_goes_by_its_route<B>(route: Route, request: Request<B>, pending: Pending<B>)
    requires
        call_ensures(Route::pending::<B>, (route, request), pending),
    ensures
        pending@.0.method == request.method,
        pending@.0.version == request.version,
        pending@.0.headers == request.headers,
        pending@.0.body == request.body,
        pending@.0.uri == route@.0,
        pending@.1 == route@.1,
{
}

/// An answer holds what it was made of.
pub proof fn answer_holds_what_it_is_made_of<B, S>(
    value: Result<Pending<B>, Error<S>>,
    answer: ResponseFuture<B, S>,
    inner: Result<Pending<B>, Error<S>>,
    unsupported: ResponseFuture<B, S>,
)
    requires
        call_ensures(ResponseFuture::<B, S>::new, (value,), answer),
        call_ensures(ResponseFuture::<B, S>::into_inner, (answer,), inner),
        call_ensures(ResponseFuture::<B, S>::error_version, (), unsupported),
    ensures
        answer@ == value,
        inner == value,
        unsupported@ == Err::<Pending<B>, Error<S>>(
            Error { kind: ErrorKind::UserUnsupportedVersion, source: None },
        ),
{
}

/// From the request to the connection: whoever asks for no tunnel has the URI of the
/// request handed to an HTTP/2 connection, and its path to an HTTP/1 server.
pub proof fn request_reaches_its_connection<C, B, E, T, P, B2, X, S>(
    client: &Client<C, B, E, T, P>,
    req: Request<B>,
    answer: ResponseFuture<B, S>,
    pooled: &PoolClient<B2, X>,
    out: Outgoing<B, S>,
)
    requires
        call_ensures(Client::<C, B, E, T, P>::request::<S>, (client, req), answer),
        answer@ is Ok,
        call_ensures(
            Client::<C, B, E, T, P>::send_request::<B2, X, S>,
            (client, answer@->Ok_0, pooled),
            out,
        ),
        !(req.method is Connect),
    ensures
        pooled.tx is Http2 ==> out is Ready && out->Ready_0.uri@ == req.uri@,
        out is Ready && pooled.tx is Http1 && !pooled.conn_info.is_proxied ==> {
            &&& out->Ready_0.uri@.scheme is None
            &&& out->Ready_0.uri@.authority is None
            &&& req.uri@.path_and_query is Some ==> out->Ready_0.uri@.path_and_query
                == req.uri@.path_and_query
        },
{
}

/// A request that is sent again reaches a connection of the same kind in the same form
/// as at first, with the same header fields.
pub proof fn second_send_is_as_the_first<C, B, E, T, P, B2, X, D, S>(
    client: &Client<C, B, E, T, P>,
    first: Pending<B>,
    route: Route,
    pooled: &PoolClient<B2, X>,
    sent: Request<B>,
    cause: S,
    again: Pending<B>,
    out: Outgoing<B, S>,
)
    requires
        call_ensures(Pending::<B>::route, (&first,), route),
        call_ensures(
            Client::<C, B, E, T, P>::send_request::<B2, X, S>,
            (client, first, pooled),
            Outgoing::Ready(sent),
        ),
        call_ensures(
            Client::<C, B, E, T, P>::retryably_send_request::<D, S>,
            (
                client,
                route,
                Err(ClientError::Canceled { connection_reused: true, req: sent, cause }),
            ),
            Sent::Again(again),
        ),
        call_ensures(
            Client::<C, B, E, T, P>::send_request::<B2, X, S>,
            (client, again, pooled),
            out,
        ),
    ensures
        again@.0.uri@ == first@.0.uri@,
        again@.1 == first@.1,
        out matches Outgoing::Ready(resent) ==> {
            &&& resent.method == sent.method
            &&& resent.version == sent.version
            &&& resent.body == sent.body
            &&& resent.uri@ == sent.uri@
            &&& header_values(resent.headers) == header_values(sent.headers)
        },
{
}

} // verus!
