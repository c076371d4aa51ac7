use std::future::Future;
use std::io;
use std::pin::Pin;
use std::task::{Context, Poll};

use futures_util::task::noop_waker;
use http_client::builder::Builder;
use http_client::client::{Client, Outgoing, Pending};
use http_client::config::Ver;
use http_client::connect::{Handshaking, Negotiated, ALPN_UPGRADED};
use http_client::error::{Cause, Error, ErrorKind};
use http_client::forms::PoolKey;
use http_client::pool::{
    release, Alpn, ClientError, Connected, Handed, PoolClient, PoolTx, Release, Reservation,
};
use http_client::request::{Method, Request, Version};
use http_client::send::Sent;
use http_client::uri::{Authority, Parts, PathAndQuery, Scheme, Uri};
use hyper::body::{Body, Bytes, Frame};
use hyper::client::conn::{http1, http2};

/// A body without data.
#[derive(Debug)]
struct Empty;

impl Body for Empty {
    type Data = Bytes;
    type Error = io::Error;

    fn poll_frame(
        self: Pin<&mut Self>,
        _: &mut Context<'_>,
    ) -> Poll<Option<Result<Frame<Bytes>, io::Error>>> {
        Poll::Ready(None)
    }
}

/// A socket that takes what is written and never has anything to read.
struct Socket;

impl hyper::rt::Read for Socket {
    fn poll_read(
        self: Pin<&mut Self>,
        _: &mut Context<'_>,
        _: hyper::rt::ReadBufCursor<'_>,
    ) -> Poll<Result<(), io::Error>> {
        Poll::Pending
    }
}

impl hyper::rt::Write for Socket {
    fn poll_write(
        self: Pin<&mut Self>,
        _: &mut Context<'_>,
        buf: &[u8],
    ) -> Poll<Result<usize, io::Error>> {
        Poll::Ready(Ok(buf.len()))
    }

    fn poll_flush(self: Pin<&mut Self>, _: &mut Context<'_>) -> Poll<Result<(), io::Error>> {
        Poll::Ready(Ok(()))
    }

    fn poll_shutdown(self: Pin<&mut Self>, _: &mut Context<'_>) -> Poll<Result<(), io::Error>> {
        Poll::Ready(Ok(()))
    }
}

/// An executor that drops what it is given.
#[derive(Clone)]
struct Idle;

impl<F> hyper::rt::Executor<F> for Idle {
    fn execute(&self, _: F) {}
}

fn poll_once<F: Future>(fut: Pin<&mut F>) -> Poll<F::Output> {
    let waker = noop_waker();
    fut.poll(&mut Context::from_waker(&waker))
}

fn now<F: Future>(fut: F) -> F::Output {
    let mut fut = Box::pin(fut);
    match poll_once(fut.as_mut()) {
        Poll::Ready(out) => out,
        Poll::Pending => panic!("pending"),
    }
}

fn http1_sender() -> (http1::SendRequest<Empty>, http1::Connection<Socket, Empty>) {
    now(http1::handshake(Socket)).unwrap()
}

fn http2_sender() -> (http2::SendRequest<Empty>, http2::Connection<Socket, Empty, Idle>) {
    now(http2::handshake(Idle, Socket)).unwrap()
}

fn info(alpn: Alpn, is_proxied: bool) -> Connected<&'static str> {
    Connected { alpn, is_proxied, extra: Some("extra") }
}

fn http1_client(is_proxied: bool) -> PoolClient<Empty, &'static str> {
    PoolClient { conn_info: info(Alpn::Other, is_proxied), tx: PoolTx::Http1(http1_sender().0) }
}

fn http2_client(is_proxied: bool) -> PoolClient<Empty, &'static str> {
    PoolClient { conn_info: info(Alpn::H2, is_proxied), tx: PoolTx::Http2(http2_sender().0) }
}

fn uri(scheme: Option<&str>, authority: Option<&str>, path: Option<&str>) -> Uri {
    Uri::from_parts(Parts {
        scheme: scheme.map(|s| Scheme::parse(s).unwrap()),
        authority: authority.map(|s| Authority::parse(s).unwrap()),
        path_and_query: path.map(|s| PathAndQuery::parse(s).unwrap()),
    })
    .unwrap()
}

fn text(uri: &Uri) -> (Option<&str>, Option<&str>, Option<&str>) {
    (
        uri.scheme().map(|s| s.as_str()),
        uri.authority().map(|a| a.as_str()),
        uri.path_and_query().map(|p| p.as_str()),
    )
}

fn client() -> Client<(), u8, (), (), ()> {
    Builder::new(()).build((), |_, _| ())
}

fn request(method: Method, version: Version, uri: Uri) -> Request<u8> {
    Request { method, uri, version, headers: http::HeaderMap::new(), body: 5 }
}

fn accepted(req: Request<u8>) -> Pending<u8> {
    let answer: Result<Pending<u8>, Error<()>> = client().request(req).into_inner();
    answer.unwrap()
}

fn refused(req: Request<u8>) -> ErrorKind {
    let answer: Result<Pending<u8>, Error<()>> = client().request(req).into_inner();
    let err = answer.unwrap_err();
    assert!(err.source().is_none());
    err.kind
}

fn absolute() -> Uri {
    uri(Some("http"), Some("a.com:8080"), Some("/p?q"))
}

fn ready(out: Outgoing<u8, ()>) -> Request<u8> {
    match out {
        Outgoing::Ready(req) => req,
        _ => panic!("not ready"),
    }
}

fn host(req: &Request<u8>) -> Vec<String> {
    req.headers.get_all(http::header::HOST).iter().map(|v| v.to_str().unwrap().to_string()).collect()
}

#[test]
fn requests_are_refused() {
    let connect = || uri(None, Some("a.com:443"), None);
    assert_eq!(
        refused(request(Method::Connect, Version::Http10, connect())),
        ErrorKind::UserUnsupportedRequestMethod
    );
    assert_eq!(
        refused(request(Method::Get, Version::Http09, absolute())),
        ErrorKind::UserUnsupportedVersion
    );
    assert_eq!(
        refused(request(Method::Connect, Version::Http3, connect())),
        ErrorKind::UserUnsupportedVersion
    );
    assert_eq!(
        refused(request(Method::Get, Version::Http11, connect())),
        ErrorKind::UserAbsoluteUriRequired
    );
    assert_eq!(
        refused(request(Method::Connect, Version::Http11, Uri::default())),
        ErrorKind::UserAbsoluteUriRequired
    );
}

#[test]
fn requests_are_accepted() {
    for version in [Version::Http10, Version::Http11, Version::Http2] {
        let pending = accepted(request(Method::named("X"), version, absolute()));
        assert_eq!(pending.pool_key().0.as_str(), "http");
        assert_eq!(pending.pool_key().1.as_str(), "a.com:8080");
        assert_eq!(pending.request().version, version);
        assert_eq!(pending.request().body, 5);
        assert_eq!(pending.request().method.as_str(), "X");
        assert_eq!(
            text(&pending.request().uri),
            (Some("http"), Some("a.com:8080"), Some("/p?q"))
        );
    }
    let tunnel = uri(None, Some("a.com:443"), None);
    let pending = accepted(request(Method::Connect, Version::Http2, tunnel));
    assert_eq!(pending.pool_key().0.as_str(), "https");
    assert_eq!(text(&pending.request().uri), (Some("https"), Some("a.com:443"), Some("/")));
}

#[test]
fn get_is_a_request() {
    let answer: Result<Pending<u8>, Error<()>> = client().get(absolute()).into_inner();
    let pending = answer.unwrap();
    assert!(matches!(pending.request().method, Method::Get));
    assert_eq!(pending.request().version, Version::Http11);
    assert!(pending.request().headers.is_empty());
    assert_eq!(pending.request().body, 0);
    assert_eq!(pending.pool_key().1.as_str(), "a.com:8080");
    let answer: Result<Pending<u8>, Error<()>> = client().get(Uri::default()).into_inner();
    assert_eq!(answer.unwrap_err().kind, ErrorKind::UserAbsoluteUriRequired);
}

#[test]
fn http1_server_is_sent_the_path() {
    let pending = accepted(request(Method::Get, Version::Http11, absolute()));
    let req = ready(client().send_request(pending, &http1_client(false)));
    assert_eq!(text(&req.uri), (None, None, Some("/p?q")));
    assert_eq!(host(&req), ["a.com:8080"]);
    assert_eq!(req.body, 5);
}

#[test]
fn http1_proxy_is_sent_the_uri() {
    let pending = accepted(request(Method::Post, Version::Http10, absolute()));
    let req = ready(client().send_request(pending, &http1_client(true)));
    assert_eq!(text(&req.uri), (Some("http"), Some("a.com:8080"), Some("/p?q")));
    assert_eq!(host(&req), ["a.com:8080"]);
    let https = uri(Some("https"), Some("a.com:443"), Some("/p"));
    let pending = accepted(request(Method::Post, Version::Http11, https));
    let req = ready(client().send_request(pending, &http1_client(true)));
    assert_eq!(text(&req.uri), (None, None, Some("/p")));
    assert_eq!(host(&req), ["a.com"]);
}

#[test]
fn tunnel_is_sent_the_authority() {
    for conn in [http1_client(false), http1_client(true), http2_client(true)] {
        let pending =
            accepted(request(Method::Connect, Version::Http11, uri(None, Some("a.com:443"), None)));
        let req = ready(client().send_request(pending, &conn));
        assert_eq!(text(&req.uri), (None, Some("a.com:443"), None));
        if conn.is_http1() {
            assert_eq!(host(&req), ["a.com"]);
        } else {
            assert!(req.headers.is_empty());
        }
    }
}

#[test]
fn http2_is_sent_the_uri() {
    for is_proxied in [false, true] {
        let pending = accepted(request(Method::Get, Version::Http2, absolute()));
        let req = ready(client().send_request(pending, &http2_client(is_proxied)));
        assert_eq!(text(&req.uri), (Some("http"), Some("a.com:8080"), Some("/p?q")));
        assert!(req.headers.is_empty());
    }
}

#[test]
fn http2_request_needs_an_http2_connection() {
    let pending = accepted(request(Method::Get, Version::Http2, absolute()));
    let out: Outgoing<u8, ()> = client().send_request(pending, &http1_client(false));
    match out {
        Outgoing::Refused(err) => assert_eq!(err.kind, ErrorKind::UserUnsupportedVersion),
        _ => panic!("not refused"),
    }
}

#[test]
fn host_of_the_request_is_kept() {
    let mut req = request(Method::Get, Version::Http11, absolute());
    req.headers.append(http::header::HOST, "b.com".parse().unwrap());
    req.headers.append(http::header::HOST, "c.com".parse().unwrap());
    req.headers.append(http::header::ACCEPT, "*/*".parse().unwrap());
    let req = ready(client().send_request(accepted(req), &http1_client(false)));
    assert_eq!(host(&req), ["b.com", "c.com"]);
    assert_eq!(req.headers.len(), 3);
}

#[test]
fn host_is_not_set() {
    let mut builder: Builder<(), ()> = Builder::new(());
    builder.set_host(false);
    let client: Client<(), u8, (), (), ()> = builder.build((), |_, _| ());
    let pending = accepted(request(Method::Get, Version::Http11, absolute()));
    let req = ready(client.send_request(pending, &http1_client(false)));
    assert!(req.headers.is_empty());
}

#[test]
fn full_headers_have_no_room() {
    for (names, fits) in [(6553, true), (24_575, true), (24_576, false)] {
        let mut req = request(Method::Get, Version::Http11, absolute());
        for i in 0..names {
            let name = http::HeaderName::from_bytes(format!("x-{}", i).as_bytes()).unwrap();
            req.headers.insert(name, http::HeaderValue::from_static("v"));
        }
        assert_eq!(req.headers.keys_len(), names);
        let out: Outgoing<u8, ()> = client().send_request(accepted(req), &http1_client(false));
        match out {
            Outgoing::Ready(req) => {
                assert!(fits);
                assert_eq!(host(&req), ["a.com:8080"]);
            }
            Outgoing::HeadersFull => assert!(!fits),
            Outgoing::Refused(_) => panic!("refused"),
        }
    }
}

#[test]
fn protocols_of_connections() {
    let conn = http1_client(false);
    assert!(conn.is_http1() && !conn.is_http2() && !conn.can_share());
    let conn = http2_client(false);
    assert!(!conn.is_http1() && conn.is_http2() && conn.can_share());
}

#[test]
fn http1_connection_tells_its_state() {
    let (tx, conn) = http1_sender();
    let client = PoolClient { conn_info: info(Alpn::Other, false), tx: PoolTx::Http1(tx) };
    assert!(!client.is_ready());
    assert!(!client.is_open());
    assert!(!client.is_closed());
    let mut conn = Box::pin(conn);
    assert!(poll_once(conn.as_mut()).is_pending());
    assert!(client.is_ready());
    assert!(client.is_open());
    drop(conn);
    assert!(client.is_closed());
    assert!(!client.is_ready());
}

#[test]
fn http2_connection_tells_its_state() {
    let (tx, conn) = http2_sender();
    let client = PoolClient { conn_info: info(Alpn::H2, false), tx: PoolTx::Http2(tx) };
    assert!(client.is_ready());
    assert!(!client.is_closed());
    drop(conn);
    assert!(client.is_closed());
    assert!(!client.is_open());
}

#[test]
fn http1_connection_is_not_shared() {
    match http1_client(true).reserve() {
        Reservation::Unique(conn) => {
            assert!(conn.is_http1());
            assert!(conn.conn_info.is_proxied);
            assert_eq!(conn.conn_info.extra, Some("extra"));
        }
        Reservation::Shared(..) => panic!("shared"),
    }
}

#[test]
fn http2_connection_is_shared() {
    let (tx, conn) = http2_sender();
    let client = PoolClient { conn_info: info(Alpn::H2, true), tx: PoolTx::Http2(tx) };
    match client.reserve() {
        Reservation::Unique(_) => panic!("unique"),
        Reservation::Shared(a, b) => {
            for client in [&a, &b] {
                assert!(client.is_http2() && client.is_ready());
                assert!(client.conn_info.is_proxied);
                assert_eq!(client.conn_info.alpn, Alpn::H2);
                assert_eq!(client.conn_info.extra, Some("extra"));
            }
            drop(conn);
            assert!(a.is_closed() && b.is_closed());
        }
    }
}

#[test]
fn readiness_of_connections() {
    let conn = http1_client(false);
    assert!(conn.poll_ready::<u8>(None).is_none());
    assert!(matches!(conn.poll_ready::<u8>(Some(Ok(()))), Some(Ok(()))));
    let err = conn.poll_ready(Some(Err(3u8))).unwrap().unwrap_err();
    assert_eq!(err.kind, ErrorKind::ChannelClosed);
    assert!(matches!(err.source(), Some(Cause::Outside(3))));
    assert!(matches!(http2_client(false).poll_ready::<u8>(None), Some(Ok(()))));
}

#[test]
fn answers_of_connections() {
    let conn = http1_client(false);
    let answer: Result<u16, ClientError<(), u8>> = conn.send_request(true, Handed::Answered(200));
    assert_eq!(answer.unwrap(), 200);
    for reused in [false, true] {
        let failed: Handed<(), u8, u8> = Handed::Failed { cause: 4, unwritten: None };
        match conn.send_request(reused, failed).unwrap_err() {
            ClientError::Normal(err) => {
                assert_eq!(err.kind, ErrorKind::SendRequest);
                assert!(matches!(err.source(), Some(Cause::Outside(4))));
            }
            ClientError::Canceled { .. } => panic!("canceled"),
        }
        let req = request(Method::Get, Version::Http11, absolute());
        let failed: Handed<(), u8, u8> = Handed::Failed { cause: 4, unwritten: Some(req) };
        match conn.send_request(reused, failed).unwrap_err() {
            ClientError::Canceled { connection_reused, req, cause } => {
                assert_eq!(connection_reused, reused);
                assert_eq!(req.body, 5);
                assert_eq!(cause, 4);
            }
            ClientError::Normal(_) => panic!("normal"),
        }
    }
}

#[test]
fn release_of_connections() {
    for http2 in [false, true] {
        for enabled in [false, true] {
            for ready in [false, true] {
                let expected = if !http2 && enabled && !ready {
                    Release::WhenReady
                } else {
                    Release::Now
                };
                assert_eq!(release(http2, enabled, ready), expected);
            }
        }
    }
}

fn answered<R>(response: R) -> Handed<R, u8, u8> {
    Handed::Answered(response)
}

#[test]
fn response_is_delivered() {
    let (tx, conn) = http1_sender();
    let client = PoolClient { conn_info: info(Alpn::Other, false), tx: PoolTx::Http1(tx) };
    let done = client.sent().finish(&client, false, true, answered("response")).unwrap();
    assert_eq!(done.response, "response");
    assert_eq!(done.extra, Some("extra"));
    assert_eq!(done.release, Release::WhenReady);
    let done = client.sent().finish(&client, false, false, answered(())).unwrap();
    assert_eq!(done.release, Release::Now);
    let mut conn = Box::pin(conn);
    assert!(poll_once(conn.as_mut()).is_pending());
    let done = client.sent().finish(&client, true, true, answered(())).unwrap();
    assert_eq!(done.release, Release::Now);
    let failed: Handed<(), u8, u8> = Handed::Failed { cause: 6, unwritten: None };
    match client.sent().finish(&client, true, true, failed).unwrap_err() {
        ClientError::Normal(err) => assert_eq!(err.kind, ErrorKind::SendRequest),
        ClientError::Canceled { .. } => panic!("canceled"),
    }
    drop(conn);
    let exchange = client.sent();
    assert!(exchange.closed);
    let done = exchange.finish(&client, true, true, answered(())).unwrap();
    assert_eq!(done.release, Release::Now);
    assert_eq!(done.extra, Some("extra"));
}

fn key() -> PoolKey {
    (Scheme::https(), Authority::parse("a.com").unwrap())
}

fn client_for(http2_only: bool) -> Client<(), u8, (), (), ()> {
    let mut builder: Builder<(), ()> = Builder::new(());
    builder.http2_only(http2_only);
    builder.build((), |_, _| ())
}

#[test]
fn connecting_starts_with_a_lock() {
    let plan = client_for(true).connect_to(key());
    assert_eq!(text(&plan.dst), (Some("https"), Some("a.com"), Some("/")));
    assert_eq!(plan.ver, Ver::Http2);
    assert_eq!(plan.pool_key.1.as_str(), "a.com");
    let err = plan.locked::<u8, ()>(None).unwrap_err();
    assert!(err.is_canceled());
    assert!(err.source().is_none());
    let dialing = client_for(false).connect_to(key()).locked::<_, ()>(Some(1u8)).unwrap();
    assert_eq!(dialing.lock, 1);
    assert_eq!(dialing.ver, Ver::Auto);
    assert_eq!(text(&dialing.dst), (Some("https"), Some("a.com"), Some("/")));
}

#[test]
fn connector_fails() {
    let dialing = client_for(false).connect_to(key()).locked::<_, u8>(Some(1u8)).unwrap();
    let err = dialing.connected::<(), _>(Err(9)).unwrap_err();
    assert_eq!(err.kind, ErrorKind::Connect);
    assert!(matches!(err.source(), Some(Cause::Outside(9))));
}

fn negotiated(http2_only: bool, alpn: Alpn) -> Negotiated<u8, &'static str> {
    let dialing = client_for(http2_only).connect_to(key()).locked::<_, u8>(Some(1u8)).unwrap();
    dialing.connected::<_, u8>(Ok(info(alpn, false))).unwrap()
}

#[test]
fn protocol_is_negotiated() {
    for (http2_only, alpn, is_h2) in
        [(false, Alpn::Other, false), (true, Alpn::Other, true), (true, Alpn::H2, true)]
    {
        match negotiated(http2_only, alpn) {
            Negotiated::Settled(handshaking) => {
                assert_eq!(handshaking.is_h2, is_h2);
                assert_eq!(handshaking.lock, 1);
                assert_eq!(handshaking.connected.alpn, alpn);
            }
            Negotiated::Upgrade { .. } => panic!("upgrade"),
        }
    }
}

#[test]
fn lock_is_upgraded() {
    let upgrade = || match negotiated(false, Alpn::H2) {
        Negotiated::Settled(_) => panic!("settled"),
        Negotiated::Upgrade { lock, connected } => (lock, connected),
    };
    let (lock, connected) = upgrade();
    assert_eq!(lock, 1);
    let handshaking = Handshaking::upgraded::<()>(connected, Some(2u8)).unwrap();
    assert!(handshaking.is_h2);
    assert_eq!(handshaking.lock, 2);
    let err = Handshaking::<u8, _>::upgraded::<()>(upgrade().1, None).unwrap_err();
    assert!(err.is_canceled());
    assert!(matches!(err.source(), Some(Cause::Message(m)) if *m == ALPN_UPGRADED));
    assert_eq!(ALPN_UPGRADED, "ALPN upgraded to HTTP/2");
}

#[test]
fn handshakes_give_connections() {
    let handshaking = |is_h2: bool| Handshaking { lock: 1u8, connected: info(Alpn::Other, true), is_h2 };
    let readying = handshaking(false).http1::<_, u8>(Ok(http1_sender().0)).unwrap();
    let (lock, client) = readying.ready::<u8>(Ok(())).unwrap();
    assert_eq!(lock, 1);
    assert!(client.is_http1() && client.conn_info.is_proxied);
    let readying = handshaking(true).http2::<_, u8>(Ok(http2_sender().0)).unwrap();
    let (_, client) = readying.ready::<u8>(Ok(())).unwrap();
    assert!(client.is_http2());
}

#[test]
fn handshakes_fail() {
    let handshaking = |is_h2: bool| Handshaking { lock: 1u8, connected: info(Alpn::Other, true), is_h2 };
    let err = handshaking(false).http1::<Empty, _>(Err(1u8)).unwrap_err();
    assert_eq!(err.kind, ErrorKind::SendRequest);
    assert!(matches!(err.source(), Some(Cause::Outside(1))));
    let err = handshaking(true).http2::<Empty, _>(Err(2u8)).unwrap_err();
    assert_eq!(err.kind, ErrorKind::SendRequest);
    let readying = handshaking(false).http1::<_, u8>(Ok(http1_sender().0)).unwrap();
    let err = readying.ready(Err(3u8)).unwrap_err();
    assert_eq!(err.kind, ErrorKind::SendRequest);
    assert!(matches!(err.source(), Some(Cause::Outside(3))));
}

#[test]
fn accepted_request_is_accepted_again() {
    let tunnel = uri(None, Some("a.com:8443"), None);
    let first = accepted(request(Method::Connect, Version::Http11, tunnel));
    let again = first.request().uri.clone();
    let second = accepted(request(Method::Connect, Version::Http11, again));
    assert_eq!(text(&second.request().uri), (Some("http"), Some("a.com:8443"), Some("/")));
    assert_eq!(second.pool_key().0.as_str(), first.pool_key().0.as_str());
    assert_eq!(second.pool_key().1.as_str(), first.pool_key().1.as_str());
}

/// Takes all steps to a connection, each of which succeeds.
fn connect(http2_only: bool, alpn: Alpn) -> (u8, PoolClient<Empty, &'static str>) {
    let handshaking = match negotiated(http2_only, alpn) {
        Negotiated::Settled(handshaking) => handshaking,
        Negotiated::Upgrade { lock: _, connected } => {
            Handshaking::upgraded::<u8>(connected, Some(2)).unwrap()
        }
    };
    let readying = if handshaking.is_h2 {
        handshaking.http2::<_, u8>(Ok(http2_sender().0)).unwrap()
    } else {
        handshaking.http1::<_, u8>(Ok(http1_sender().0)).unwrap()
    };
    readying.ready::<u8>(Ok(())).unwrap()
}

#[test]
fn all_steps_give_a_connection() {
    for (http2_only, alpn, lock, is_h2) in [
        (false, Alpn::Other, 1, false),
        (false, Alpn::H2, 2, true),
        (true, Alpn::Other, 1, true),
        (true, Alpn::H2, 1, true),
    ] {
        let (held, client) = connect(http2_only, alpn);
        assert_eq!(held, lock);
        assert_eq!(client.is_http2(), is_h2);
        assert_eq!(client.conn_info.alpn, alpn);
    }
}

#[test]
fn methods_go_by_their_names() {
    for name in ["OPTIONS", "GET", "POST", "PUT", "DELETE", "HEAD", "TRACE", "CONNECT", "PATCH"] {
        let method = Method::named(name);
        assert_eq!(method.as_str(), name);
        assert_eq!(method.is_connect(), name == "CONNECT");
        assert!(!matches!(method, Method::Extension(_)));
    }
    for name in ["connect", "PURGE", ""] {
        let method = Method::named(name);
        assert_eq!(method.as_str(), name);
        assert!(!method.is_connect());
        assert!(matches!(method, Method::Extension(_)));
    }
}

fn client_that_retries(retry: bool) -> Client<(), u8, (), (), ()> {
    let mut builder: Builder<(), ()> = Builder::new(());
    builder.retry_canceled_requests(retry);
    builder.build((), |_, _| ())
}

/// Sends a request over a connection that fails. It gives the request back, where
/// `unwritten` holds.
fn send_over_failing(
    client: &Client<(), u8, (), (), ()>,
    pending: Pending<u8>,
    reused: bool,
    unwritten: bool,
) -> Sent<&'static str, u8, u8> {
    let pooled = http1_client(false);
    let route = pending.route();
    let req = ready(client.send_request(pending, &pooled));
    assert_eq!(text(&req.uri), (None, None, Some("/p?q")));
    let unwritten = if unwritten { Some(req) } else { None };
    let failed: Handed<&'static str, u8, u8> = Handed::Failed { cause: 6, unwritten };
    let attempt = pooled.sent().finish(&pooled, reused, true, failed);
    client.retryably_send_request(route, attempt.map(|done| done.response))
}

#[test]
fn unwritten_request_is_sent_again() {
    let client = client_that_retries(true);
    let pending = accepted(request(Method::Post, Version::Http11, absolute()));
    let again = match send_over_failing(&client, pending, true, true) {
        Sent::Again(again) => again,
        Sent::Done(_) => panic!("done"),
    };
    assert_eq!(text(&again.request().uri), (Some("http"), Some("a.com:8080"), Some("/p?q")));
    assert_eq!(again.pool_key().0.as_str(), "http");
    assert_eq!(again.pool_key().1.as_str(), "a.com:8080");
    assert_eq!(again.request().method.as_str(), "POST");
    assert_eq!(again.request().version, Version::Http11);
    assert_eq!(again.request().body, 5);

    let pooled = http1_client(false);
    let route = again.route();
    let req = ready(client.send_request(again, &pooled));
    assert_eq!(text(&req.uri), (None, None, Some("/p?q")));
    assert_eq!(host(&req), ["a.com:8080"]);
    let attempt = pooled.sent().finish(&pooled, false, true, answered("response"));
    match client.retryably_send_request(route, attempt.map(|done| done.response)) {
        Sent::Done(outcome) => assert_eq!(outcome.unwrap(), "response"),
        Sent::Again(_) => panic!("again"),
    }
}

#[test]
fn request_is_not_sent_again() {
    for (retry, reused, unwritten, kind) in [
        (false, true, true, ErrorKind::Canceled),
        (false, false, true, ErrorKind::SendRequest),
        (false, true, false, ErrorKind::SendRequest),
        (false, false, false, ErrorKind::SendRequest),
        (true, false, true, ErrorKind::SendRequest),
        (true, true, false, ErrorKind::SendRequest),
        (true, false, false, ErrorKind::SendRequest),
    ] {
        let client = client_that_retries(retry);
        let pending = accepted(request(Method::Get, Version::Http11, absolute()));
        match send_over_failing(&client, pending, reused, unwritten) {
            Sent::Done(Err(err)) => {
                assert_eq!(err.kind, kind);
                assert!(matches!(err.source(), Some(Cause::Outside(6))));
            }
            _ => panic!("not answered by an error"),
        }
    }
    let client = client_that_retries(true);
    let pending = accepted(request(Method::Get, Version::Http11, absolute()));
    let err: ClientError<u8, u8> = ClientError::Normal(Error::with(ErrorKind::Connect, 7));
    match client.retryably_send_request::<(), u8>(pending.route(), Err(err)) {
        Sent::Done(Err(err)) => assert_eq!(err.kind, ErrorKind::Connect),
        _ => panic!("not answered by an error"),
    }
}

#[test]
fn closed_connection_gives_the_request_back() {
    let (mut tx, conn) = http1_sender();
    drop(conn);
    let mut err = now(tx.try_send_request(http::Request::new(Empty))).unwrap_err();
    assert!(err.take_message().is_some());
}

#[test]
fn header_map_is_sent_as_it_is() {
    let mut builder: Builder<(), ()> = Builder::new(());
    builder.set_host(false);
    let without_host: Client<(), u8, (), (), ()> = builder.build((), |_, _| ());
    for (client, pooled) in
        [(client(), http2_client(false)), (without_host, http1_client(false))]
    {
        let mut req = request(Method::Get, Version::Http11, absolute());
        for (name, value) in [("x-b", "1"), ("x-a", "2"), ("x-b", "3"), ("accept", "4")] {
            let value = http::HeaderValue::from_str(value).unwrap();
            req.headers.append(http::HeaderName::from_bytes(name.as_bytes()).unwrap(), value);
        }
        let expected = req.headers.clone();
        let sent = ready(client.send_request(accepted(req), &pooled));
        let fields = |headers: &http::HeaderMap| -> Vec<(String, String)> {
            headers
                .iter()
                .map(|(name, value)| (name.to_string(), value.to_str().unwrap().to_string()))
                .collect()
        };
        assert_eq!(fields(&sent.headers), fields(&expected));
        assert_eq!(sent.headers.len(), 4);
    }
}
