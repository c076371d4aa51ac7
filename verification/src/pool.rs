//! Connections that a client sends requests on.

use vstd::prelude::*;

use crate::error::{caused, Error, ErrorKind};
use crate::request::Request;

verus! {

/// The sending side of an HTTP/1 connection.
#[verifier::external_type_specification]
#[verifier::external_body]
#[verifier::reject_recursive_types(B)]
pub struct ExHttp1Sender<B>(hyper::client::conn::http1::SendRequest<B>);

/// The sending side of an HTTP/2 connection.
#[verifier::external_type_specification]
#[verifier::external_body]
#[verifier::reject_recursive_types(B)]
pub struct ExHttp2Sender<B>(hyper::client::conn::http2::SendRequest<B>);

/// `hyper`'s `is_ready` of an HTTP/1 connection: a hint on the state of the
/// connection at the moment, of which nothing is claimed.
pub assume_specification<B>[ hyper::client::conn::http1::SendRequest::<B>::is_ready ](
    tx: &hyper::client::conn::http1::SendRequest<B>,
) -> (r: bool)
;

/// `hyper`'s `is_closed` of an HTTP/1 connection: the state of the connection at
/// the moment, of which nothing is claimed.
pub assume_specification<B>[ hyper::client::conn::http1::SendRequest::<B>::is_closed ](
    tx: &hyper::client::conn::http1::SendRequest<B>,
) -> (r: bool)
;

/// `hyper`'s `is_ready` of an HTTP/2 connection: a hint on the state of the
/// connection at the moment, of which nothing is claimed.
pub assume_specification<B>[ hyper::client::conn::http2::SendRequest::<B>::is_ready ](
    tx: &hyper::client::conn::http2::SendRequest<B>,
) -> (r: bool)
;

/// `hyper`'s `is_closed` of an HTTP/2 connection: the state of the connection at
/// the moment, of which nothing is claimed.
pub assume_specification<B>[ hyper::client::conn::http2::SendRequest::<B>::is_closed ](
    tx: &hyper::client::conn::http2::SendRequest<B>,
) -> (r: bool)
;

/// `hyper`'s `clone` of the sending side of an HTTP/2 connection: another handle
/// on the connection, of which nothing more is claimed.
pub assume_specification<B>[ <hyper::client::conn::http2::SendRequest<B> as Clone>::clone ](
    tx: &hyper::client::conn::http2::SendRequest<B>,
) -> (r: hyper::client::conn::http2::SendRequest<B>)
;

/// The protocol that a connection negotiated.
#[derive(Clone, Copy, Debug, PartialEq, Eq, Structural)]
pub enum Alpn {
    H2,
    Other,
}

/// What a connector tells of a connection. `X` is what it adds to each response.
#[derive(Debug)]
pub struct Connected<X> {
    pub alpn: Alpn,
    pub is_proxied: bool,
    pub extra: Option<X>,
}

impl<X: Clone> Clone for Connected<X> {
    fn clone(&self) -> (r: Connected<X>)
        ensures
            cloned_info(*self, r),
    {
        Connected {
            alpn: self.alpn,
            is_proxied: self.is_proxied,
            extra: match &self.extra {
                Some(extra) => Some(extra.clone()),
                None => None,
            },
        }
    }
}

/// Whether `b` tells the same as `a`.
pub open spec fn cloned_info<X: Clone>(a: Connected<X>, b: Connected<X>) -> bool {
    &&& a.alpn == b.alpn
    &&& a.is_proxied == b.is_proxied
    &&& cloned_option(a.extra, b.extra)
}

/// Whether `b` is the same as `a`, with what it holds cloned.
pub open spec fn cloned_option<X: Clone>(a: Option<X>, b: Option<X>) -> bool {
    match (a, b) {
        (Some(a), Some(b)) => cloned(a, b),
        (None, None) => true,
        _ => false,
    }
}

/// The sending side of a connection.
#[derive(Debug)]
#[verifier::reject_recursive_types(B)]
pub enum PoolTx<B> {
    Http1(hyper::client::conn::http1::SendRequest<B>),
    Http2(hyper::client::conn::http2::SendRequest<B>),
}

/// Whether `ready` is what the sending side of the connection told of itself when
/// it was asked whether it is ready.
pub open spec fn told_ready<B>(tx: PoolTx<B>, ready: bool) -> bool {
    match tx {
        PoolTx::Http1(tx) => call_ensures(
            hyper::client::conn::http1::SendRequest::<B>::is_ready,
            (&tx,),
            ready,
        ),
        PoolTx::Http2(tx) => call_ensures(
            hyper::client::conn::http2::SendRequest::<B>::is_ready,
            (&tx,),
            ready,
        ),
    }
}

/// Whether `closed` is what the sending side of the connection told of itself
/// when it was asked whether it is closed.
pub open spec fn told_closed<B>(tx: PoolTx<B>, closed: bool) -> bool {
    match tx {
        PoolTx::Http1(tx) => call_ensures(
            hyper::client::conn::http1::SendRequest::<B>::is_closed,
            (&tx,),
            closed,
        ),
        PoolTx::Http2(tx) => call_ensures(
            hyper::client::conn::http2::SendRequest::<B>::is_closed,
            (&tx,),
            closed,
        ),
    }
}

/// A connection, as the pool keeps it.
#[derive(Debug)]
#[verifier::reject_recursive_types(B)]
pub struct PoolClient<B, X> {
    pub conn_info: Connected<X>,
    pub tx: PoolTx<B>,
}

/// How the pool may hand a connection out: to one, or to several at a time.
#[derive(Debug)]
pub enum Reservation<P> {
    Unique(P),
    Shared(P, P),
}

/// What came of a request that a connection was handed.
#[derive(Debug)]
pub enum Handed<R, B, S> {
    Answered(R),
    /// The connection failed. Where none of the request was written, the connection
    /// gives it back.
    Failed { cause: S, unwritten: Option<Request<B>> },
}

/// A request was not answered.
#[derive(Debug)]
pub enum ClientError<B, S> {
    Normal(Error<S>),
    /// The connection failed before any of the request was written: another try may
    /// work.
    Canceled { connection_reused: bool, req: Request<B>, cause: S },
}

/// A request that was not written is not lost; one that was is not sent twice.
pub open spec fn handed_of<R, B, S>(reused: bool, handed: Handed<R, B, S>) -> Result<
    R,
    ClientError<B, S>,
> {
    match handed {
        Handed::Answered(response) => Ok(response),
        Handed::Failed { cause, unwritten: Some(req) } => Err(
            ClientError::Canceled { connection_reused: reused, req, cause },
        ),
        Handed::Failed { cause, unwritten: None } => Err(
            ClientError::Normal(caused(ErrorKind::SendRequest, cause)),
        ),
    }
}

impl<B, X> PoolClient<B, X> {
    /// Whether the connection speaks HTTP/1.
    pub fn is_http1(&self) -> (r: bool)
        ensures
            r == (self.tx is Http1),
    {
        !self.is_http2()
    }

    /// Whether the connection speaks HTTP/2.
    pub fn is_http2(&self) -> (r: bool)
        ensures
            r == (self.tx is Http2),
    {
        match self.tx {
            PoolTx::Http1(_) => false,
            PoolTx::Http2(_) => true,
        }
    }

    /// Whether the connection can take a request now.
    pub fn is_ready(&self) -> (r: bool)
        ensures
            told_ready(self.tx, r),
    {
        match &self.tx {
            PoolTx::Http1(tx) => tx.is_ready(),
            PoolTx::Http2(tx) => tx.is_ready(),
        }
    }

    /// Whether the connection takes no more requests.
    pub fn is_closed(&self) -> (r: bool)
        ensures
            told_closed(self.tx, r),
    {
        match &self.tx {
            PoolTx::Http1(tx) => tx.is_closed(),
            PoolTx::Http2(tx) => tx.is_closed(),
        }
    }

    /// Whether the pool may hand the connection out.
    pub fn is_open(&self) -> (r: bool)
        ensures
            told_ready(self.tx, r),
    {
        self.is_ready()
    }

    /// Whether several requests can be on the connection at a time.
    pub fn can_share(&self) -> (r: bool)
        ensures
            r == (self.tx is Http2),
    {
        self.is_http2()
    }

    /// Splits the connection for the pool: an HTTP/2 connection is shared, an
    /// HTTP/1 connection is not.
    pub fn reserve(self) -> (r: Reservation<PoolClient<B, X>>) where X: Clone
        ensures
            r is Shared <==> self.tx is Http2,
            self.tx is Http1 ==> r == Reservation::Unique(self),
            self.tx is Http2 ==> (r matches Reservation::Shared(a, b) && {
                &&& a == self
                &&& cloned_info(self.conn_info, b.conn_info)
                &&& b.tx is Http2
                &&& cloned(self.tx->Http2_0, b.tx->Http2_0)
            }),
    {
        match self.tx {
            PoolTx::Http1(tx) => Reservation::Unique(
                PoolClient { conn_info: self.conn_info, tx: PoolTx::Http1(tx) },
            ),
            PoolTx::Http2(tx) => {
                let b = PoolClient {
                    conn_info: self.conn_info.clone(),
                    tx: PoolTx::Http2(tx.clone()),
                };
                let a = PoolClient { conn_info: self.conn_info, tx: PoolTx::Http2(tx) };
                Reservation::Shared(a, b)
            },
        }
    }

    /// What it means for the client that the HTTP/1 sending side, polled for
    /// readiness, gave `polled`: nothing while it is pending. An HTTP/2 connection
    /// is not polled, and always ready.
    pub fn poll_ready<S>(&self, polled: Option<Result<(), S>>) -> (r: Option<Result<(), Error<S>>>)
        ensures
            self.tx is Http2 ==> r == Some(Ok::<(), Error<S>>(())),
            self.tx is Http1 ==> r == (match polled {
                Some(Ok(())) => Some(Ok::<(), Error<S>>(())),
                Some(Err(src)) => Some(Err::<(), Error<S>>(caused(ErrorKind::ChannelClosed, src))),
                None => None,
            }),
    {
        match self.tx {
            PoolTx::Http1(_) => match polled {
                Some(Ok(())) => Some(Ok(())),
                Some(Err(src)) => Some(Err(Error::closed(src))),
                None => None,
            },
            PoolTx::Http2(_) => Some(Ok(())),
        }
    }

    /// What it means for the client that the sending side answered a request with
    /// `handed`. `reused` tells whether the pool had the connection before.
    pub fn send_request<R, B2, S>(&self, reused: bool, handed: Handed<R, B2, S>) -> (r: Result<
        R,
        ClientError<B2, S>,
    >)
        ensures
            r == handed_of(reused, handed),
    {
        match handed {
            Handed::Answered(response) => Ok(response),
            Handed::Failed { cause, unwritten: Some(req) } => Err(
                ClientError::Canceled { connection_reused: reused, req, cause },
            ),
            Handed::Failed { cause, unwritten: None } => Err(ClientError::Normal(Error::tx(cause))),
        }
    }

    /// Notes, once a request was handed to the connection, what counts when the
    /// response comes.
    pub fn sent(&self) -> (r: Exchange<X>) where X: Clone
        ensures
            cloned_option(self.conn_info.extra, r.extra),
            told_closed(self.tx, r.closed),
    {
        let extra = match &self.conn_info.extra {
            Some(extra) => Some(extra.clone()),
            None => None,
        };
        Exchange { extra, closed: self.is_closed() }
    }
}

/// What becomes of a connection once its response is there.
#[derive(Clone, Copy, Debug, PartialEq, Eq, Structural)]
pub enum Release {
    /// It is dropped, and so given back to the pool, at once.
    Now,
    /// It is dropped by a background task, once it is ready for another request.
    WhenReady,
}

/// An HTTP/2 connection is shared and need not be held, one that is not pooled
/// goes nowhere, and one that is ready can go back.
pub open spec fn release_of(is_http2: bool, pool_enabled: bool, is_ready: bool) -> Release {
    if is_http2 || !pool_enabled || is_ready {
        Release::Now
    } else {
        Release::WhenReady
    }
}

/// Decides what becomes of a connection once its response is there.
pub fn release(is_http2: bool, pool_enabled: bool, is_ready: bool) -> (r: Release)
    ensures
        r == release_of(is_http2, pool_enabled, is_ready),
{
    if is_http2 || !pool_enabled || is_ready {
        Release::Now
    } else {
        Release::WhenReady
    }
}

/// A request on its way.
#[derive(Debug)]
pub struct Exchange<X> {
    /// What the connector adds to the response.
    pub extra: Option<X>,
    /// Whether the connection was found closed after the request was handed to it.
    pub closed: bool,
}

/// A response that has come.
#[derive(Debug)]
pub struct Delivered<R, X> {
    pub response: R,
    /// What the connector adds to the response.
    pub extra: Option<X>,
    pub release: Release,
}

impl<X> Exchange<X> {
    /// Takes the answer to the request from the connection that it was handed to.
    pub fn finish<B, R, B2, S>(
        self,
        pooled: &PoolClient<B, X>,
        reused: bool,
        pool_enabled: bool,
        handed: Handed<R, B2, S>,
    ) -> (r: Result<Delivered<R, X>, ClientError<B2, S>>)
        ensures
            match handed_of(reused, handed) {
                Err(err) => r == Err::<Delivered<R, X>, ClientError<B2, S>>(err),
                Ok(response) => r matches Ok(delivered) && {
                    &&& delivered.response == response
                    &&& delivered.extra == self.extra
                    &&& if self.closed || pooled.tx is Http2 || !pool_enabled {
                        delivered.release == Release::Now
                    } else {
                        exists|ready: bool| #[trigger]
                            told_ready(pooled.tx, ready) && delivered.release == release_of(
                                false,
                                true,
                                ready,
                            )
                    }
                },
            },
    {
        match pooled.send_request(reused, handed) {
            Ok(response) => {
                let release = if self.closed || pooled.is_http2() || !pool_enabled {
                    Release::Now
                } else {
                    let ready = pooled.is_ready();
                    release(false, true, ready)
                };
                Ok(Delivered { response, extra: self.extra, release })
            },
            Err(err) => Err(err),
        }
    }
}

} // verus!
