//! Connections, and the way to them.

use vstd::prelude::*;

use crate::client::Client;
use crate::config::Ver;
use crate::connect::{ConnectTo, Dialing, Handshaking, Negotiated, Readying};
use crate::error::{Cause, Error, ErrorKind};
use crate::forms::PoolKey;
use crate::pool::{
    release, told_ready, Alpn, ClientError, Connected, Delivered, Exchange, Handed, PoolClient,
    PoolTx, Release, Reservation,
};
use crate::race::{CheckoutError, ClientConnectError, ConnectionFor, OneConnection, Raced};

verus! {

/// The first answer that is a connection is used. A connection that was started is
/// finished in the background, where the pool won.
pub proof fn first_connection_is_used<C, B, E, T, PL, P, S>(
    client: &Client<C, B, E, T, PL>,
    raced: Raced<P, S>,
    next: OneConnection<P, S>,
)
    requires
        call_ensures(
            Client::<C, B, E, T, PL>::one_connection_for::<P, S>,
            (client, raced),
            next,
        ),
    ensures
        raced matches Raced::Checkout { outcome: Ok(pooled), connect_started } ==> next
            == (OneConnection::<P, S>::Found { pooled, finish_connecting: connect_started }),
        raced matches Raced::Connect(Ok(pooled)) ==> next == (OneConnection::<P, S>::Found {
            pooled,
            finish_connecting: false,
        }),
        next is Found <==> (match raced {
            Raced::Checkout { outcome, .. } => outcome is Ok,
            Raced::Connect(outcome) => outcome is Ok,
        }),
{
}

/// A first answer that is canceled leaves it to the other one, and any other failure
/// decides, with a connect error where it is the pool's.
pub proof fn first_failure_decides_unless_canceled<C, B, E, T, PL, P, S>(
    client: &Client<C, B, E, T, PL>,
    raced: Raced<P, S>,
    next: OneConnection<P, S>,
)
    requires
        call_ensures(
            Client::<C, B, E, T, PL>::one_connection_for::<P, S>,
            (client, raced),
            next,
        ),
    ensures
        raced matches Raced::Checkout { outcome: Err(err), .. } ==> {
            &&& next is AwaitConnect <==> err.canceled
            &&& !err.canceled ==> next == OneConnection::<P, S>::Failed(
                ClientConnectError::Normal(
                    Error { kind: ErrorKind::Connect, source: Some(Cause::Outside(err.cause)) },
                ),
            )
        },
        raced matches Raced::Connect(Err(err)) ==> {
            &&& next is AwaitCheckout <==> err.kind == ErrorKind::Canceled
            &&& err.kind != ErrorKind::Canceled ==> next == OneConnection::<P, S>::Failed(
                ClientConnectError::Normal(err),
            )
        },
{
}

/// The second answer decides: a connection is used, the connector's error is handed on,
/// and the pool's is a connect error, but for the connection that was waited for and
/// closed, which is what a canceled answer means to a client that is held to HTTP/2.
pub proof fn second_answer_decides<C, B, E, T, PL, P, S>(
    client: &Client<C, B, E, T, PL>,
    connect: Result<P, Error<S>>,
    connected: Result<P, ClientConnectError<S>>,
    checkout: Result<P, CheckoutError<S>>,
    checked_out: Result<P, ClientConnectError<S>>,
)
    requires
        call_ensures(
            Client::<C, B, E, T, PL>::connect_answer::<P, S>,
            (client, connect),
            connected,
        ),
        call_ensures(
            Client::<C, B, E, T, PL>::checkout_answer::<P, S>,
            (client, checkout),
            checked_out,
        ),
    ensures
        connect matches Ok(pooled) ==> connected == Ok::<P, ClientConnectError<S>>(pooled),
        connect matches Err(err) ==> connected == Err::<P, ClientConnectError<S>>(
            ClientConnectError::Normal(err),
        ),
        checkout matches Ok(pooled) ==> checked_out == Ok::<P, ClientConnectError<S>>(pooled),
        checkout matches Err(err) ==> {
            let closed = client.config.ver == Ver::Http2 && err.canceled;
            &&& closed ==> checked_out == Err::<P, ClientConnectError<S>>(
                ClientConnectError::CheckoutIsClosed(err),
            )
            &&& !closed ==> checked_out == Err::<P, ClientConnectError<S>>(
                ClientConnectError::Normal(
                    Error { kind: ErrorKind::Connect, source: Some(Cause::Outside(err.cause)) },
                ),
            )
        },
{
}

/// A try is made again if and only if the client retries and the connection that was
/// waited for has closed. Every other try decides.
pub proof fn try_is_made_again<C, B, E, T, PL, P, S>(
    client: &Client<C, B, E, T, PL>,
    attempt: Result<P, ClientConnectError<S>>,
    next: ConnectionFor<P, S>,
)
    requires
        call_ensures(
            Client::<C, B, E, T, PL>::connection_for::<P, S>,
            (client, attempt),
            next,
        ),
    ensures
        next is Again <==> {
            &&& client.config.retry_canceled_requests
            &&& attempt matches Err(ClientConnectError::CheckoutIsClosed(_))
        },
        attempt matches Ok(pooled) ==> next == ConnectionFor::<P, S>::Done(Ok(pooled)),
        attempt matches Err(ClientConnectError::Normal(err)) ==> next
            == ConnectionFor::<P, S>::Done(Err(err)),
        attempt matches Err(ClientConnectError::CheckoutIsClosed(reason)) ==> (
        !client.config.retry_canceled_requests ==> next == ConnectionFor::<P, S>::Done(
            Err(Error { kind: ErrorKind::Canceled, source: Some(Cause::Outside(reason.cause)) }),
        )),
{
}

/// What is connected to is the scheme and authority of the destination, with the path
/// `/`, in the version that the client is held to.
pub proof fn destination_is_connected_to<C, B, E, T, P>(
    client: &Client<C, B, E, T, P>,
    key: PoolKey,
    plan: ConnectTo,
)
    requires
        call_ensures(Client::<C, B, E, T, P>::connect_to, (client, key), plan),
    ensures
        plan.pool_key == key,
        plan.dst@.scheme == Some(key.0@),
        plan.dst@.authority == Some(key.1@),
        plan.dst@.path_and_query == Some(seq!['/']),
        plan.ver == client.config.ver,
{
}

/// With a lock the destination is connected to as planned, and without one the
/// connection is canceled.
pub proof fn lock_lets_connect<L, S>(
    plan: ConnectTo,
    lock: Option<L>,
    dialing: Result<Dialing<L>, Error<S>>,
)
    requires
        call_ensures(ConnectTo::locked::<L, S>, (plan, lock), dialing),
    ensures
        lock matches Some(held) ==> (dialing matches Ok(dialing) && {
            &&& dialing.lock == held
            &&& dialing.dst == plan.dst
            &&& dialing.ver == plan.ver
        }),
        lock is None ==> dialing == Err::<Dialing<L>, Error<S>>(
            Error { kind: ErrorKind::Canceled, source: None },
        ),
{
}

/// What the connector tells decides the protocol: HTTP/2 that was negotiated and not
/// insisted on needs another lock; else HTTP/2 is spoken if and only if the client
/// insists on it. A connector that fails is a connect error.
pub proof fn connector_decides_the_protocol<L, X, S>(
    dialing: Dialing<L>,
    outcome: Result<Connected<X>, S>,
    next: Result<Negotiated<L, X>, Error<S>>,
)
    requires
        call_ensures(Dialing::<L>::connected::<X, S>, (dialing, outcome), next),
    ensures
        outcome matches Err(src) ==> next == Err::<Negotiated<L, X>, Error<S>>(
            Error { kind: ErrorKind::Connect, source: Some(Cause::Outside(src)) },
        ),
        outcome matches Ok(told) ==> {
            let upgrade = told.alpn == Alpn::H2 && dialing.ver == Ver::Auto;
            &&& upgrade ==> next == Ok::<Negotiated<L, X>, Error<S>>(
                Negotiated::Upgrade { lock: dialing.lock, connected: told },
            )
            &&& !upgrade ==> next == Ok::<Negotiated<L, X>, Error<S>>(
                Negotiated::Settled(
                    Handshaking {
                        lock: dialing.lock,
                        connected: told,
                        is_h2: dialing.ver == Ver::Http2,
                    },
                ),
            )
        },
{
}

/// With the other lock HTTP/2 is spoken, and without it the connection is canceled.
pub proof fn upgrade_speaks_http2<L, X, S>(
    connected: Connected<X>,
    lock: Option<L>,
    next: Result<Handshaking<L, X>, Error<S>>,
)
    requires
        call_ensures(Handshaking::<L, X>::upgraded::<S>, (connected, lock), next),
    ensures
        lock matches Some(held) ==> next == Ok::<Handshaking<L, X>, Error<S>>(
            Handshaking { lock: held, connected, is_h2: true },
        ),
        lock is None ==> (next matches Err(err) && {
            &&& err.kind == ErrorKind::Canceled
            &&& err.source == Some(Cause::<S>::Message("ALPN upgraded to HTTP/2"))
        }),
{
}

/// The sending side that a handshake of HTTP/1 gives is that of the connection, with
/// what the connector told and the lock. A handshake that fails is an error on the way
/// of the request.
pub proof fn http1_handshake_gives_the_connection<L, B, X, S>(
    handshaking: Handshaking<L, X>,
    outcome: Result<hyper::client::conn::http1::SendRequest<B>, S>,
    next: Result<Readying<L, B, X>, Error<S>>,
)
    requires
        call_ensures(Handshaking::<L, X>::http1::<B, S>, (handshaking, outcome), next),
    ensures
        outcome matches Ok(tx) ==> (next matches Ok(readying) && {
            &&& readying.lock == handshaking.lock
            &&& readying.client.conn_info == handshaking.connected
            &&& readying.client.tx == PoolTx::Http1(tx)
        }),
        outcome matches Err(src) ==> next == Err::<Readying<L, B, X>, Error<S>>(
            Error { kind: ErrorKind::SendRequest, source: Some(Cause::Outside(src)) },
        ),
{
}

/// The sending side that a handshake of HTTP/2 gives is that of the connection, with
/// what the connector told and the lock. A handshake that fails is an error on the way
/// of the request.
pub proof fn http2_handshake_gives_the_connection<L, B, X, S>(
    handshaking: Handshaking<L, X>,
    outcome: Result<hyper::client::conn::http2::SendRequest<B>, S>,
    next: Result<Readying<L, B, X>, Error<S>>,
)
    requires
        call_ensures(Handshaking::<L, X>::http2::<B, S>, (handshaking, outcome), next),
    ensures
        outcome matches Ok(tx) ==> (next matches Ok(readying) && {
            &&& readying.lock == handshaking.lock
            &&& readying.client.conn_info == handshaking.connected
            &&& readying.client.tx == PoolTx::Http2(tx)
        }),
        outcome matches Err(src) ==> next == Err::<Readying<L, B, X>, Error<S>>(
            Error { kind: ErrorKind::SendRequest, source: Some(Cause::Outside(src)) },
        ),
{
}

/// A connection that is ready goes to the pool as it is, under its lock.
pub proof fn ready_connection_goes_to_the_pool<L, B, X, S>(
    readying: Readying<L, B, X>,
    outcome: Result<(), S>,
    next: Result<(L, PoolClient<B, X>), Error<S>>,
)
    requires
        call_ensures(Readying::<L, B, X>::ready::<S>, (readying, outcome), next),
    ensures
        outcome is Ok ==> next == Ok::<(L, PoolClient<B, X>), Error<S>>(
            (readying.lock, readying.client),
        ),
        outcome matches Err(src) ==> next == Err::<(L, PoolClient<B, X>), Error<S>>(
            Error { kind: ErrorKind::SendRequest, source: Some(Cause::Outside(src)) },
        ),
{
}

/// What is asked for after the protocol of a connection goes by its sending side.
pub proof fn protocol_is_that_of_the_sending_side<B, X>(
    client: &PoolClient<B, X>,
    is_http1: bool,
    is_http2: bool,
    can_share: bool,
)
    requires
        call_ensures(PoolClient::<B, X>::is_http1, (client,), is_http1),
        call_ensures(PoolClient::<B, X>::is_http2, (client,), is_http2),
        call_ensures(PoolClient::<B, X>::can_share, (client,), can_share),
    ensures
        is_http1 <==> client.tx is Http1,
        is_http2 <==> client.tx is Http2,
        can_share <==> client.tx is Http2,
        is_http1 != is_http2,
{
}

/// What is asked for after the state of a connection is what its sending side tells.
pub proof fn state_is_what_the_sending_side_tells<B, X>(
    client: &PoolClient<B, X>,
    is_ready: bool,
    is_open: bool,
    is_closed: bool,
)
    requires
        call_ensures(PoolClient::<B, X>::is_ready, (client,), is_ready),
        call_ensures(PoolClient::<B, X>::is_open, (client,), is_open),
        call_ensures(PoolClient::<B, X>::is_closed, (client,), is_closed),
    ensures
        client.tx matches PoolTx::Http1(tx) ==> {
            &&& call_ensures(
                hyper::client::conn::http1::SendRequest::<B>::is_ready,
                (&tx,),
                is_ready,
            )
            &&& call_ensures(
                hyper::client::conn::http1::SendRequest::<B>::is_ready,
                (&tx,),
                is_open,
            )
            &&& call_ensures(
                hyper::client::conn::http1::SendRequest::<B>::is_closed,
                (&tx,),
                is_closed,
            )
        },
        client.tx matches PoolTx::Http2(tx) ==> {
            &&& call_ensures(
                hyper::client::conn::http2::SendRequest::<B>::is_ready,
                (&tx,),
                is_ready,
            )
            &&& call_ensures(
                hyper::client::conn::http2::SendRequest::<B>::is_ready,
                (&tx,),
                is_open,
            )
            &&& call_ensures(
                hyper::client::conn::http2::SendRequest::<B>::is_closed,
                (&tx,),
                is_closed,
            )
        },
{
}

/// An HTTP/1 connection is kept whole. Of an HTTP/2 connection there are two from then
/// on, which tell the same.
pub proof fn http2_connection_is_split<B, X: Clone>(
    client: PoolClient<B, X>,
    reserved: Reservation<PoolClient<B, X>>,
)
    requires
        call_ensures(PoolClient::<B, X>::reserve, (client,), reserved),
    ensures
        client.tx is Http1 ==> reserved == Reservation::Unique(client),
        client.tx is Http2 ==> (reserved matches Reservation::Shared(a, b) && {
            &&& a == client
            &&& b.tx is Http2
            &&& cloned(client.tx->Http2_0, b.tx->Http2_0)
            &&& b.conn_info.alpn == client.conn_info.alpn
            &&& b.conn_info.is_proxied == client.conn_info.is_proxied
            &&& b.conn_info.extra is Some <==> client.conn_info.extra is Some
            &&& client.conn_info.extra is Some ==> cloned(
                client.conn_info.extra->0,
                b.conn_info.extra->0,
            )
        }),
{
}

/// An HTTP/2 connection is always ready. An HTTP/1 connection is what it was polled to
/// be, and takes no more requests where that failed.
pub proof fn polled_connection_is_ready<B, X, S>(
    client: &PoolClient<B, X>,
    polled: Option<Result<(), S>>,
    ready: Option<Result<(), Error<S>>>,
)
    requires
        call_ensures(PoolClient::<B, X>::poll_ready::<S>, (client, polled), ready),
    ensures
        client.tx is Http2 ==> ready == Some(Ok::<(), Error<S>>(())),
        client.tx is Http1 ==> {
            &&& ready is None <==> polled is None
            &&& polled matches Some(Ok(())) ==> ready == Some(Ok::<(), Error<S>>(()))
            &&& polled matches Some(Err(src)) ==> ready == Some(
                Err::<(), Error<S>>(
                    Error { kind: ErrorKind::ChannelClosed, source: Some(Cause::Outside(src)) },
                ),
            )
        },
{
}

/// An answer is handed on. Of a failure it is noted whether the connection was reused,
/// where the request came back unwritten; else it is an error on the way of the
/// request.
pub proof fn connection_answers<B, X, R, B2, S>(
    client: &PoolClient<B, X>,
    reused: bool,
    handed: Handed<R, B2, S>,
    answer: Result<R, ClientError<B2, S>>,
)
    requires
        call_ensures(
            PoolClient::<B, X>::send_request::<R, B2, S>,
            (client, reused, handed),
            answer,
        ),
    ensures
        handed matches Handed::Answered(response) ==> answer == Ok::<R, ClientError<B2, S>>(
            response,
        ),
        handed matches Handed::Failed { cause, unwritten } ==> {
            &&& unwritten matches Some(req) ==> answer == Err::<R, ClientError<B2, S>>(
                ClientError::Canceled { connection_reused: reused, req, cause },
            )
            &&& unwritten is None ==> answer == Err::<R, ClientError<B2, S>>(
                ClientError::Normal(
                    Error { kind: ErrorKind::SendRequest, source: Some(Cause::Outside(cause)) },
                ),
            )
        },
{
}

/// What counts when the response comes is what the connector adds to it, and whether
/// the connection tells that it is closed.
pub proof fn exchange_notes_the_connection<B, X: Clone>(
    client: &PoolClient<B, X>,
    exchange: Exchange<X>,
)
    requires
        call_ensures(PoolClient::<B, X>::sent, (client,), exchange),
    ensures
        exchange.extra is Some <==> client.conn_info.extra is Some,
        client.conn_info.extra is Some ==> cloned(client.conn_info.extra->0, exchange.extra->0),
        client.tx matches PoolTx::Http1(tx) ==> call_ensures(
            hyper::client::conn::http1::SendRequest::<B>::is_closed,
            (&tx,),
            exchange.closed,
        ),
        client.tx matches PoolTx::Http2(tx) ==> call_ensures(
            hyper::client::conn::http2::SendRequest::<B>::is_closed,
            (&tx,),
            exchange.closed,
        ),
{
}

/// A response is delivered as it is, with what the connector adds. Only an HTTP/1
/// connection of a pool that keeps connections, which was not closed and is not ready,
/// is released later; whether it is ready, it tells.
pub proof fn response_is_delivered_as_it_is<X, B, R, B2, S>(
    exchange: Exchange<X>,
    pooled: &PoolClient<B, X>,
    reused: bool,
    pool_enabled: bool,
    handed: Handed<R, B2, S>,
    done: Result<Delivered<R, X>, ClientError<B2, S>>,
)
    requires
        call_ensures(
            Exchange::<X>::finish::<B, R, B2, S>,
            (exchange, pooled, reused, pool_enabled, handed),
            done,
        ),
    ensures
        done is Ok <==> handed is Answered,
        handed matches Handed::Answered(response) ==> {
            &&& done->Ok_0.response == response
            &&& done->Ok_0.extra == exchange.extra
            &&& exchange.closed || pooled.tx is Http2 || !pool_enabled ==> done->Ok_0.release
                == Release::Now
            &&& pooled.tx matches PoolTx::Http1(tx) ==> (!exchange.closed && pool_enabled ==> (
            exists|ready: bool|
                {
                    &&& #[trigger] call_ensures(
                        hyper::client::conn::http1::SendRequest::<B>::is_ready,
                        (&tx,),
                        ready,
                    )
                    &&& ready <==> done->Ok_0.release == Release::Now
                }))
        },
        handed matches Handed::Failed { cause, unwritten: None } ==> done == Err::<
            Delivered<R, X>,
            ClientError<B2, S>,
        >(
            ClientError::Normal(
                Error { kind: ErrorKind::SendRequest, source: Some(Cause::Outside(cause)) },
            ),
        ),
        handed matches Handed::Failed { cause, unwritten: Some(req) } ==> done == Err::<
            Delivered<R, X>,
            ClientError<B2, S>,
        >(ClientError::Canceled { connection_reused: reused, req, cause }),
{
    if let PoolTx::Http1(tx) = pooled.tx {
        if !exchange.closed && pool_enabled && handed is Answered {
            let ready = choose|ready: bool| #[trigger]
                told_ready(pooled.tx, ready) && done->Ok_0.release == (if ready {
                    Release::Now
                } else {
                    Release::WhenReady
                });
            assert(call_ensures(
                hyper::client::conn::http1::SendRequest::<B>::is_ready,
                (&tx,),
                ready,
            ));
        }
    }
}

/// A connection is released later if and only if it speaks HTTP/1, is pooled, and is not
/// ready.
pub proof fn connection_is_released_later(
    is_http2: bool,
    pool_enabled: bool,
    is_ready: bool,
    released: Release,
)
    requires
        call_ensures(release, (is_http2, pool_enabled, is_ready), released),
    ensures
        released == Release::WhenReady <==> !is_http2 && pool_enabled && !is_ready,
{
}

/// What is told of a connection is told by a clone too.
pub proof fn clone_tells_the_same<X: Clone>(told: &Connected<X>, clone: Connected<X>)
    requires
        call_ensures(Connected::<X>::clone, (told,), clone),
    ensures
        clone.alpn == told.alpn,
        clone.is_proxied == told.is_proxied,
        clone.extra is Some <==> told.extra is Some,
        told.extra is Some ==> cloned(told.extra->0, clone.extra->0),
{
}

} // verus!
