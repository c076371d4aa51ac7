//! The way to a connection.
//!
//! A connection comes from the pool, or from the connector, whichever is first.
//! Each step here takes what the pool, the connector or a handshake answered, and
//! gives the next thing to ask for, the connection, or the error.

use vstd::prelude::*;

use crate::config::Ver;
use crate::error::{caused, plain, Cause, Error, ErrorKind};
use crate::forms::PoolKey;
use crate::pool::{Alpn, Connected, PoolClient, PoolTx};
use crate::uri::Uri;

verus! {

/// A connection that is not started yet. To start it is to ask the pool for a
/// lock on connecting to the destination.
#[derive(Debug)]
pub struct ConnectTo {
    pub pool_key: PoolKey,
    /// The URI to connect to.
    pub dst: Uri,
    pub ver: Ver,
}

/// The connector is to be asked for a connection to `dst`.
#[derive(Debug)]
pub struct Dialing<L> {
    pub lock: L,
    pub dst: Uri,
    pub ver: Ver,
}

/// The connector gave a connection.
#[derive(Debug)]
pub enum Negotiated<L, X> {
    /// The handshake is next.
    Settled(Handshaking<L, X>),
    /// The connection turned out to be HTTP/2: the pool is to be asked to make the
    /// lock one for an HTTP/2 connection.
    Upgrade { lock: L, connected: Connected<X> },
}

/// The handshake of HTTP/2 or of HTTP/1 is to be made on the connection.
#[derive(Debug)]
pub struct Handshaking<L, X> {
    pub lock: L,
    pub connected: Connected<X>,
    pub is_h2: bool,
}

/// The handshake is made: the connection is to be run in the background, and its
/// sending side to become ready.
#[derive(Debug)]
#[verifier::reject_recursive_types(B)]
pub struct Readying<L, B, X> {
    pub lock: L,
    pub client: PoolClient<B, X>,
}

/// The message behind the error of a connection that another one made needless.
pub const ALPN_UPGRADED: &'static str = "ALPN upgraded to HTTP/2";

/// Without a lock there is an HTTP/2 connection on the way already, and this one
/// is canceled.
pub open spec fn locked_of<L, S>(plan: ConnectTo, lock: Option<L>) -> Result<Dialing<L>, Error<S>> {
    match lock {
        Some(lock) => Ok(Dialing { lock, dst: plan.dst, ver: plan.ver }),
        None => Err(plain(ErrorKind::Canceled)),
    }
}

/// The lock has to change where HTTP/2 was negotiated and not expected.
pub open spec fn connected_of<L, X, S>(
    dialing: Dialing<L>,
    outcome: Result<Connected<X>, S>,
) -> Result<Negotiated<L, X>, Error<S>> {
    match outcome {
        Ok(connected) => if connected.alpn == Alpn::H2 && dialing.ver != Ver::Http2 {
            Ok(Negotiated::Upgrade { lock: dialing.lock, connected })
        } else {
            Ok(
                Negotiated::Settled(
                    Handshaking { lock: dialing.lock, connected, is_h2: dialing.ver == Ver::Http2 },
                ),
            )
        },
        Err(src) => Err(caused(ErrorKind::Connect, src)),
    }
}

/// Without a lock another connection has been made HTTP/2 already, and this one
/// is canceled.
pub open spec fn upgraded_of<L, X, S>(connected: Connected<X>, lock: Option<L>) -> Result<
    Handshaking<L, X>,
    Error<S>,
> {
    match lock {
        Some(lock) => Ok(Handshaking { lock, connected, is_h2: true }),
        None => Err(
            Error { kind: ErrorKind::Canceled, source: Some(Cause::Message(ALPN_UPGRADED)) },
        ),
    }
}

/// The sending side that a handshake gave.
pub open spec fn handshaken_of<L, B, X, S>(
    handshaking: Handshaking<L, X>,
    outcome: Result<PoolTx<B>, S>,
) -> Result<Readying<L, B, X>, Error<S>> {
    match outcome {
        Ok(tx) => Ok(
            Readying {
                lock: handshaking.lock,
                client: PoolClient { conn_info: handshaking.connected, tx },
            },
        ),
        Err(src) => Err(caused(ErrorKind::SendRequest, src)),
    }
}

/// The connection, for the pool to take in under its lock.
pub open spec fn ready_of<L, B, X, S>(
    readying: Readying<L, B, X>,
    outcome: Result<(), S>,
) -> Result<(L, PoolClient<B, X>), Error<S>> {
    match outcome {
        Ok(()) => Ok((readying.lock, readying.client)),
        Err(src) => Err(caused(ErrorKind::SendRequest, src)),
    }
}

impl ConnectTo {
    /// Takes the lock that the pool gave, or none.
    pub fn locked<L, S>(self, lock: Option<L>) -> (r: Result<Dialing<L>, Error<S>>)
        ensures
            r == locked_of::<L, S>(self, lock),
    {
        match lock {
            Some(lock) => Ok(Dialing { lock, dst: self.dst, ver: self.ver }),
            None => Err(Error::new(ErrorKind::Canceled)),
        }
    }
}

impl<L> Dialing<L> {
    /// Takes what the connector tells of the connection that it made, or its error.
    pub fn connected<X, S>(self, outcome: Result<Connected<X>, S>) -> (r: Result<
        Negotiated<L, X>,
        Error<S>,
    >)
        ensures
            r == connected_of(self, outcome),
    {
        match outcome {
            Ok(connected) => {
                let is_ver_h2 = self.ver == Ver::Http2;
                if connected.alpn == Alpn::H2 && !is_ver_h2 {
                    Ok(Negotiated::Upgrade { lock: self.lock, connected })
                } else {
                    let is_h2 = is_ver_h2 || connected.alpn == Alpn::H2;
                    Ok(Negotiated::Settled(Handshaking { lock: self.lock, connected, is_h2 }))
                }
            },
            Err(src) => Err(Error::with(ErrorKind::Connect, src)),
        }
    }
}

impl<L, X> Handshaking<L, X> {
    /// Takes the lock that the pool gave for an HTTP/2 connection, or none.
    pub fn upgraded<S>(connected: Connected<X>, lock: Option<L>) -> (r: Result<
        Handshaking<L, X>,
        Error<S>,
    >)
        ensures
            r == upgraded_of::<L, X, S>(connected, lock),
    {
        match lock {
            Some(lock) => Ok(Handshaking { lock, connected, is_h2: true }),
            None => Err(
                Error { kind: ErrorKind::Canceled, source: Some(Cause::Message(ALPN_UPGRADED)) },
            ),
        }
    }

    /// Takes the sending side that the handshake of HTTP/1 gave, or its error.
    pub fn http1<B, S>(
        self,
        outcome: Result<hyper::client::conn::http1::SendRequest<B>, S>,
    ) -> (r: Result<Readying<L, B, X>, Error<S>>)
        requires
            !self.is_h2,
        ensures
            r == handshaken_of(
                self,
                match outcome {
                    Ok(tx) => Ok::<PoolTx<B>, S>(PoolTx::Http1(tx)),
                    Err(src) => Err::<PoolTx<B>, S>(src),
                },
            ),
    {
        match outcome {
            Ok(tx) => Ok(
                Readying {
                    lock: self.lock,
                    client: PoolClient { conn_info: self.connected, tx: PoolTx::Http1(tx) },
                },
            ),
            Err(src) => Err(Error::tx(src)),
        }
    }

    /// Takes the sending side that the handshake of HTTP/2 gave, or its error.
    pub fn http2<B, S>(
        self,
        outcome: Result<hyper::client::conn::http2::SendRequest<B>, S>,
    ) -> (r: Result<Readying<L, B, X>, Error<S>>)
        requires
            self.is_h2,
        ensures
            r == handshaken_of(
                self,
                match outcome {
                    Ok(tx) => Ok::<PoolTx<B>, S>(PoolTx::Http2(tx)),
                    Err(src) => Err::<PoolTx<B>, S>(src),
                },
            ),
    {
        match outcome {
            Ok(tx) => Ok(
                Readying {
                    lock: self.lock,
                    client: PoolClient { conn_info: self.connected, tx: PoolTx::Http2(tx) },
                },
            ),
            Err(src) => Err(Error::tx(src)),
        }
    }
}

impl<L, B, X> Readying<L, B, X> {
    /// Takes the readiness of the sending side, or its error.
    pub fn ready<S>(self, outcome: Result<(), S>) -> (r: Result<(L, PoolClient<B, X>), Error<S>>)
        ensures
            r == ready_of(self, outcome),
    {
        match outcome {
            Ok(()) => Ok((self.lock, self.client)),
            Err(src) => Err(Error::tx(src)),
        }
    }
}

/// What a connection comes to, from the answers of the pool, the connector and the
/// handshakes: the steps one after the other, as far as they are reached.
pub open spec fn connect<L, B, X, S>(
    plan: ConnectTo,
    lock: Option<L>,
    dialed: Result<Connected<X>, S>,
    upgrade: Option<L>,
    shaken: spec_fn(bool) -> Result<PoolTx<B>, S>,
    readied: Result<(), S>,
) -> Result<(L, PoolClient<B, X>), Error<S>> {
    match locked_of::<L, S>(plan, lock) {
        Err(err) => Err(err),
        Ok(dialing) => match connected_of(dialing, dialed) {
            Err(err) => Err(err),
            Ok(Negotiated::Settled(handshaking)) => connect_on(handshaking, shaken, readied),
            Ok(Negotiated::Upgrade { lock: _, connected }) => match upgraded_of::<L, X, S>(
                connected,
                upgrade,
            ) {
                Err(err) => Err(err),
                Ok(handshaking) => connect_on(handshaking, shaken, readied),
            },
        },
    }
}

/// What a connection comes to from the handshake on. `shaken` is the outcome of the
/// handshake, of HTTP/2 where it is asked for true, and of HTTP/1 where for false.
pub open spec fn connect_on<L, B, X, S>(
    handshaking: Handshaking<L, X>,
    shaken: spec_fn(bool) -> Result<PoolTx<B>, S>,
    readied: Result<(), S>,
) -> Result<(L, PoolClient<B, X>), Error<S>> {
    match handshaken_of(handshaking, shaken(handshaking.is_h2)) {
        Err(err) => Err(err),
        Ok(readying) => ready_of(readying, readied),
    }
}

/// Whether the outcomes of the two handshakes are each of their protocol.
pub open spec fn keeps_protocol<B, S>(shaken: spec_fn(bool) -> Result<PoolTx<B>, S>) -> bool {
    &&& (shaken(true) matches Ok(tx) ==> tx is Http2)
    &&& (shaken(false) matches Ok(tx) ==> tx is Http1)
}

/// Whether the connection is to be HTTP/2: the client insists, or it was negotiated.
pub open spec fn wants_h2<X>(ver: Ver, connected: Connected<X>) -> bool {
    ver == Ver::Http2 || connected.alpn == Alpn::H2
}

/// Whether the lock has to change for the connection.
pub open spec fn needs_upgrade<X>(ver: Ver, connected: Connected<X>) -> bool {
    ver != Ver::Http2 && connected.alpn == Alpn::H2
}

/// There is a connection if and only if no step fails. It is the one that the
/// connector made, speaks HTTP/2 if and only if the client insists on it or it was
/// negotiated, and goes to the pool under the lock for what it speaks.
pub proof fn connection_of_all_steps<L, B, X, S>(
    plan: ConnectTo,
    lock: Option<L>,
    dialed: Result<Connected<X>, S>,
    upgrade: Option<L>,
    shaken: spec_fn(bool) -> Result<PoolTx<B>, S>,
    readied: Result<(), S>,
)
    requires
        keeps_protocol(shaken),
    ensures
        connect(plan, lock, dialed, upgrade, shaken, readied) is Ok <==> {
            &&& lock is Some
            &&& dialed is Ok
            &&& needs_upgrade(plan.ver, dialed->Ok_0) ==> upgrade is Some
            &&& shaken(wants_h2(plan.ver, dialed->Ok_0)) is Ok
            &&& readied is Ok
        },
        connect(plan, lock, dialed, upgrade, shaken, readied) matches Ok((held, client)) ==> {
            &&& client.conn_info == dialed->Ok_0
            &&& client.tx is Http2 <==> wants_h2(plan.ver, client.conn_info)
            &&& Some(held) == if needs_upgrade(plan.ver, client.conn_info) {
                upgrade
            } else {
                lock
            }
        },
{
}

/// The first step that fails decides the error: a lock that is not had cancels, a
/// connector that fails is a connect error, and all that follows on the connection
/// is an error on the way of the request.
pub proof fn first_failing_step_decides<L, B, X, S>(
    plan: ConnectTo,
    lock: Option<L>,
    dialed: Result<Connected<X>, S>,
    upgrade: Option<L>,
    shaken: spec_fn(bool) -> Result<PoolTx<B>, S>,
    readied: Result<(), S>,
)
    ensures
        connect(plan, lock, dialed, upgrade, shaken, readied) matches Err(err) ==> {
            &&& err.kind == ErrorKind::Canceled <==> {
                ||| lock is None
                ||| dialed is Ok && needs_upgrade(plan.ver, dialed->Ok_0) && upgrade is None
            }
            &&& err.kind == ErrorKind::Connect <==> lock is Some && dialed is Err
            &&& err.kind == ErrorKind::Canceled || err.kind == ErrorKind::Connect || err.kind
                == ErrorKind::SendRequest
        },
        lock is Some && dialed is Err ==> connect(plan, lock, dialed, upgrade, shaken, readied)
            == Err::<(L, PoolClient<B, X>), Error<S>>(caused(ErrorKind::Connect, dialed->Err_0)),
        lock is Some && dialed is Ok && (needs_upgrade(plan.ver, dialed->Ok_0) ==> upgrade is Some)
            ==> (match shaken(wants_h2(plan.ver, dialed->Ok_0)) {
            Ok(_) => readied is Err ==> connect(plan, lock, dialed, upgrade, shaken, readied)
                == Err::<(L, PoolClient<B, X>), Error<S>>(
                caused(ErrorKind::SendRequest, readied->Err_0),
            ),
            Err(src) => connect(plan, lock, dialed, upgrade, shaken, readied) == Err::<
                (L, PoolClient<B, X>),
                Error<S>,
            >(caused(ErrorKind::SendRequest, src)),
        }),
{
}

/// A client that is held to HTTP/2 never gets an HTTP/1 connection, and never asks
/// for another lock.
pub proof fn http2_only_prevents_http1<L, B, X, S>(
    plan: ConnectTo,
    lock: Option<L>,
    dialed: Result<Connected<X>, S>,
    upgrade: Option<L>,
    shaken: spec_fn(bool) -> Result<PoolTx<B>, S>,
    readied: Result<(), S>,
)
    requires
        keeps_protocol(shaken),
        plan.ver == Ver::Http2,
    ensures
        connect(plan, lock, dialed, upgrade, shaken, readied) matches Ok((_, client)) ==> client.tx
            is Http2,
        forall|dialing: Dialing<L>|
            dialing.ver == plan.ver ==> !(#[trigger] connected_of(dialing, dialed) matches Ok(
                Negotiated::Upgrade { .. },
            )),
{
}

} // verus!
