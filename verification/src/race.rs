//! The race for a connection between the pool and the connector.

use vstd::prelude::*;

use crate::client::Client;
use crate::config::Ver;
use crate::error::{caused, Error, ErrorKind};

verus! {

/// The pool could not hand out a connection.
#[derive(Debug)]
pub struct CheckoutError<S> {
    /// Whether the pool just gave up on it, so that another way may still work.
    pub canceled: bool,
    pub cause: S,
}

/// Neither the pool nor the connector gave a connection.
#[derive(Debug)]
pub enum ClientConnectError<S> {
    Normal(Error<S>),
    /// The connection that was waited for has closed: another try may work.
    CheckoutIsClosed(CheckoutError<S>),
}

/// The first to answer, where `P` is a connection.
#[derive(Debug)]
pub enum Raced<P, S> {
    /// The pool, and whether the connection was started meanwhile.
    Checkout { outcome: Result<P, CheckoutError<S>>, connect_started: bool },
    /// The connector.
    Connect(Result<P, Error<S>>),
}

/// What the first answer leads to.
#[derive(Debug)]
pub enum OneConnection<P, S> {
    /// There is a connection. Where `finish_connecting` holds, the one that was
    /// started is to be finished in the background, for the pool.
    Found { pooled: P, finish_connecting: bool },
    /// The answer of the connector decides.
    AwaitConnect,
    /// The answer of the pool decides.
    AwaitCheckout,
    Failed(ClientConnectError<S>),
}

/// What a try for a connection leads to.
#[derive(Debug)]
pub enum ConnectionFor<P, S> {
    Done(Result<P, Error<S>>),
    /// Another try is made.
    Again,
}

/// A connection is used, whoever gives it. Of two ways, one that is canceled
/// leaves it to the other, and one that fails otherwise decides.
pub open spec fn raced_of<P, S>(raced: Raced<P, S>) -> OneConnection<P, S> {
    match raced {
        Raced::Checkout { outcome: Ok(pooled), connect_started } => OneConnection::Found {
            pooled,
            finish_connecting: connect_started,
        },
        Raced::Checkout { outcome: Err(err), connect_started: _ } => if err.canceled {
            OneConnection::AwaitConnect
        } else {
            OneConnection::Failed(ClientConnectError::Normal(caused(ErrorKind::Connect, err.cause)))
        },
        Raced::Connect(Ok(pooled)) => OneConnection::Found { pooled, finish_connecting: false },
        Raced::Connect(Err(err)) => if err.kind == ErrorKind::Canceled {
            OneConnection::AwaitCheckout
        } else {
            OneConnection::Failed(ClientConnectError::Normal(err))
        },
    }
}

/// The answer of the connector, after the pool gave up.
pub open spec fn connect_decides<P, S>(outcome: Result<P, Error<S>>) -> Result<
    P,
    ClientConnectError<S>,
> {
    match outcome {
        Ok(pooled) => Ok(pooled),
        Err(err) => Err(ClientConnectError::Normal(err)),
    }
}

/// The answer of the pool, after the connection was canceled. That the pool gives
/// up as well, where connections are shared, means that the one being made has
/// closed.
pub open spec fn checkout_decides<P, S>(
    ver: Ver,
    outcome: Result<P, CheckoutError<S>>,
) -> Result<P, ClientConnectError<S>> {
    match outcome {
        Ok(pooled) => Ok(pooled),
        Err(err) => if ver == Ver::Http2 && err.canceled {
            Err(ClientConnectError::CheckoutIsClosed(err))
        } else {
            Err(ClientConnectError::Normal(caused(ErrorKind::Connect, err.cause)))
        },
    }
}

/// A try that failed because a connection closed under it is made again, unless
/// the client is not to: then the request is canceled.
pub open spec fn tried_of<P, S>(
    retry: bool,
    attempt: Result<P, ClientConnectError<S>>,
) -> ConnectionFor<P, S> {
    match attempt {
        Ok(pooled) => ConnectionFor::Done(Ok(pooled)),
        Err(ClientConnectError::Normal(err)) => ConnectionFor::Done(Err(err)),
        Err(ClientConnectError::CheckoutIsClosed(reason)) => if retry {
            ConnectionFor::Again
        } else {
            ConnectionFor::Done(Err(caused(ErrorKind::Canceled, reason.cause)))
        },
    }
}

impl<C, B, E, T, PL> Client<C, B, E, T, PL> {
    /// Takes the first answer of the race.
    pub fn one_connection_for<P, S>(&self, raced: Raced<P, S>) -> (r: OneConnection<P, S>)
        ensures
            r == raced_of(raced),
    {
        match raced {
            // The pool won. Where the connection was started, it is let finish, so
            // as not to waste it.
            Raced::Checkout { outcome: Ok(pooled), connect_started } => OneConnection::Found {
                pooled,
                finish_connecting: connect_started,
            },
            Raced::Connect(Ok(pooled)) => OneConnection::Found {
                pooled,
                finish_connecting: false,
            },
            // A connection is canceled where an HTTP/2 connection is on the way. The
            // pool gives up where it cannot deliver a connection reliably. In both
            // cases the other one decides.
            Raced::Checkout { outcome: Err(err), connect_started: _ } => {
                if err.canceled {
                    OneConnection::AwaitConnect
                } else {
                    OneConnection::Failed(
                        ClientConnectError::Normal(Error::with(ErrorKind::Connect, err.cause)),
                    )
                }
            },
            Raced::Connect(Err(err)) => {
                if err.is_canceled() {
                    OneConnection::AwaitCheckout
                } else {
                    OneConnection::Failed(ClientConnectError::Normal(err))
                }
            },
        }
    }

    /// Takes the answer of the connector, after the pool gave up.
    pub fn connect_answer<P, S>(&self, outcome: Result<P, Error<S>>) -> (r: Result<
        P,
        ClientConnectError<S>,
    >)
        ensures
            r == connect_decides(outcome),
    {
        match outcome {
            Ok(pooled) => Ok(pooled),
            Err(err) => Err(ClientConnectError::Normal(err)),
        }
    }

    /// Takes the answer of the pool, after the connection was canceled.
    pub fn checkout_answer<P, S>(&self, outcome: Result<P, CheckoutError<S>>) -> (r: Result<
        P,
        ClientConnectError<S>,
    >)
        ensures
            r == checkout_decides(self.config.ver, outcome),
    {
        match outcome {
            Ok(pooled) => Ok(pooled),
            Err(err) => {
                if self.config.ver == Ver::Http2 && err.canceled {
                    Err(ClientConnectError::CheckoutIsClosed(err))
                } else {
                    Err(ClientConnectError::Normal(Error::with(ErrorKind::Connect, err.cause)))
                }
            },
        }
    }

    /// Takes what came of a try for a connection.
    pub fn connection_for<P, S>(&self, attempt: Result<P, ClientConnectError<S>>) -> (r: ConnectionFor<
        P,
        S,
    >)
        ensures
            r == tried_of(self.config.retry_canceled_requests, attempt),
    {
        match attempt {
            Ok(pooled) => ConnectionFor::Done(Ok(pooled)),
            Err(ClientConnectError::Normal(err)) => ConnectionFor::Done(Err(err)),
            Err(ClientConnectError::CheckoutIsClosed(reason)) => {
                if self.config.retry_canceled_requests {
                    ConnectionFor::Again
                } else {
                    ConnectionFor::Done(Err(Error::with(ErrorKind::Canceled, reason.cause)))
                }
            },
        }
    }
}

/// What a try for a connection comes to: the first answer, and that of the other
/// one where the first leaves it to it.
pub open spec fn one_connection<P, S>(
    ver: Ver,
    first: Raced<P, S>,
    connect: Result<P, Error<S>>,
    checkout: Result<P, CheckoutError<S>>,
) -> Result<P, ClientConnectError<S>> {
    match raced_of(first) {
        OneConnection::Found { pooled, finish_connecting: _ } => Ok(pooled),
        OneConnection::AwaitConnect => connect_decides(connect),
        OneConnection::AwaitCheckout => checkout_decides(ver, checkout),
        OneConnection::Failed(err) => Err(err),
    }
}

/// What a sequence of tries comes to, where it comes to an end.
pub open spec fn connection<P, S>(
    retry: bool,
    attempts: Seq<Result<P, ClientConnectError<S>>>,
) -> Option<Result<P, Error<S>>>
    decreases attempts.len(),
{
    if attempts.len() == 0 {
        None
    } else {
        match tried_of(retry, attempts[0]) {
            ConnectionFor::Done(outcome) => Some(outcome),
            ConnectionFor::Again => connection(retry, attempts.skip(1)),
        }
    }
}

/// A connection that either way gives is used: a try fails only where a way failed
/// that decides, and it is never the error of a way that was canceled while the
/// other one succeeded.
pub proof fn canceled_way_leaves_it_to_the_other<P, S>(
    ver: Ver,
    first: Raced<P, S>,
    connect: Result<P, Error<S>>,
    checkout: Result<P, CheckoutError<S>>,
)
    ensures
        one_connection(ver, first, connect, checkout) is Ok <==> (match first {
            Raced::Checkout { outcome: Ok(_), .. } => true,
            Raced::Checkout { outcome: Err(err), .. } => err.canceled && connect is Ok,
            Raced::Connect(Ok(_)) => true,
            Raced::Connect(Err(err)) => err.kind == ErrorKind::Canceled && checkout is Ok,
        }),
        first matches Raced::Checkout { outcome: Ok(p), .. } ==> one_connection(
            ver,
            first,
            connect,
            checkout,
        ) == Ok::<P, ClientConnectError<S>>(p),
        first matches Raced::Connect(Ok(p)) ==> one_connection(ver, first, connect, checkout)
            == Ok::<P, ClientConnectError<S>>(p),
        first matches Raced::Checkout { outcome: Err(err), .. } ==> (err.canceled ==> (connect
            matches Ok(p) ==> one_connection(ver, first, connect, checkout) == Ok::<
            P,
            ClientConnectError<S>,
        >(p))),
        first matches Raced::Connect(Err(err)) ==> (err.kind == ErrorKind::Canceled ==> (checkout
            matches Ok(p) ==> one_connection(ver, first, connect, checkout) == Ok::<
            P,
            ClientConnectError<S>,
        >(p))),
{
}

/// Whoever has answered is not waited for: after the pool only the connector can be
/// left to decide, and after the connector only the pool. A connection is finished in
/// the background only where the pool won and it was started.
pub proof fn answer_is_not_awaited_again<P, S>(raced: Raced<P, S>)
    ensures
        raced is Checkout ==> !(raced_of(raced) is AwaitCheckout),
        raced is Connect ==> !(raced_of(raced) is AwaitConnect),
        raced_of(raced) matches OneConnection::Found { finish_connecting, .. } ==> (
        finish_connecting <==> raced is Checkout && raced->connect_started),
{
}

/// A client that is not held to HTTP/2 never starts over: its first try decides.
pub proof fn only_http2_starts_over<P, S>(
    ver: Ver,
    retry: bool,
    first: Raced<P, S>,
    connect: Result<P, Error<S>>,
    checkout: Result<P, CheckoutError<S>>,
)
    ensures
        tried_of(retry, one_connection(ver, first, connect, checkout)) is Again ==> ver
            == Ver::Http2 && retry,
{
}

/// The tries end with the first that is not to be made again, and it decides.
pub proof fn first_lasting_try_decides<P, S>(
    retry: bool,
    attempts: Seq<Result<P, ClientConnectError<S>>>,
    n: int,
)
    requires
        0 <= n < attempts.len(),
        forall|i: int| 0 <= i < n ==> tried_of(retry, #[trigger] attempts[i]) is Again,
        tried_of(retry, attempts[n]) is Done,
    ensures
        connection(retry, attempts) == Some(tried_of(retry, attempts[n])->Done_0),
    decreases n,
{
    if n > 0 {
        assert(tried_of(retry, attempts[0]) is Again);
        let rest = attempts.skip(1);
        assert forall|i: int| 0 <= i < n - 1 implies tried_of(retry, #[trigger] rest[i]) is Again by {
            assert(rest[i] == attempts[i + 1]);
        }
        first_lasting_try_decides(retry, rest, n - 1);
    }
}

/// A client that does not retry makes one try, and a connection that closed under
/// it cancels the request.
pub proof fn without_retry_the_first_try_decides<P, S>(
    attempts: Seq<Result<P, ClientConnectError<S>>>,
)
    requires
        attempts.len() > 0,
    ensures
        connection(false, attempts) is Some,
        attempts[0] matches Ok(p) ==> connection(false, attempts) == Some(Ok::<P, Error<S>>(p)),
        attempts[0] matches Err(ClientConnectError::Normal(err)) ==> connection(false, attempts)
            == Some(Err::<P, Error<S>>(err)),
        attempts[0] matches Err(ClientConnectError::CheckoutIsClosed(reason)) ==> connection(
            false,
            attempts,
        ) == Some(Err::<P, Error<S>>(caused(ErrorKind::Canceled, reason.cause))),
{
}

} // verus!
