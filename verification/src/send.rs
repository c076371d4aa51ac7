//! Sending a request, and sending it again.
//!
//! A connection that was idle may turn out to be closed only when it is handed a
//! request. Where none of the request was written by then, it goes to another
//! connection.

use vstd::prelude::*;

use crate::client::{is_key_of, Client, Pending, Route};
use crate::error::{caused, Error, ErrorKind};
use crate::pool::{handed_of, ClientError, Handed};
use crate::request::Request;

verus! {

/// What sending a request leads to, where `D` is a response.
#[derive(Debug)]
pub enum Sent<D, B, S> {
    Done(Result<D, Error<S>>),
    /// The request is sent again, over another connection.
    Again(Pending<B>),
}

/// What an attempt to send a request decides.
pub enum Verdict<D, B, S> {
    /// The request is answered.
    Answer(Result<D, Error<S>>),
    /// The request is sent again.
    Retry(Request<B>),
}

/// A new connection that fails would fail again. A reused one may just have been idle
/// for too long: where none of the request was written, the request is sent again,
/// unless the client is not to, and then it is canceled.
pub open spec fn verdict<D, B, S>(
    retry: bool,
    attempt: Result<D, ClientError<B, S>>,
) -> Verdict<D, B, S> {
    match attempt {
        Ok(delivered) => Verdict::Answer(Ok(delivered)),
        Err(ClientError::Normal(err)) => Verdict::Answer(Err(err)),
        Err(ClientError::Canceled { connection_reused, req, cause }) => if !connection_reused {
            Verdict::Answer(Err(caused(ErrorKind::SendRequest, cause)))
        } else if retry {
            Verdict::Retry(req)
        } else {
            Verdict::Answer(Err(caused(ErrorKind::Canceled, cause)))
        },
    }
}

/// Whether `sent` is what the attempt leads to: the request that is sent again is the
/// one that came back, with the URI and the destination that it had at first.
pub open spec fn sent_of<D, B, S>(
    retry: bool,
    route: Route,
    attempt: Result<D, ClientError<B, S>>,
    sent: Sent<D, B, S>,
) -> bool {
    match verdict(retry, attempt) {
        Verdict::Answer(outcome) => sent == Sent::<D, B, S>::Done(outcome),
        Verdict::Retry(req) => sent matches Sent::Again(pending) && {
            &&& pending@.0 == (Request { uri: route@.0, ..req })
            &&& pending@.1 == route@.1
        },
    }
}

impl<C, B, E, T, P> Client<C, B, E, T, P> {
    /// Takes what came of sending a request that went by `route`.
    pub fn retryably_send_request<D, S>(
        &self,
        route: Route,
        attempt: Result<D, ClientError<B, S>>,
    ) -> (r: Sent<D, B, S>)
        ensures
            sent_of(self.config.retry_canceled_requests, route, attempt, r),
    {
        match attempt {
            Ok(delivered) => Sent::Done(Ok(delivered)),
            Err(ClientError::Normal(err)) => Sent::Done(Err(err)),
            Err(ClientError::Canceled { connection_reused, req, cause }) => {
                if !connection_reused {
                    Sent::Done(Err(Error::tx(cause)))
                } else if self.config.retry_canceled_requests {
                    Sent::Again(route.pending(req))
                } else {
                    Sent::Done(Err(Error::with(ErrorKind::Canceled, cause)))
                }
            },
        }
    }
}

/// What a sequence of attempts to send a request comes to, where it comes to an end.
pub open spec fn sending<D, B, S>(
    retry: bool,
    attempts: Seq<Result<D, ClientError<B, S>>>,
) -> Option<Result<D, Error<S>>>
    decreases attempts.len(),
{
    if attempts.len() == 0 {
        None
    } else {
        match verdict(retry, attempts[0]) {
            Verdict::Answer(outcome) => Some(outcome),
            Verdict::Retry(_) => sending(retry, attempts.skip(1)),
        }
    }
}

/// A request is sent again if and only if the client retries, the connection was
/// reused, and none of the request was written. A request that may have been written
/// is never sent twice.
pub proof fn only_unwritten_is_sent_again<R, B, S>(
    retry: bool,
    reused: bool,
    handed: Handed<R, B, S>,
)
    ensures
        verdict(retry, handed_of(reused, handed)) is Retry <==> {
            &&& retry
            &&& reused
            &&& handed is Failed
            &&& handed->unwritten is Some
        },
        verdict(retry, handed_of(reused, handed)) matches Verdict::Retry(req) ==> Some(req)
            == handed->unwritten,
{
}

/// What a request is answered that is not sent again: the response; or, where a reused
/// connection failed before any of it was written, a canceled error; or else an error
/// on the way of the request.
pub proof fn answer_of_what_is_not_sent_again<R, B, S>(
    retry: bool,
    reused: bool,
    handed: Handed<R, B, S>,
)
    requires
        verdict(retry, handed_of(reused, handed)) is Answer,
    ensures
        verdict(retry, handed_of(reused, handed))->Answer_0 == (match handed {
            Handed::Answered(response) => Ok::<R, Error<S>>(response),
            Handed::Failed { cause, unwritten } => Err::<R, Error<S>>(
                if reused && unwritten is Some {
                    caused(ErrorKind::Canceled, cause)
                } else {
                    caused(ErrorKind::SendRequest, cause)
                },
            ),
        }),
{
}

/// Where the client retries, every request that a reused connection gave back unwritten
/// is sent again, whatever its method.
pub proof fn what_comes_back_is_sent_again<D, B, S>(
    route: Route,
    attempt: Result<D, ClientError<B, S>>,
    sent: Sent<D, B, S>,
)
    requires
        sent_of(true, route, attempt, sent),
    ensures
        sent is Again <==> attempt matches Err(
            ClientError::Canceled { connection_reused: true, .. },
        ),
{
}

/// A request that is sent again keeps its method, version, header fields and body, and
/// goes by the URI and to the destination that it went to at first, whatever form it
/// was sent in.
pub proof fn request_is_sent_again_as_it_was<D, B, S>(
    first: Pending<B>,
    route: Route,
    attempt: Result<D, ClientError<B, S>>,
    again: Pending<B>,
)
    requires
        route@.0@ == first@.0.uri@,
        route@.1 == first@.1,
        is_key_of(first@.1, first@.0.uri@),
        sent_of(true, route, attempt, Sent::Again(again)),
    ensures
        again@.0.uri@ == first@.0.uri@,
        again@.1 == first@.1,
        is_key_of(again@.1, again@.0.uri@),
        verdict(true, attempt) matches Verdict::Retry(req) && {
            &&& again@.0.method == req.method
            &&& again@.0.version == req.version
            &&& again@.0.headers == req.headers
            &&& again@.0.body == req.body
        },
{
}

/// The attempts end with the first that is not to be made again, and it decides: the
/// failures of connections before it do not show.
pub proof fn first_lasting_send_decides<D, B, S>(
    retry: bool,
    attempts: Seq<Result<D, ClientError<B, S>>>,
    n: int,
)
    requires
        0 <= n < attempts.len(),
        forall|i: int| 0 <= i < n ==> verdict(retry, #[trigger] attempts[i]) is Retry,
        verdict(retry, attempts[n]) is Answer,
    ensures
        sending(retry, attempts) == Some(verdict(retry, attempts[n])->Answer_0),
    decreases n,
{
    if n > 0 {
        assert(verdict(retry, attempts[0]) is Retry);
        let rest = attempts.skip(1);
        assert forall|i: int| 0 <= i < n - 1 implies verdict(retry, #[trigger] rest[i]) is Retry by {
            assert(rest[i] == attempts[i + 1]);
        }
        first_lasting_send_decides(retry, rest, n - 1);
    }
}

/// A client that retries answers a request with the response of another connection,
/// where a reused one failed before any of the request was written.
pub proof fn unwritten_request_is_answered_by_another_connection<D, B, S>(
    attempts: Seq<Result<D, ClientError<B, S>>>,
    response: D,
)
    requires
        attempts.len() >= 2,
        attempts[0] matches Err(ClientError::Canceled { connection_reused: true, .. }),
        attempts[1] == Ok::<D, ClientError<B, S>>(response),
    ensures
        sending(true, attempts) == Some(Ok::<D, Error<S>>(response)),
{
    first_lasting_send_decides(true, attempts, 1);
}

/// A client that does not retry sends a request once, and cancels it where a reused
/// connection failed before any of the request was written.
pub proof fn without_retry_a_request_is_sent_once<D, B, S>(
    attempts: Seq<Result<D, ClientError<B, S>>>,
)
    requires
        attempts.len() > 0,
    ensures
        sending(false, attempts) is Some,
        attempts[0] matches Ok(response) ==> sending(false, attempts) == Some(
            Ok::<D, Error<S>>(response),
        ),
        attempts[0] matches Err(ClientError::Normal(err)) ==> sending(false, attempts) == Some(
            Err::<D, Error<S>>(err),
        ),
        attempts[0] matches Err(
            ClientError::Canceled { connection_reused: true, req: _, cause },
        ) ==> sending(false, attempts) == Some(
            Err::<D, Error<S>>(caused(ErrorKind::Canceled, cause)),
        ),
{
}

} // verus!
