//! Errors, and the methods of requests.

use vstd::prelude::*;

use crate::error::{Cause, Error, ErrorKind};
use crate::request::Method;

verus! {

/// An error tells its kind and what is behind it, and is canceled if its kind is.
pub proof fn error_tells_its_kind<S>(
    kind: ErrorKind,
    src: S,
    plain: Error<S>,
    caused: Error<S>,
    canceled: bool,
)
    requires
        call_ensures(Error::<S>::new, (kind,), plain),
        call_ensures(Error::<S>::with, (kind, src), caused),
        call_ensures(Error::<S>::is_canceled, (&caused,), canceled),
    ensures
        plain.kind == kind && plain.source is None,
        caused.kind == kind && caused.source == Some(Cause::Outside(src)),
        canceled <==> kind == ErrorKind::Canceled,
{
}

/// What fails on a connection is an error on the way of the request, and a connection
/// that takes no more requests is a closed channel.
pub proof fn connection_errors<S>(src: S, tx: Error<S>, closed: Error<S>)
    requires
        call_ensures(Error::<S>::tx, (src,), tx),
        call_ensures(Error::<S>::closed, (src,), closed),
    ensures
        tx.kind == ErrorKind::SendRequest && tx.source == Some(Cause::Outside(src)),
        closed.kind == ErrorKind::ChannelClosed && closed.source == Some(Cause::Outside(src)),
{
}

/// An error in words names its kind.
pub proof fn error_in_words_names_its_kind<S>(error: &Error<S>, words: String)
    requires
        call_ensures(Error::<S>::message, (error,), words),
    ensures
        error.kind == ErrorKind::Canceled ==> words@ == "client error ("@ + "Canceled"@ + ")"@,
        error.kind == ErrorKind::ChannelClosed ==> words@ == "client error ("@ + "ChannelClosed"@ + ")"@,
        error.kind == ErrorKind::Connect ==> words@ == "client error ("@ + "Connect"@ + ")"@,
        error.kind == ErrorKind::UserUnsupportedRequestMethod ==> words@ == "client error ("@ + "UserUnsupportedRequestMethod"@ + ")"@,
        error.kind == ErrorKind::UserUnsupportedVersion ==> words@ == "client error ("@ + "UserUnsupportedVersion"@ + ")"@,
        error.kind == ErrorKind::UserAbsoluteUriRequired ==> words@ == "client error ("@ + "UserAbsoluteUriRequired"@ + ")"@,
        error.kind == ErrorKind::SendRequest ==> words@ == "client error ("@ + "SendRequest"@ + ")"@,
{
}

/// An error tells what is behind it.
pub proof fn error_tells_its_source<S>(error: &Error<S>, source: Option<&Cause<S>>)
    requires
        call_ensures(Error::<S>::source, (error,), source),
    ensures
        source is Some <==> error.source is Some,
        error.source is Some ==> *source->0 == error.source->0,
{
}

/// A method goes by its name, and asks for a tunnel if and only if the name is `CONNECT`.
pub proof fn methods_go_by_name(name: &str, method: Method, told: &str, is_connect: bool)
    requires
        call_ensures(Method::named, (name,), method),
        call_ensures(Method::as_str, (&method,), told),
        call_ensures(Method::is_connect, (&method,), is_connect),
    ensures
        told@ == name@,
        is_connect <==> name@ == "CONNECT"@,
        method is Connect <==> name@ == "CONNECT"@,
        method is Options ==> name@ == "OPTIONS"@,
        method is Get ==> name@ == "GET"@,
        method is Post ==> name@ == "POST"@,
        method is Put ==> name@ == "PUT"@,
        method is Delete ==> name@ == "DELETE"@,
        method is Head ==> name@ == "HEAD"@,
        method is Trace ==> name@ == "TRACE"@,
        method is Patch ==> name@ == "PATCH"@,
        method is Extension ==> name@ != "OPTIONS"@ && name@ != "GET"@ && name@ != "POST"@ && name@ != "PUT"@ && name@ != "DELETE"@ && name@ != "HEAD"@ && name@ != "TRACE"@ && name@ != "CONNECT"@ && name@ != "PATCH"@,
{
}

} // verus!
