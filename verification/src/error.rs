//! Client errors.

use vstd::prelude::*;

verus! {

/// What went wrong.
#[derive(Clone, Copy, Debug, PartialEq, Eq, Structural)]
pub enum ErrorKind {
    Canceled,
    ChannelClosed,
    Connect,
    UserUnsupportedRequestMethod,
    UserUnsupportedVersion,
    UserAbsoluteUriRequired,
    SendRequest,
}

impl ErrorKind {
    /// The name of the kind.
    pub open spec fn name(self) -> Seq<char> {
        match self {
            ErrorKind::Canceled => "Canceled"@,
            ErrorKind::ChannelClosed => "ChannelClosed"@,
            ErrorKind::Connect => "Connect"@,
            ErrorKind::UserUnsupportedRequestMethod => "UserUnsupportedRequestMethod"@,
            ErrorKind::UserUnsupportedVersion => "UserUnsupportedVersion"@,
            ErrorKind::UserAbsoluteUriRequired => "UserAbsoluteUriRequired"@,
            ErrorKind::SendRequest => "SendRequest"@,
        }
    }

    /// The name of the kind.
    pub fn as_str(self) -> (r: &'static str)
        ensures
            r@ == self.name(),
    {
        match self {
            ErrorKind::Canceled => "Canceled",
            ErrorKind::ChannelClosed => "ChannelClosed",
            ErrorKind::Connect => "Connect",
            ErrorKind::UserUnsupportedRequestMethod => "UserUnsupportedRequestMethod",
            ErrorKind::UserUnsupportedVersion => "UserUnsupportedVersion",
            ErrorKind::UserAbsoluteUriRequired => "UserAbsoluteUriRequired",
            ErrorKind::SendRequest => "SendRequest",
        }
    }
}

/// What is behind an error: an error that the client was handed, or a message.
#[derive(Debug)]
pub enum Cause<S> {
    Outside(S),
    Message(&'static str),
}

/// Client errors.
#[derive(Debug)]
pub struct Error<S> {
    pub kind: ErrorKind,
    pub source: Option<Cause<S>>,
}

/// The error of the given kind with nothing behind it.
pub open spec fn plain<S>(kind: ErrorKind) -> Error<S> {
    Error { kind, source: None }
}

/// The error of the given kind with `src` behind it.
pub open spec fn caused<S>(kind: ErrorKind, src: S) -> Error<S> {
    Error { kind, source: Some(Cause::Outside(src)) }
}

impl<S> Error<S> {
    /// An error with nothing behind it.
    pub fn new(kind: ErrorKind) -> (r: Error<S>)
        ensures
            r == plain::<S>(kind),
    {
        Error { kind, source: None }
    }

    /// An error with another one behind it.
    pub fn with(kind: ErrorKind, src: S) -> (r: Error<S>)
        ensures
            r == caused(kind, src),
    {
        Error { kind, source: Some(Cause::Outside(src)) }
    }

    /// Whether the work was canceled.
    pub fn is_canceled(&self) -> (r: bool)
        ensures
            r == (self.kind == ErrorKind::Canceled),
    {
        matches!(self.kind, ErrorKind::Canceled)
    }

    /// An error of a connection on the way of a request.
    pub fn tx(src: S) -> (r: Error<S>)
        ensures
            r == caused(ErrorKind::SendRequest, src),
    {
        Error::with(ErrorKind::SendRequest, src)
    }

    /// An error of a connection that takes no more requests.
    pub fn closed(src: S) -> (r: Error<S>)
        ensures
            r == caused(ErrorKind::ChannelClosed, src),
    {
        Error::with(ErrorKind::ChannelClosed, src)
    }

    /// What is behind the error.
    pub fn source(&self) -> (r: Option<&Cause<S>>)
        ensures
            r == (match self.source {
                Some(cause) => Some(&cause),
                None => None,
            }),
    {
        self.source.as_ref()
    }

    /// The error in words, without what is behind it.
    pub fn message(&self) -> (r: String)
        ensures
            r@ == "client error ("@ + self.kind.name() + ")"@,
    {
        "client error (".to_string().concat(self.kind.as_str()).concat(")")
    }
}

} // verus!
