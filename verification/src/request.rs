//! Requests.

use vstd::prelude::*;

use crate::uri::Uri;

verus! {

/// The name of a method that is none of those with a variant of their own.
#[derive(Debug)]
pub struct MethodName {
    text: String,
}

impl View for MethodName {
    type V = Seq<char>;

    closed spec fn view(&self) -> Seq<char> {
        self.text@
    }
}

impl MethodName {
    #[verifier::type_invariant]
    spec fn valid(self) -> bool {
        !is_known(self.text@)
    }
}

/// Whether a method of this name has a variant of its own.
pub open spec fn is_known(name: Seq<char>) -> bool {
    ||| name == "OPTIONS"@
    ||| name == "GET"@
    ||| name == "POST"@
    ||| name == "PUT"@
    ||| name == "DELETE"@
    ||| name == "HEAD"@
    ||| name == "TRACE"@
    ||| name == "CONNECT"@
    ||| name == "PATCH"@
}

/// The method of a request.
#[derive(Debug)]
pub enum Method {
    Options,
    Get,
    Post,
    Put,
    Delete,
    Head,
    Trace,
    Connect,
    Patch,
    Extension(MethodName),
}

impl Method {
    /// The name of the method.
    pub open spec fn name(self) -> Seq<char> {
        match self {
            Method::Options => "OPTIONS"@,
            Method::Get => "GET"@,
            Method::Post => "POST"@,
            Method::Put => "PUT"@,
            Method::Delete => "DELETE"@,
            Method::Head => "HEAD"@,
            Method::Trace => "TRACE"@,
            Method::Connect => "CONNECT"@,
            Method::Patch => "PATCH"@,
            Method::Extension(name) => name@,
        }
    }

    /// The method of the given name.
    pub fn named(name: &str) -> (r: Method)
        ensures
            r.name() == name@,
            r is Extension <==> !is_known(name@),
    {
        let text = name.to_string();
        if text == "OPTIONS".to_string() {
            Method::Options
        } else if text == "GET".to_string() {
            Method::Get
        } else if text == "POST".to_string() {
            Method::Post
        } else if text == "PUT".to_string() {
            Method::Put
        } else if text == "DELETE".to_string() {
            Method::Delete
        } else if text == "HEAD".to_string() {
            Method::Head
        } else if text == "TRACE".to_string() {
            Method::Trace
        } else if text == "CONNECT".to_string() {
            Method::Connect
        } else if text == "PATCH".to_string() {
            Method::Patch
        } else {
            Method::Extension(MethodName { text })
        }
    }

    /// The name of the method.
    pub fn as_str(&self) -> (r: &str)
        ensures
            r@ == self.name(),
    {
        match self {
            Method::Options => "OPTIONS",
            Method::Get => "GET",
            Method::Post => "POST",
            Method::Put => "PUT",
            Method::Delete => "DELETE",
            Method::Head => "HEAD",
            Method::Trace => "TRACE",
            Method::Connect => "CONNECT",
            Method::Patch => "PATCH",
            Method::Extension(name) => name.text.as_str(),
        }
    }

    /// Whether the request asks for a tunnel.
    pub fn is_connect(&self) -> (r: bool)
        ensures
            r == (self is Connect),
            r == (self.name() == "CONNECT"@),
    {
        proof {
            if let Method::Extension(name) = self {
                use_type_invariant(name);
            }
            // Only `OPTIONS` is as long.
            reveal_strlit("OPTIONS");
            reveal_strlit("GET");
            reveal_strlit("POST");
            reveal_strlit("PUT");
            reveal_strlit("DELETE");
            reveal_strlit("HEAD");
            reveal_strlit("TRACE");
            reveal_strlit("CONNECT");
            reveal_strlit("PATCH");
            assert("OPTIONS"@[0] != "CONNECT"@[0]);
        }
        matches!(self, Method::Connect)
    }
}

/// The version of HTTP that a request asks for.
#[derive(Clone, Copy, Debug, PartialEq, Eq, Structural)]
pub enum Version {
    Http09,
    Http10,
    Http11,
    Http2,
    Http3,
}

/// A request with a body of type `B`.
#[derive(Debug)]
pub struct Request<B> {
    pub method: Method,
    pub uri: Uri,
    pub version: Version,
    pub headers: http::HeaderMap,
    pub body: B,
}

} // verus!
