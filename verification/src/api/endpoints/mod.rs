//! The operations of the API: what each one sends and how its answer is read.

use vstd::prelude::*;
use super::Error;
use crate::text::{bytes_debug, debug_bytes, debug_str, str_debug};

pub mod message;

verus! {

/// An operation of the API.
#[derive(Debug)]
pub enum Endpoint {
    /// Understand a text.
    Message(String),
}

impl Clone for Endpoint {
    fn clone(&self) -> (r: Endpoint)
        ensures
            r == *self,
    {
        match self {
            Endpoint::Message(text) => Endpoint::Message(text.clone()),
        }
    }
}

/// An HTTP request method.
#[derive(Clone, Copy, Debug, PartialEq, Eq, Structural)]
pub enum Method {
    Options,
    Get,
    Post,
    Put,
    Delete,
    Head,
    Trace,
    Connect,
    Patch,
}

impl Method {
    /// The method's name as it stands in a request line.
    pub open spec fn name(self) -> Seq<char> {
        match self {
            Method::Options => "OPTIONS"@,
            Method::Get => "GET"@,
            Method::Post => "POST"@,
            Method::Put => "PUT"@,
            Method::Delete => "DELETE"@,
            Method::Head => "HEAD"@,
            Method::Trace => "TRACE"@,
            Method::Connect => "CONNECT"@,
            Method::Patch => "PATCH"@,
        }
    }

    /// The method's name as it stands in a request line.
    pub fn as_str(&self) -> (r: &'static str)
        ensures
            r@ == self.name(),
    {
        match self {
            Method::Options => "OPTIONS",
            Method::Get => "GET",
            Method::Post => "POST",
            Method::Put => "PUT",
            Method::Delete => "DELETE",
            Method::Head => "HEAD",
            Method::Trace => "TRACE",
            Method::Connect => "CONNECT",
            Method::Patch => "PATCH",
        }
    }
}

/// Reading the body of a successful response as a `T`.
pub trait ParseBody<T> {
    /// The bodies that can be read without meeting a member that does not
    /// decode.
    spec fn accepts(&self, body: Seq<u8>) -> bool;

    /// What reading a body gives.
    spec fn parses_to(&self, body: Seq<u8>, r: Result<T, Error>) -> bool;

    /// Reads a body.
    fn parse_body(&self, body: &[u8]) -> (r: Result<T, Error>)
        requires
            self.accepts(body@),
        ensures
            self.parses_to(body@, r),
    ;

    /// Says whether a body can be read.
    fn can_parse(&self, body: &[u8]) -> (b: bool)
        ensures
            b == self.accepts(body@),
    ;

    /// Reads a body if it can be read, and says so if it cannot.
    fn try_parse_body(&self, body: &[u8]) -> (r: Option<Result<T, Error>>)
        ensures
            r is Some <==> self.accepts(body@),
            r matches Some(x) ==> self.parses_to(body@, x),
    {
        if self.can_parse(body) {
            Some(self.parse_body(body))
        } else {
            None
        }
    }
}

impl Endpoint {
    /// The route of the operation.
    pub open spec fn route(&self) -> Seq<char> {
        match self {
            Endpoint::Message(_) => "/message"@,
        }
    }

    /// The query parameters of the operation, unencoded.
    pub open spec fn query_pairs(&self) -> Seq<(Seq<char>, Seq<char>)> {
        match self {
            Endpoint::Message(text) => seq![("q"@, text@)],
        }
    }

    /// How the operation is rendered for diagnostics.
    pub open spec fn rendering(&self) -> Seq<char> {
        match self {
            Endpoint::Message(text) => "Message("@ + str_debug(text@) + ")"@,
        }
    }

    /// The request body: empty for every operation.
    pub fn body(&self) -> (r: Vec<u8>)
        ensures
            r@ == Seq::<u8>::empty(),
    {
        match self {
            Endpoint::Message(_) => Vec::new(),
        }
    }

    /// The request method: `GET` for every operation.
    pub fn method(&self) -> (r: Method)
        ensures
            r == Method::Get,
    {
        match self {
            Endpoint::Message(_) => Method::Get,
        }
    }

    /// The route of the operation.
    pub fn path(&self) -> (r: String)
        ensures
            r@ == self.route(),
    {
        match self {
            Endpoint::Message(_) => message::path(self),
        }
    }

    /// The query parameters of the operation, unencoded.
    pub fn params(&self) -> (r: Vec<(String, String)>)
        ensures
            pairs(r@) == self.query_pairs(),
    {
        match self {
            Endpoint::Message(_) => message::params(self),
        }
    }

    /// Renders the operation for diagnostics, as `Debug` does.
    pub fn debug(&self) -> (r: String)
        ensures
            r@ == self.rendering(),
    {
        match self {
            Endpoint::Message(text) => {
                let mut out = "Message(".to_owned();
                let inner = debug_str(text.as_str());
                out.append(inner.as_str());
                out.append(")");
                out
            },
        }
    }
}

/// A body is read as a string by rendering its bytes, which never fails.
impl ParseBody<String> for Endpoint {
    open spec fn accepts(&self, body: Seq<u8>) -> bool {
        true
    }

    open spec fn parses_to(&self, body: Seq<u8>, r: Result<String, Error>) -> bool {
        r matches Ok(s) && s@ == bytes_debug(body)
    }

    fn parse_body(&self, body: &[u8]) -> (r: Result<String, Error>) {
        Ok(debug_bytes(body))
    }

    fn can_parse(&self, body: &[u8]) -> (b: bool) {
        true
    }
}

/// The contents of a list of key and value pairs.
pub open spec fn pairs(params: Seq<(String, String)>) -> Seq<(Seq<char>, Seq<char>)> {
    params.map_values(|p: (String, String)| (p.0@, p.1@))
}

} // verus!
