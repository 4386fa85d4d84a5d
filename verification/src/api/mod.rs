//! The client: the requests it makes and what it makes of the answers.

use vstd::prelude::*;
use serde_json::Value;
use self::endpoints::message::Message;
use self::endpoints::{pairs, Endpoint, Method, ParseBody};
use crate::json::{
    debug_value, decode_field, decoded_field, from_slice, json_debug, json_parsed, json_view,
    JsonView,
};
use self::query::{pair_text, query};
use crate::text::{bytes_debug, debug_bytes, flatten, intersperse, texts, url_encode};

pub mod endpoints;
pub mod query;

verus! {

/// The credential that goes with every request.
pub enum Authorization {
    Bot(String),
    Bearer(String),
}

impl Authorization {
    /// The value of the `authorization` header: the scheme, a space, the token.
    pub open spec fn header(&self) -> Seq<char> {
        match self {
            Authorization::Bot(token) => "Bot "@ + token@,
            Authorization::Bearer(token) => "Bearer "@ + token@,
        }
    }

    /// The value of the `authorization` header.
    pub fn to_string(&self) -> (r: String)
        ensures
            r@ == self.header(),
    {
        match self {
            Authorization::Bot(token) => {
                let mut out = "Bot ".to_owned();
                out.append(token.as_str());
                out
            },
            Authorization::Bearer(token) => {
                let mut out = "Bearer ".to_owned();
                out.append(token.as_str());
                out
            },
        }
    }
}

/// A failure, as it is surfaced to the caller.
#[derive(Debug)]
pub struct Error {
    pub name: String,
    pub message: String,
    pub code: i16,
    pub debug: String,
}

/// The content of an [`Error`].
pub struct ErrorView {
    pub name: Seq<char>,
    pub message: Seq<char>,
    pub code: i16,
    pub debug: Seq<char>,
}

impl View for Error {
    type V = ErrorView;

    open spec fn view(&self) -> ErrorView {
        ErrorView {
            name: self.name@,
            message: self.message@,
            code: self.code,
            debug: self.debug@,
        }
    }
}

/// An HTTP status as an error code: the same sixteen bits, read as signed.
pub open spec fn status_code(status: u16) -> i16 {
    if status <= 0x7fff {
        status as i16
    } else {
        (status - 0x1_0000) as i16
    }
}

/// What the body of a failed response gives, from what the JSON decoder made
/// of it: the service's own error, named by the member `code` and described by
/// the member `error`, with the status as its code; or a `Bad Response` with
/// code 500 where the body is no JSON.
pub open spec fn failure_outcome(
    status: u16,
    parsed: Result<JsonView, Seq<char>>,
    body: Seq<u8>,
) -> ErrorView {
    match parsed {
        Err(text) => ErrorView {
            name: "Bad Response"@,
            message: text,
            code: 500,
            debug: bytes_debug(body),
        },
        Ok(j) => Error::reported(status, j),
    }
}

impl Error {
    /// An error with the given parts.
    pub fn new(name: &str, message: String, code: i16, debug: String) -> (e: Error)
        ensures
            e@ == (ErrorView { name: name@, message: message@, code: code, debug: debug@ }),
    {
        Error { name: name.to_owned(), message, code, debug }
    }

    /// The values that describe an error: objects with strings under `code`
    /// and `error`.
    pub open spec fn describes(j: JsonView) -> bool {
        &&& decoded_field::<String>(j, "code"@) is Some
        &&& decoded_field::<String>(j, "error"@) is Some
    }

    /// The error that a value describes, for a response with the given status.
    pub open spec fn reported(status: u16, j: JsonView) -> ErrorView {
        ErrorView {
            name: decoded_field::<String>(j, "code"@).unwrap(),
            message: decoded_field::<String>(j, "error"@).unwrap(),
            code: status_code(status),
            debug: json_debug(j),
        }
    }

    /// Says whether a value describes an error.
    pub fn is_described(v: &Value) -> (b: bool)
        ensures
            b == Self::describes(json_view(*v)),
    {
        decode_field::<String>(v, "code").is_some() && decode_field::<String>(v, "error").is_some()
    }

    /// The error that a value describes, for a response with the given status.
    pub fn from_json(status: u16, v: &Value) -> (e: Error)
        requires
            Self::describes(json_view(*v)),
        ensures
            e@ == Self::reported(status, json_view(*v)),
    {
        let name = decode_field::<String>(v, "code").unwrap();
        let message = decode_field::<String>(v, "error").unwrap();
        let code: i16 = if status <= 0x7fff {
            status as i16
        } else {
            (status - 0x8000) as i16 + i16::MIN
        };
        Error { name, message, code, debug: debug_value(v) }
    }

    /// The error for a failed response, given what the JSON decoder made of
    /// its body.
    pub fn from_parsed(status: u16, parsed: Result<Value, String>, body: &[u8]) -> (e: Error)
        requires
            parsed matches Ok(v) ==> Self::describes(json_view(v)),
        ensures
            e@ == failure_outcome(status, endpoints::message::parsed_view(parsed), body@),
    {
        match parsed {
            Err(text) => Error::new("Bad Response", text, 500, debug_bytes(body)),
            Ok(v) => Error::from_json(status, &v),
        }
    }
}

/// A request, ready to be sent.
#[derive(Debug)]
pub struct Request {
    pub method: Method,
    pub url: String,
    pub headers: Vec<(String, String)>,
    pub body: Vec<u8>,
}

/// The content of a [`Request`].
pub struct RequestView {
    pub method: Method,
    pub url: Seq<char>,
    pub headers: Seq<(Seq<char>, Seq<char>)>,
    pub body: Seq<u8>,
}

impl View for Request {
    type V = RequestView;

    open spec fn view(&self) -> RequestView {
        RequestView {
            method: self.method,
            url: self.url@,
            headers: pairs(self.headers@),
            body: self.body@,
        }
    }
}

/// What the request builder objects to in a request with one header: nothing,
/// or the text of its error.
pub uninterp spec fn request_fault(
    header: Seq<char>,
    value: Seq<char>,
    method: Seq<char>,
    url: Seq<char>,
) -> Option<Seq<char>>;

/// `Request::builder` with `header`, `method`, `uri` and `body`, in that
/// order: the `Display` text of the error if the request cannot be built,
/// which depends on the header, the method and the URL alone.
#[verifier::external_body]
fn request_error(header: &str, value: &str, method: &str, url: &str) -> (r: Option<String>)
    ensures
        match r {
            Some(text) => request_fault(header@, value@, method@, url@) == Some(text@),
            None => request_fault(header@, value@, method@, url@) is None,
        },
{
    hyper::Request::builder()
        .header(header, value)
        .method(method)
        .uri(url)
        .body(hyper::Body::empty())
        .err()
        .map(|e| e.to_string())
}

impl Request {
    /// A request that the builder has been asked about: the request itself
    /// where the builder objects to nothing, and else a `Bad Request` with
    /// code 400 that carries the builder's error and the operation.
    pub fn checked(self, fault: Option<String>, e: &Endpoint) -> (r: Result<Request, Error>)
        ensures
            match fault {
                Some(text) => r matches Err(err) && err@ == (ErrorView {
                    name: "Bad Request"@,
                    message: text@,
                    code: 400,
                    debug: e.rendering(),
                }),
                None => r == Ok::<Request, Error>(self),
            },
    {
        match fault {
            Some(text) => Err(Error::new("Bad Request", text, 400, e.debug())),
            None => Ok(self),
        }
    }
}

/// What came of sending a request.
#[derive(Debug)]
pub enum Reply {
    /// No response came; the text says why.
    Unreachable(String),
    /// A response came, but its body could not be read; the text says why.
    Unreadable(String),
    /// A response came, with this status and body.
    Response { status: u16, body: Vec<u8> },
}

/// The client's settings: where the service is and who asks.
pub struct Api {
    base_url: String,
    auth: Authorization,
}

impl Api {
    /// The base URL that the client was made with.
    pub closed spec fn base(&self) -> Seq<char> {
        self.base_url@
    }

    /// The value of the `authorization` header that the client sends.
    pub closed spec fn credential(&self) -> Seq<char> {
        self.auth.header()
    }

    /// A client for the service at `base_url`.
    pub fn new(base_url: String, auth: Authorization) -> (api: Api)
        ensures
            api.base() == base_url@,
            api.credential() == auth.header(),
    {
        Api { base_url, auth }
    }

    /// The URL of a route with its parameters.
    pub open spec fn url(
        &self,
        path: Seq<char>,
        params: Seq<(Seq<char>, Seq<char>)>,
    ) -> Seq<char> {
        self.base() + path + query(params)
    }

    /// The URL of a route with its parameters: the base URL, the path, and
    /// the query.
    pub fn build_url(&self, path: String, params: Vec<(String, String)>) -> (r: String)
        ensures
            r@ == self.url(path@, pairs(params@)),
            params@.len() == 0 ==> r@ == self.base() + path@,
    {
        let mut url = self.base_url.clone();
        url.append(path.as_str());
        if params.len() != 0 {
            let mut parts: Vec<String> = Vec::new();
            let mut i: usize = 0;
            while i < params.len()
                invariant
                    i <= params.len(),
                    parts@.len() == i,
                    forall|k: int|
                        0 <= k < i ==> (#[trigger] parts@[k])@ == pair_text(pairs(params@)[k]),
                decreases params.len() - i,
            {
                let mut part = params[i].0.clone();
                part.append("=");
                proof {
                    reveal_strlit("=");
                }
                let value = url_encode(params[i].1.as_str());
                part.append(value.as_str());
                parts.push(part);
                i += 1;
            }
            proof {
                reveal_strlit("?");
                reveal_strlit("&");
                assert("?"@ =~= seq!['?']);
                assert("&"@ =~= seq!['&']);
                assert(texts(parts@) =~= pairs(params@).map_values(
                    |p: (Seq<char>, Seq<char>)| pair_text(p),
                ));
            }
            let pieces = intersperse(parts, "&".to_owned());
            let tail = flatten(&pieces);
            url.append("?");
            url.append(tail.as_str());
        }
        url
    }

    /// The request for an operation: `GET`, the URL of its route and
    /// parameters, the credential in the header `authorization`, and an
    /// empty body.
    pub open spec fn request_view(&self, e: Endpoint) -> RequestView {
        RequestView {
            method: Method::Get,
            url: self.url(e.route(), e.query_pairs()),
            headers: seq![("authorization"@, self.credential())],
            body: Seq::empty(),
        }
    }

    /// What the request builder objects to in the request for an operation.
    pub open spec fn objection(&self, e: Endpoint) -> Option<Seq<char>> {
        request_fault(
            "authorization"@,
            self.credential(),
            Method::Get.name(),
            self.url(e.route(), e.query_pairs()),
        )
    }

    /// The request for an operation, or a `Bad Request` with code 400 where
    /// the request builder objects to the credential or to the URL.
    pub fn request(&self, e: &Endpoint) -> (r: Result<Request, Error>)
        ensures
            match self.objection(*e) {
                Some(text) => r matches Err(err) && err@ == (ErrorView {
                    name: "Bad Request"@,
                    message: text,
                    code: 400,
                    debug: e.rendering(),
                }),
                None => r matches Ok(request) && request@ == self.request_view(*e),
            },
    {
        let method = e.method();
        let url = self.build_url(e.path(), e.params());
        let credential = self.auth.to_string();
        let fault = request_error(
            "authorization",
            credential.as_str(),
            method.as_str(),
            url.as_str(),
        );
        let mut headers: Vec<(String, String)> = Vec::new();
        headers.push(("authorization".to_owned(), credential));
        assert(pairs(headers@) =~= seq![("authorization"@, self.credential())]);
        let request = Request { method, url, headers, body: e.body() };
        request.checked(fault, e)
    }

    /// The replies that can be settled: a response with status 200 has a body
    /// that can be read, and any other response has a body that is no JSON or
    /// describes an error.
    pub open spec fn settles<R>(e: Endpoint, reply: Reply) -> bool where
        Endpoint: ParseBody<R>,
    {
        reply matches Reply::Response { status, body } ==> if status == 200 {
            <Endpoint as ParseBody<R>>::accepts(&e, body@)
        } else {
            json_parsed(body@) matches Ok(j) ==> Error::describes(j)
        }
    }

    /// What a call gives, for what came of its request.
    pub open spec fn settled<R>(e: Endpoint, reply: Reply, r: Result<R, Error>) -> bool where
        Endpoint: ParseBody<R>,
    {
        match reply {
            Reply::Unreachable(text) => r matches Err(err) && err@ == (ErrorView {
                name: "Service Unavailable"@,
                message: text@,
                code: 503,
                debug: e.rendering(),
            }),
            Reply::Unreadable(text) => r matches Err(err) && err@ == (ErrorView {
                name: "Bad Response"@,
                message: text@,
                code: 500,
                debug: e.rendering(),
            }),
            Reply::Response { status, body } => if status == 200 {
                <Endpoint as ParseBody<R>>::parses_to(&e, body@, r)
            } else {
                r matches Err(err) && err@ == failure_outcome(status, json_parsed(body@), body@)
            },
        }
    }

    /// Says whether a reply can be settled.
    pub fn can_settle<R>(&self, e: &Endpoint, reply: &Reply) -> (b: bool) where
        Endpoint: ParseBody<R>,
        ensures
            b == Self::settles::<R>(*e, *reply),
    {
        match reply {
            Reply::Response { status, body } => if *status == 200 {
                <Endpoint as ParseBody<R>>::can_parse(e, body.as_slice())
            } else {
                match from_slice(body.as_slice()) {
                    Ok(v) => Error::is_described(&v),
                    Err(_) => true,
                }
            },
            _ => true,
        }
    }

    /// Settles a call from what came of its request: the failure to reach the
    /// service or to read its answer becomes an error; the body of a response
    /// with status 200 is read as an `R`; the body of any other response is
    /// read as the service's error.
    pub fn call<R>(&self, e: Endpoint, reply: Reply) -> (r: Result<R, Error>) where
        Endpoint: ParseBody<R>,
        requires
            Self::settles::<R>(e, reply),
        ensures
            Self::settled::<R>(e, reply, r),
    {
        match reply {
            Reply::Unreachable(text) => Err(
                Error::new("Service Unavailable", text, 503, e.debug()),
            ),
            Reply::Unreadable(text) => Err(Error::new("Bad Response", text, 500, e.debug())),
            Reply::Response { status, body } => if status == 200 {
                <Endpoint as ParseBody<R>>::parse_body(&e, body.as_slice())
            } else {
                Err(Error::from_parsed(status, from_slice(body.as_slice()), body.as_slice()))
            },
        }
    }

    /// Settles a call if the reply can be settled, and says so if it cannot.
    pub fn try_call<R>(&self, e: Endpoint, reply: Reply) -> (r: Option<Result<R, Error>>) where
        Endpoint: ParseBody<R>,
        ensures
            r is Some <==> Self::settles::<R>(e, reply),
            r matches Some(x) ==> Self::settled::<R>(e, reply, x),
    {
        if self.can_settle::<R>(&e, &reply) {
            Some(self.call::<R>(e, reply))
        } else {
            None
        }
    }

    /// Settles the understanding of a text from what came of its request.
    pub fn message(&self, msg: String, reply: Reply) -> (r: Result<Message, Error>)
        requires
            Self::settles::<Message>(Endpoint::Message(msg), reply),
        ensures
            Self::settled::<Message>(Endpoint::Message(msg), reply, r),
    {
        self.call::<Message>(Endpoint::Message(msg), reply)
    }

    /// Settles the understanding of a text if the reply can be settled, and
    /// says so if it cannot.
    pub fn try_message(&self, msg: String, reply: Reply) -> (r: Option<Result<Message, Error>>)
        ensures
            r is Some <==> Self::settles::<Message>(Endpoint::Message(msg), reply),
            r matches Some(x) ==> Self::settled::<Message>(Endpoint::Message(msg), reply, x),
    {
        let e = Endpoint::Message(msg);
        if self.can_settle::<Message>(&e, &reply) {
            match e {
                Endpoint::Message(msg) => Some(self.message(msg, reply)),
            }
        } else {
            None
        }
    }
}

} // verus!
