//! The request envelope: metadata that stays readable, and a body that is
//! handed out once.

use vstd::prelude::*;

use crate::body::{Body, BodyState};

verus! {

#[verifier::external_type_specification]
#[verifier::external_body]
#[verifier::reject_recursive_types(T)]
pub struct ExHeaderMap<T>(hyper::HeaderMap<T>);

#[verifier::external_type_specification]
#[verifier::external_body]
pub struct ExHeaderValue(hyper::header::HeaderValue);

/// The request method.
#[derive(Clone, Copy, Debug, PartialEq, Eq, Structural)]
pub enum Method {
    Get,
    Head,
    Post,
    Put,
    Delete,
    Connect,
    Options,
    Trace,
    Patch,
}

/// The protocol version the request was made with.
#[derive(Clone, Copy, Debug, PartialEq, Eq, Structural)]
pub enum Protocol {
    Http10,
    Http11,
    Http2,
}

/// A request whose line and headers have been parsed and whose body is still
/// unread.
pub struct Request {
    method: Method,
    protocol: Protocol,
    uri: String,
    body: Body,
    headers: hyper::HeaderMap,
}

impl Request {
    pub closed spec fn method_spec(&self) -> Method {
        self.method
    }

    pub closed spec fn protocol_spec(&self) -> Protocol {
        self.protocol
    }

    pub closed spec fn uri_spec(&self) -> Seq<char> {
        self.uri@
    }

    pub closed spec fn body_spec(&self) -> BodyState {
        self.body@
    }

    pub closed spec fn headers_spec(&self) -> hyper::HeaderMap {
        self.headers
    }

    /// Puts a request together; nothing is read.
    pub fn new(
        method: Method,
        protocol: Protocol,
        uri: String,
        body: Body,
        headers: hyper::HeaderMap,
    ) -> (r: Request)
        ensures
            r.method_spec() == method,
            r.protocol_spec() == protocol,
            r.uri_spec() == uri@,
            r.body_spec() == body@,
            r.headers_spec() == headers,
    {
        Request { method, protocol, uri, body, headers }
    }

    pub fn protocol(&self) -> (r: Protocol)
        ensures
            r == self.protocol_spec(),
    {
        self.protocol
    }

    pub fn method(&self) -> (r: Method)
        ensures
            r == self.method_spec(),
    {
        self.method
    }

    pub fn uri(&self) -> (r: &str)
        ensures
            r@ == self.uri_spec(),
    {
        self.uri.as_str()
    }

    /// Hands the body over, giving up the request.
    pub fn into_body(self) -> (r: Body)
        ensures
            r@ == self.body_spec(),
    {
        self.body
    }

    pub fn headers(&self) -> (r: &hyper::HeaderMap)
        ensures
            *r == self.headers_spec(),
    {
        &self.headers
    }
}

} // verus!
