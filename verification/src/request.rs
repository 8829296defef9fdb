//! Request descriptors and the error taxonomy.
//!
//! A query builder's terminal step produces an [`ApiRequest`]: the
//! method, the fully rendered URL and an optional JSON body.  Executing
//! it is the transport collaborator's job; every failure it can surface
//! is one of the [`ApiError`] variants.

use vstd::prelude::*;

verus! {

#[derive(Debug, PartialEq, Eq, Clone, Copy)]
pub enum HttpMethod {
    Get,
    Post,
    Patch,
    Delete,
}

impl HttpMethod {
    /// The wire name of the method.
    pub open spec fn wire_spec(self) -> Seq<char> {
        match self {
            HttpMethod::Get => "GET"@,
            HttpMethod::Post => "POST"@,
            HttpMethod::Patch => "PATCH"@,
            HttpMethod::Delete => "DELETE"@,
        }
    }

    pub fn as_str(&self) -> (r: &'static str)
        ensures
            r@ == self.wire_spec(),
    {
        match self {
            HttpMethod::Get => "GET",
            HttpMethod::Post => "POST",
            HttpMethod::Patch => "PATCH",
            HttpMethod::Delete => "DELETE",
        }
    }
}

/// One fully-formed request: method, URL, optional JSON body.
pub struct ApiRequest {
    pub method: HttpMethod,
    pub url: String,
    pub body: Option<String>,
}

/// Everything a dispatch can fail with.  Errors are surfaced to the
/// immediate caller; nothing is retried or swallowed.
#[derive(Debug, Clone)]
pub enum ApiError {
    /// The network round trip itself failed.
    Transport(String),
    /// The server answered with a status code the endpoint does not
    /// accept; the body is kept for diagnostics.
    HttpStatus(u16, String),
    /// The response body does not match the expected shape.
    Deserialization(String),
}

} // verus!
