//! The HTTP methods the server understands.

use vstd::prelude::*;

verus! {

/// A request method. Unknown tokens fall back to `GET`, a deliberate
/// leniency that keeps unrecognized extension methods from blocking
/// low-risk reads.
#[derive(Debug, Clone, Copy, PartialEq, Eq, Hash, Structural)]
pub enum HttpMethod {
    HEAD,
    GET,
    POST,
    DELETE,
    PUT,
    OPTIONS,
}

/// The method a token denotes; anything unrecognized is read as `GET`.
pub open spec fn spec_method_from(s: Seq<char>) -> HttpMethod {
    if s == "HEAD"@ {
        HttpMethod::HEAD
    } else if s == "POST"@ {
        HttpMethod::POST
    } else if s == "DELETE"@ {
        HttpMethod::DELETE
    } else if s == "PUT"@ {
        HttpMethod::PUT
    } else if s == "OPTIONS"@ {
        HttpMethod::OPTIONS
    } else {
        HttpMethod::GET
    }
}

/// The wire token of a method.
pub open spec fn spec_method_token(m: HttpMethod) -> Seq<char> {
    match m {
        HttpMethod::GET => "GET"@,
        HttpMethod::HEAD => "HEAD"@,
        HttpMethod::POST => "POST"@,
        HttpMethod::DELETE => "DELETE"@,
        HttpMethod::PUT => "PUT"@,
        HttpMethod::OPTIONS => "OPTIONS"@,
    }
}

impl HttpMethod {
    /// Reads a method token, defaulting to `GET` on anything unknown.
    pub fn from_str(s: &str) -> (m: HttpMethod)
        ensures
            m == spec_method_from(s@),
    {
        if crate::text::str_eq(s, "HEAD") {
            HttpMethod::HEAD
        } else if crate::text::str_eq(s, "POST") {
            HttpMethod::POST
        } else if crate::text::str_eq(s, "DELETE") {
            HttpMethod::DELETE
        } else if crate::text::str_eq(s, "PUT") {
            HttpMethod::PUT
        } else if crate::text::str_eq(s, "OPTIONS") {
            HttpMethod::OPTIONS
        } else {
            HttpMethod::GET
        }
    }

    /// The wire token of the method, e.g. `GET`.
    pub fn to_string(&self) -> (r: String)
        ensures
            r@ == spec_method_token(*self),
    {
        match self {
            HttpMethod::GET => String::from_str("GET"),
            HttpMethod::HEAD => String::from_str("HEAD"),
            HttpMethod::POST => String::from_str("POST"),
            HttpMethod::DELETE => String::from_str("DELETE"),
            HttpMethod::PUT => String::from_str("PUT"),
            HttpMethod::OPTIONS => String::from_str("OPTIONS"),
        }
    }
}

} // verus!
