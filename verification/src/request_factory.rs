//! Entry point that parses raw HTTP/1.x text into a request.

use vstd::prelude::*;
use crate::request::Request;
use crate::request::ReqView;
use crate::request::spec_parse_request;
use crate::status::StatusCode;

verus! {

/// Parses a raw HTTP/1.x request, whatever its subversion: every
/// subversion taken in charge shares one request syntax.
pub fn parse_http1x(raw_request: &str, _subversion: &u8) -> (r: Result<Request, StatusCode>)
    ensures
        r matches Ok(q) ==> spec_parse_request(raw_request@) == Ok::<ReqView, StatusCode>(q@),
        r matches Err(e) ==> spec_parse_request(raw_request@) == Err::<ReqView, StatusCode>(e),
{
    Request::parse(raw_request)
}

} // verus!
