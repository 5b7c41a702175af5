//! Protocol-specific rendering of `Set-Cookie` header text.

use vstd::prelude::*;
use crate::cookie::Cookie;
use crate::cookie::spec_cookie_header;
use crate::protocol::Protocol;

verus! {

/// The `Set-Cookie` text for `cookie` under `protocol`: the HTTP/1 header
/// for an HTTP/1 protocol, and nothing for an unusable one.
pub fn generate_header(cookie: &Cookie, protocol: &Protocol) -> (r: String)
    ensures
        r@ == match *protocol {
            Protocol::Http1(_) => spec_cookie_header(cookie@),
            Protocol::Error => Seq::<char>::empty(),
        },
{
    match protocol {
        Protocol::Http1(v) => generate_header_http1(cookie, v),
        Protocol::Error => String::new(),
    }
}

/// The `Set-Cookie` text of `cookie` for every HTTP/1 subversion.
pub fn generate_header_http1(cookie: &Cookie, _version: &u8) -> (r: String)
    ensures
        r@ == spec_cookie_header(cookie@),
{
    cookie.generate_header()
}

} // verus!
