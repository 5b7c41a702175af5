//! The response serializer: renders a structured response into wire text,
//! applying protocol framing and method-based body suppression.

use vstd::prelude::*;
use vstd::string::StringExecFns;
use vstd::utf8::encode_utf8;
use crate::content::ContentType;
use crate::cookie::CookieView;
use crate::cookie::spec_cookie_header;
use crate::method::HttpMethod;
use crate::protocol::Protocol;
use crate::response::RespView;
use crate::response::Response;
use crate::status::HttpStatusCode;
use crate::status::StatusCode;
use crate::status::code_of;
use crate::status::title_of;
use crate::stringmap::Entries;
use crate::stringmap::map_upsert;
use crate::text;

verus! {

/// A response's headers with `Content-Length` and `Content-Type` written
/// in: the length counts the bytes of the body, whether or not the body is
/// transmitted.
pub open spec fn upserted_headers(r: RespView) -> Entries {
    map_upsert(
        map_upsert(
            r.headers,
            "Content-Length"@,
            text::dec_digits((encode_utf8(r.body).len() as usize) as nat),
        ),
        "Content-Type"@,
        r.content_type,
    )
}

/// The header lines, one `name:value` line per entry, in map order.
pub open spec fn header_block(m: Entries) -> Seq<char>
    decreases m.len(),
{
    if m.len() == 0 {
        Seq::<char>::empty()
    } else {
        header_block(m.drop_last()) + m.last().0 + ":"@ + m.last().1 + "\r\n"@
    }
}

/// One `Set-Cookie` line per cookie, in order.
pub open spec fn cookie_block(cs: Seq<CookieView>) -> Seq<char>
    decreases cs.len(),
{
    if cs.len() == 0 {
        Seq::<char>::empty()
    } else {
        cookie_block(cs.drop_last()) + "Set-Cookie: "@ + spec_cookie_header(cs.last()) + "\r\n"@
    }
}

/// The full wire text of a response: the status line, the headers with
/// `Content-Length` and `Content-Type` written in, the `Set-Cookie` lines,
/// a blank line, and — for a `GET` request only — the body. Every other
/// method, notably `HEAD`, gets the headers of the full response with the
/// body withheld.
pub open spec fn spec_serialize(r: RespView, version: u8, method: HttpMethod) -> Seq<char> {
    "HTTP/1."@ + text::dec_digits(version as nat) + " "@ + text::dec_digits(r.status_code as nat)
        + " "@ + r.title + "\r\n"@ + header_block(upserted_headers(r)) + cookie_block(r.cookies)
        + "\r\n"@ + if method == HttpMethod::GET {
        r.body
    } else {
        Seq::<char>::empty()
    }
}

/// Renders `response` into wire text under the given protocol version and
/// request method, writing `Content-Length` and `Content-Type` into its
/// header map on the way.
pub fn convert_http1(response: &mut Response, protocol: Protocol, method: HttpMethod) -> (r:
    String)
    ensures
        r@ == spec_serialize(
            old(response)@,
            match protocol {
                Protocol::Http1(v) => v,
                Protocol::Error => 0u8,
            },
            method,
        ),
        final(response)@ == (RespView { headers: upserted_headers(old(response)@), ..old(
            response,
        )@ }),
{
    let blen = response.body.as_str().len();
    response.headers.insert(String::from_str("Content-Length"), text::u64_to_string(blen as u64));
    let ct = response.content_type.get();
    response.headers.insert(String::from_str("Content-Type"), ct);
    let ghost hs = response.headers@;
    let mut s = String::from_str("HTTP/1.");
    s.append(text::u64_to_string(protocol.get_version() as u64).as_str());
    s.append(" ");
    let code = response.status.get_code();
    s.append(text::u64_to_string(code as u64).as_str());
    s.append(" ");
    let title = response.status.get_title();
    s.append(title.as_str());
    s.append("\r\n");
    let ghost status_line = s@;
    let nh = response.headers.len();
    let mut i: usize = 0;
    while i < nh
        invariant
            nh == response.headers@.len(),
            hs == response.headers@,
            0 <= i <= nh,
            s@ =~= status_line + header_block(hs.take(i as int)),
        decreases nh - i,
    {
        let pair = response.headers.pair_at(i);
        s.append(pair.0.as_str());
        s.append(":");
        s.append(pair.1.as_str());
        s.append("\r\n");
        proof {
            assert(hs.take(i + 1).drop_last() =~= hs.take(i as int));
            assert(hs.take(i + 1).last() == hs[i as int]);
            assert(s@ =~= status_line + header_block(hs.take(i + 1)));
        }
        i += 1;
    }
    proof {
        assert(hs.take(nh as int) =~= hs);
    }
    let ghost with_headers = s@;
    let ghost cs = response.cookies.deep_view();
    let nc = response.cookies.len();
    let mut j: usize = 0;
    while j < nc
        invariant
            nc == response.cookies@.len(),
            cs == response.cookies.deep_view(),
            cs.len() == nc,
            0 <= j <= nc,
            s@ =~= with_headers + cookie_block(cs.take(j as int)),
        decreases nc - j,
    {
        s.append("Set-Cookie: ");
        let header = response.cookies[j].generate_header();
        s.append(header.as_str());
        s.append("\r\n");
        proof {
            assert(cs.take(j + 1).drop_last() =~= cs.take(j as int));
            assert(cs.take(j + 1).last() == cs[j as int]);
            assert(response.cookies@[j as int]@ == cs[j as int]);
            assert(s@ =~= with_headers + cookie_block(cs.take(j + 1)));
        }
        j += 1;
    }
    proof {
        assert(cs.take(nc as int) =~= cs);
    }
    s.append("\r\n");
    if matches!(method, HttpMethod::GET) {
        s.append(response.body.as_str());
    }
    proof {
        assert(s@ =~= spec_serialize(
            old(response)@,
            match protocol {
                Protocol::Http1(v) => v,
                Protocol::Error => 0u8,
            },
            method,
        ));
    }
    s
}

/// A response ready to be rendered: the response itself, the protocol it
/// travels under, and the request method that decides body suppression.
#[derive(Debug, PartialEq)]
pub struct ResponseFactory {
    protocol: Protocol,
    method: HttpMethod,
    pub response: Response,
    following_response: Vec<ResponseFactory>,
}

/// The model of a [`ResponseFactory`].
pub ghost struct FactoryView {
    pub protocol: Protocol,
    pub method: HttpMethod,
    pub response: RespView,
    pub following: Seq<ResponseFactory>,
}

impl View for ResponseFactory {
    type V = FactoryView;

    closed spec fn view(&self) -> FactoryView {
        FactoryView {
            protocol: self.protocol,
            method: self.method,
            response: self.response@,
            following: self.following_response@,
        }
    }
}

/// The wire text a factory renders: its response, under its protocol's
/// subversion — 0 when the protocol is unusable — and its method.
pub open spec fn spec_consume(f: FactoryView) -> Seq<char> {
    match f.protocol {
        Protocol::Http1(v) => spec_serialize(f.response, v, f.method),
        Protocol::Error => spec_serialize(f.response, 0, f.method),
    }
}

impl ResponseFactory {
    /// A bare response for a status code: an empty `text/plain` body under
    /// the given protocol, rendered as for a `GET` request.
    pub fn for_status_code(protocol: Protocol, code: StatusCode) -> (r: ResponseFactory)
        ensures
            r@.protocol == protocol,
            r@.method == HttpMethod::GET,
            r@.response == crate::response::spec_status_response(code),
            r@.following == Seq::<ResponseFactory>::empty(),
    {
        let response = Response {
            status: code,
            content_type: ContentType::Text,
            headers: crate::stringmap::StringMap::new(),
            cookies: Vec::new(),
            body: String::new(),
        };
        let r = ResponseFactory {
            protocol,
            method: HttpMethod::GET,
            response,
            following_response: Vec::new(),
        };
        proof {
            assert(r@.response.cookies =~= Seq::<CookieView>::empty());
            assert(r@.following =~= Seq::<ResponseFactory>::empty());
        }
        r
    }

    /// A factory for a handler's response.
    pub fn new(protocol: Protocol, method: HttpMethod, response: Response) -> (r: ResponseFactory)
        ensures
            r@.protocol == protocol,
            r@.method == method,
            r@.response == response@,
            r@.following == Seq::<ResponseFactory>::empty(),
    {
        let r = ResponseFactory { protocol, method, response, following_response: Vec::new() };
        proof {
            assert(r@.following =~= Seq::<ResponseFactory>::empty());
        }
        r
    }

    /// Queues a follow-up response, kept for connection upgrades.
    pub fn add_followup_response_factory(&mut self, factory: ResponseFactory)
        ensures
            final(self)@ == (FactoryView { following: old(self)@.following.push(factory), ..old(
                self,
            )@ }),
    {
        self.following_response.push(factory);
    }

    /// Renders the response into wire text, as [`spec_consume`] describes.
    pub fn consume(&mut self) -> (r: String)
        ensures
            r@ == spec_consume(old(self)@),
            final(self)@ == (FactoryView {
                response: (RespView {
                    headers: upserted_headers(old(self)@.response),
                    ..old(self)@.response
                }),
                ..old(self)@
            }),
    {
        match self.protocol {
            Protocol::Http1(v) => convert_http1(&mut self.response, Protocol::Http1(v), self.method),
            Protocol::Error => convert_http1(&mut self.response, Protocol::Http1(0), self.method),
        }
    }
}

} // verus!
