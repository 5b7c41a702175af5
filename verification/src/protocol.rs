//! Protocol-version negotiation: the first test a request line must pass
//! before any further parsing happens.

use vstd::prelude::*;
use vstd::string::StrSliceExecFns;
use vstd::string::StringExecFns;
use crate::status::StatusCode;
use crate::text;

verus! {

/// A negotiated protocol: HTTP/1 with its subversion, or an unusable token.
#[derive(Debug, Clone, Copy, PartialEq, Eq, Structural)]
pub enum Protocol {
    Http1(u8),
    Error,
}

/// Whether a protocol value is one the server takes in charge:
/// HTTP/1 with subversion at most 1.
pub open spec fn spec_taken_in_charge(p: Protocol) -> bool {
    match p {
        Protocol::Http1(v) => v <= 1,
        Protocol::Error => false,
    }
}

/// What negotiating the protocol token `s` yields: `HTTP/1.<n>` with a
/// well-formed byte-sized subversion parses, and only subversions 0 and 1
/// are taken in charge. A token without a readable subversion is a
/// `BadRequest`; a readable but unsupported version is an
/// `HTTPVersionNotSupported`.
pub open spec fn spec_parse_protocol(s: Seq<char>) -> Result<Protocol, StatusCode> {
    let pieces = text::split_char(s, '.');
    if pieces.len() < 2 {
        Err(StatusCode::BadRequest)
    } else {
        match text::parse_u8_spec(pieces[1]) {
            None => Err(StatusCode::BadRequest),
            Some(v) => {
                if pieces[0] == "HTTP/1"@ {
                    if v <= 1 {
                        Ok(Protocol::Http1(v))
                    } else {
                        Err(StatusCode::HTTPVersionNotSupported)
                    }
                } else {
                    Err(StatusCode::HTTPVersionNotSupported)
                }
            },
        }
    }
}

/// The protocol token of a raw request: the last space-separated token of
/// the first line.
pub open spec fn spec_protocol_token(raw: Seq<char>) -> Seq<char> {
    let line = match text::find_sub(raw, "\r\n"@) {
        Some(i) => raw.take(i),
        None => raw,
    };
    text::split_char(line, ' ').last()
}

impl Protocol {
    /// Extracts the protocol token from a raw request and negotiates it.
    pub fn parse_from_raw(raw: &str) -> (r: Result<Protocol, StatusCode>)
        ensures
            r == spec_parse_protocol(spec_protocol_token(raw@)),
    {
        let n = raw.unicode_len();
        let line = match text::find_sub_in(raw, "\r\n") {
            Some(i) => {
                proof {
                    text::lemma_find_sub_bounds(raw@, "\r\n"@);
                }
                String::from_str(raw.substring_char(0, i))
            },
            None => String::from_str(raw),
        };
        let tokens = text::split_str(line.as_str(), ' ');
        let last = &tokens[tokens.len() - 1];
        proof {
            assert(last@ == tokens.deep_view().last());
        }
        Self::parse_from_str(last.as_str())
    }

    /// Negotiates a protocol token such as `HTTP/1.1`.
    pub fn parse_from_str(s: &str) -> (r: Result<Protocol, StatusCode>)
        ensures
            r == spec_parse_protocol(s@),
    {
        let pieces = text::split_str(s, '.');
        if pieces.len() < 2 {
            return Err(StatusCode::BadRequest);
        }
        let sub = &pieces[1];
        proof {
            assert(sub@ == text::split_char(s@, '.')[1]);
            assert(pieces[0]@ == text::split_char(s@, '.')[0]);
        }
        let v = match text::parse_u8_str(sub.as_str()) {
            Some(v) => v,
            None => {
                return Err(StatusCode::BadRequest);
            },
        };
        let protocol = if text::str_eq(pieces[0].as_str(), "HTTP/1") {
            Protocol::Http1(v)
        } else {
            Protocol::Error
        };
        if protocol.is_taken_in_charge() {
            Ok(protocol)
        } else {
            Err(StatusCode::HTTPVersionNotSupported)
        }
    }

    /// Whether this protocol version is one the server serves.
    pub fn is_taken_in_charge(&self) -> (r: bool)
        ensures
            r == spec_taken_in_charge(*self),
    {
        match self {
            Protocol::Http1(v) => *v <= 1,
            Protocol::Error => false,
        }
    }

    /// Whether this protocol is HTTP/1 with at least the given subversion.
    pub fn since(&self, supported_from: u8) -> (r: bool)
        ensures
            r == match *self {
                Protocol::Http1(v) => v >= supported_from,
                Protocol::Error => false,
            },
    {
        match self {
            Protocol::Http1(v) => *v >= supported_from,
            Protocol::Error => false,
        }
    }

    /// The subversion, or 0 for an unusable protocol.
    pub fn get_version(&self) -> (r: u8)
        ensures
            r == match *self {
                Protocol::Http1(v) => v,
                Protocol::Error => 0u8,
            },
    {
        match self {
            Protocol::Http1(v) => *v,
            Protocol::Error => 0,
        }
    }

    /// The wire name of the protocol, e.g. `HTTP/1.1`.
    pub fn to_string(&self) -> (r: String)
        ensures
            r@ == match *self {
                Protocol::Http1(v) => "HTTP/1."@ + text::dec_digits(v as nat),
                Protocol::Error => "Error"@,
            },
    {
        match self {
            Protocol::Http1(v) => {
                let mut s = String::from_str("HTTP/1.");
                s.append(text::u64_to_string(*v as u64).as_str());
                s
            },
            Protocol::Error => String::from_str("Error"),
        }
    }
}

} // verus!
