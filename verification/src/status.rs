//! HTTP status codes, their numeric values and their wire titles.

use vstd::prelude::*;
use vstd::string::StringExecFns;

verus! {

/// A status code as served on the wire: a closed set of standard codes plus
/// a custom escape hatch carrying an arbitrary number and title.
#[derive(Clone, Debug, PartialEq, Eq, Hash)]
pub enum StatusCode {
    Continue,
    SwitchingProtocols,
    Processing,
    EarlyHints,
    Okay,
    Created,
    Accepted,
    NonAuthoritativeInformations,
    NoContent,
    ResetContent,
    PartialContent,
    MultiStatus,
    AlreadyReported,
    ContentDifferent,
    IMUsed,
    MultipleChoices,
    MovedPermanently,
    Found,
    SeeOther,
    NotModified,
    UseProxy,
    SwitchProxy,
    TemporaryRedirect,
    PermanentRedirect,
    BadRequest,
    Unauthorized,
    PaymentRequired,
    Forbidden,
    NotFound,
    MethodNotAllowed,
    NotAcceptable,
    ProxyAuthenticationRequired,
    RequestTimeout,
    Conflict,
    Gone,
    LengthRequired,
    PreconditionFailed,
    PayloadTooLarge,
    URIToolLong,
    UnsupportedMediaType,
    RangeNotSatisfiable,
    ExpectationFailed,
    ImATeaPot,
    MisdirectionRequest,
    UnprocessableEntity,
    Locked,
    FailedDependency,
    TooEarly,
    UpgradeRequired,
    PreconditionRequired,
    TooManyRequests,
    RequestHeaderFieldsTooLarge,
    UnavailableForLegalReasons,
    InternalServerError,
    NotImplemented,
    BadGateway,
    ServiceUnavailable,
    GatewayTimeout,
    HTTPVersionNotSupported,
    VariantAlsoNegotiates,
    InsufficientStorage,
    LoopDetected,
    NotExtended,
    NetworkAuthenticationRequired,
    Custom(u16, String),
}

/// The numeric value of a status code.
pub open spec fn code_of(s: StatusCode) -> int {
    match s {
        StatusCode::Continue => 100,
        StatusCode::SwitchingProtocols => 101,
        StatusCode::Processing => 102,
        StatusCode::EarlyHints => 103,
        StatusCode::Okay => 200,
        StatusCode::Created => 201,
        StatusCode::Accepted => 202,
        StatusCode::NonAuthoritativeInformations => 203,
        StatusCode::NoContent => 204,
        StatusCode::ResetContent => 205,
        StatusCode::PartialContent => 206,
        StatusCode::MultiStatus => 207,
        StatusCode::AlreadyReported => 208,
        StatusCode::ContentDifferent => 210,
        StatusCode::IMUsed => 226,
        StatusCode::MultipleChoices => 300,
        StatusCode::MovedPermanently => 301,
        StatusCode::Found => 302,
        StatusCode::SeeOther => 303,
        StatusCode::NotModified => 304,
        StatusCode::UseProxy => 305,
        StatusCode::SwitchProxy => 306,
        StatusCode::TemporaryRedirect => 307,
        StatusCode::PermanentRedirect => 308,
        StatusCode::BadRequest => 400,
        StatusCode::Unauthorized => 401,
        StatusCode::PaymentRequired => 402,
        StatusCode::Forbidden => 403,
        StatusCode::NotFound => 404,
        StatusCode::MethodNotAllowed => 405,
        StatusCode::NotAcceptable => 406,
        StatusCode::ProxyAuthenticationRequired => 407,
        StatusCode::RequestTimeout => 408,
        StatusCode::Conflict => 409,
        StatusCode::Gone => 410,
        StatusCode::LengthRequired => 411,
        StatusCode::PreconditionFailed => 412,
        StatusCode::PayloadTooLarge => 413,
        StatusCode::URIToolLong => 414,
        StatusCode::UnsupportedMediaType => 415,
        StatusCode::RangeNotSatisfiable => 416,
        StatusCode::ExpectationFailed => 417,
        StatusCode::ImATeaPot => 418,
        StatusCode::MisdirectionRequest => 421,
        StatusCode::UnprocessableEntity => 422,
        StatusCode::Locked => 423,
        StatusCode::FailedDependency => 424,
        StatusCode::TooEarly => 425,
        StatusCode::UpgradeRequired => 426,
        StatusCode::PreconditionRequired => 428,
        StatusCode::TooManyRequests => 429,
        StatusCode::RequestHeaderFieldsTooLarge => 431,
        StatusCode::UnavailableForLegalReasons => 451,
        StatusCode::InternalServerError => 500,
        StatusCode::NotImplemented => 501,
        StatusCode::BadGateway => 502,
        StatusCode::ServiceUnavailable => 503,
        StatusCode::GatewayTimeout => 504,
        StatusCode::HTTPVersionNotSupported => 505,
        StatusCode::VariantAlsoNegotiates => 506,
        StatusCode::InsufficientStorage => 507,
        StatusCode::LoopDetected => 508,
        StatusCode::NotExtended => 510,
        StatusCode::NetworkAuthenticationRequired => 511,
        StatusCode::Custom(code, _) => code as int,
    }
}

/// The title served next to the numeric value on the status line.
pub open spec fn title_of(s: StatusCode) -> Seq<char> {
    match s {
        StatusCode::Continue => "Continue"@,
        StatusCode::SwitchingProtocols => "Switching Protocol"@,
        StatusCode::Processing => "Processing"@,
        StatusCode::EarlyHints => "Early Hints"@,
        StatusCode::Okay => "Ok"@,
        StatusCode::Created => "Created"@,
        StatusCode::Accepted => "Accepted"@,
        StatusCode::NonAuthoritativeInformations => "Non Authoritative Informations"@,
        StatusCode::NoContent => "No Content"@,
        StatusCode::ResetContent => "Reset Content"@,
        StatusCode::PartialContent => "Partial Content"@,
        StatusCode::MultiStatus => "Multi Status"@,
        StatusCode::AlreadyReported => "Already Reported"@,
        StatusCode::ContentDifferent => "Content Different"@,
        StatusCode::IMUsed => "IM Used"@,
        StatusCode::MultipleChoices => "Multiple Choices"@,
        StatusCode::MovedPermanently => "Moved Permanently"@,
        StatusCode::Found => "Found"@,
        StatusCode::SeeOther => "See Other"@,
        StatusCode::NotModified => "Not Modified"@,
        StatusCode::UseProxy => "Use Proxy"@,
        StatusCode::SwitchProxy => "Switch Proxy"@,
        StatusCode::TemporaryRedirect => "Temporary Redirect"@,
        StatusCode::PermanentRedirect => "Permanent Redirect"@,
        StatusCode::BadRequest => "Bad Redirect"@,
        StatusCode::Unauthorized => "Unauthorized"@,
        StatusCode::PaymentRequired => "Payment Required"@,
        StatusCode::Forbidden => "Forbidden"@,
        StatusCode::NotFound => "Not Found"@,
        StatusCode::MethodNotAllowed => "Method Not Allowed"@,
        StatusCode::NotAcceptable => "Not Acceptable"@,
        StatusCode::ProxyAuthenticationRequired => "Proxy Authentication Required"@,
        StatusCode::RequestTimeout => "Request Timeout"@,
        StatusCode::Conflict => "Conflict"@,
        StatusCode::Gone => "Gone"@,
        StatusCode::LengthRequired => "Length Required"@,
        StatusCode::PreconditionFailed => "Precondition Failed"@,
        StatusCode::PayloadTooLarge => "Payload Too Large"@,
        StatusCode::URIToolLong => "URI Too Long"@,
        StatusCode::UnsupportedMediaType => "Unsupported Media Type"@,
        StatusCode::RangeNotSatisfiable => "Range Not Satisfiable"@,
        StatusCode::ExpectationFailed => "Expectation Failed"@,
        StatusCode::ImATeaPot => "I'm A Tea Pot"@,
        StatusCode::MisdirectionRequest => "Misdirection Request"@,
        StatusCode::UnprocessableEntity => "Unprocessable Entity"@,
        StatusCode::Locked => "Locked"@,
        StatusCode::FailedDependency => "Failed Dependency"@,
        StatusCode::TooEarly => "Too Early"@,
        StatusCode::UpgradeRequired => "Upgrade Required"@,
        StatusCode::PreconditionRequired => "Precondition Required"@,
        StatusCode::TooManyRequests => "Too Many Requests"@,
        StatusCode::RequestHeaderFieldsTooLarge => "Request Header Fields Too Large"@,
        StatusCode::UnavailableForLegalReasons => "Unavailable For Legal Reasons"@,
        StatusCode::InternalServerError => "Internal Server Error"@,
        StatusCode::NotImplemented => "Not Implemented"@,
        StatusCode::BadGateway => "Bad Gateway"@,
        StatusCode::ServiceUnavailable => "Service Unavailable"@,
        StatusCode::GatewayTimeout => "Gateway Timeout"@,
        StatusCode::HTTPVersionNotSupported => "HTTP Version Not Supported"@,
        StatusCode::VariantAlsoNegotiates => "Variant Also Negotiates"@,
        StatusCode::InsufficientStorage => "Insufficient Storage"@,
        StatusCode::LoopDetected => "Loop Detected"@,
        StatusCode::NotExtended => "Not Extended"@,
        StatusCode::NetworkAuthenticationRequired => "Network Authentication Required"@,
        StatusCode::Custom(_, title) => title@,
    }
}

/// Whatever carries a numeric status code and a title.
pub trait HttpStatusCode {
    /// The numeric value.
    spec fn spec_code(&self) -> int;

    /// The title.
    spec fn spec_title(&self) -> Seq<char>;

    /// Returns the numeric value.
    fn get_code(&self) -> (c: u16)
        ensures
            c as int == self.spec_code(),
    ;

    /// Returns the title.
    fn get_title(&self) -> (t: String)
        ensures
            t@ == self.spec_title(),
    ;
}

impl HttpStatusCode for StatusCode {
    open spec fn spec_code(&self) -> int {
        code_of(*self)
    }

    open spec fn spec_title(&self) -> Seq<char> {
        title_of(*self)
    }

    fn get_code(&self) -> (c: u16) {
        match self {
            StatusCode::Continue => 100,
            StatusCode::SwitchingProtocols => 101,
            StatusCode::Processing => 102,
            StatusCode::EarlyHints => 103,
            StatusCode::Okay => 200,
            StatusCode::Created => 201,
            StatusCode::Accepted => 202,
            StatusCode::NonAuthoritativeInformations => 203,
            StatusCode::NoContent => 204,
            StatusCode::ResetContent => 205,
            StatusCode::PartialContent => 206,
            StatusCode::MultiStatus => 207,
            StatusCode::AlreadyReported => 208,
            StatusCode::ContentDifferent => 210,
            StatusCode::IMUsed => 226,
            StatusCode::MultipleChoices => 300,
            StatusCode::MovedPermanently => 301,
            StatusCode::Found => 302,
            StatusCode::SeeOther => 303,
            StatusCode::NotModified => 304,
            StatusCode::UseProxy => 305,
            StatusCode::SwitchProxy => 306,
            StatusCode::TemporaryRedirect => 307,
            StatusCode::PermanentRedirect => 308,
            StatusCode::BadRequest => 400,
            StatusCode::Unauthorized => 401,
            StatusCode::PaymentRequired => 402,
            StatusCode::Forbidden => 403,
            StatusCode::NotFound => 404,
            StatusCode::MethodNotAllowed => 405,
            StatusCode::NotAcceptable => 406,
            StatusCode::ProxyAuthenticationRequired => 407,
            StatusCode::RequestTimeout => 408,
            StatusCode::Conflict => 409,
            StatusCode::Gone => 410,
            StatusCode::LengthRequired => 411,
            StatusCode::PreconditionFailed => 412,
            StatusCode::PayloadTooLarge => 413,
            StatusCode::URIToolLong => 414,
            StatusCode::UnsupportedMediaType => 415,
            StatusCode::RangeNotSatisfiable => 416,
            StatusCode::ExpectationFailed => 417,
            StatusCode::ImATeaPot => 418,
            StatusCode::MisdirectionRequest => 421,
            StatusCode::UnprocessableEntity => 422,
            StatusCode::Locked => 423,
            StatusCode::FailedDependency => 424,
            StatusCode::TooEarly => 425,
            StatusCode::UpgradeRequired => 426,
            StatusCode::PreconditionRequired => 428,
            StatusCode::TooManyRequests => 429,
            StatusCode::RequestHeaderFieldsTooLarge => 431,
            StatusCode::UnavailableForLegalReasons => 451,
            StatusCode::InternalServerError => 500,
            StatusCode::NotImplemented => 501,
            StatusCode::BadGateway => 502,
            StatusCode::ServiceUnavailable => 503,
            StatusCode::GatewayTimeout => 504,
            StatusCode::HTTPVersionNotSupported => 505,
            StatusCode::VariantAlsoNegotiates => 506,
            StatusCode::InsufficientStorage => 507,
            StatusCode::LoopDetected => 508,
            StatusCode::NotExtended => 510,
            StatusCode::NetworkAuthenticationRequired => 511,
            StatusCode::Custom(code, _) => *code,
        }
    }

    fn get_title(&self) -> (t: String) {
        match self {
            StatusCode::Continue => String::from_str("Continue"),
            StatusCode::SwitchingProtocols => String::from_str("Switching Protocol"),
            StatusCode::Processing => String::from_str("Processing"),
            StatusCode::EarlyHints => String::from_str("Early Hints"),
            StatusCode::Okay => String::from_str("Ok"),
            StatusCode::Created => String::from_str("Created"),
            StatusCode::Accepted => String::from_str("Accepted"),
            StatusCode::NonAuthoritativeInformations => String::from_str(
                "Non Authoritative Informations",
            ),
            StatusCode::NoContent => String::from_str("No Content"),
            StatusCode::ResetContent => String::from_str("Reset Content"),
            StatusCode::PartialContent => String::from_str("Partial Content"),
            StatusCode::MultiStatus => String::from_str("Multi Status"),
            StatusCode::AlreadyReported => String::from_str("Already Reported"),
            StatusCode::ContentDifferent => String::from_str("Content Different"),
            StatusCode::IMUsed => String::from_str("IM Used"),
            StatusCode::MultipleChoices => String::from_str("Multiple Choices"),
            StatusCode::MovedPermanently => String::from_str("Moved Permanently"),
            StatusCode::Found => String::from_str("Found"),
            StatusCode::SeeOther => String::from_str("See Other"),
            StatusCode::NotModified => String::from_str("Not Modified"),
            StatusCode::UseProxy => String::from_str("Use Proxy"),
            StatusCode::SwitchProxy => String::from_str("Switch Proxy"),
            StatusCode::TemporaryRedirect => String::from_str("Temporary Redirect"),
            StatusCode::PermanentRedirect => String::from_str("Permanent Redirect"),
            StatusCode::BadRequest => String::from_str("Bad Redirect"),
            StatusCode::Unauthorized => String::from_str("Unauthorized"),
            StatusCode::PaymentRequired => String::from_str("Payment Required"),
            StatusCode::Forbidden => String::from_str("Forbidden"),
            StatusCode::NotFound => String::from_str("Not Found"),
            StatusCode::MethodNotAllowed => String::from_str("Method Not Allowed"),
            StatusCode::NotAcceptable => String::from_str("Not Acceptable"),
            StatusCode::ProxyAuthenticationRequired => String::from_str(
                "Proxy Authentication Required",
            ),
            StatusCode::RequestTimeout => String::from_str("Request Timeout"),
            StatusCode::Conflict => String::from_str("Conflict"),
            StatusCode::Gone => String::from_str("Gone"),
            StatusCode::LengthRequired => String::from_str("Length Required"),
            StatusCode::PreconditionFailed => String::from_str("Precondition Failed"),
            StatusCode::PayloadTooLarge => String::from_str("Payload Too Large"),
            StatusCode::URIToolLong => String::from_str("URI Too Long"),
            StatusCode::UnsupportedMediaType => String::from_str("Unsupported Media Type"),
            StatusCode::RangeNotSatisfiable => String::from_str("Range Not Satisfiable"),
            StatusCode::ExpectationFailed => String::from_str("Expectation Failed"),
            StatusCode::ImATeaPot => String::from_str("I'm A Tea Pot"),
            StatusCode::MisdirectionRequest => String::from_str("Misdirection Request"),
            StatusCode::UnprocessableEntity => String::from_str("Unprocessable Entity"),
            StatusCode::Locked => String::from_str("Locked"),
            StatusCode::FailedDependency => String::from_str("Failed Dependency"),
            StatusCode::TooEarly => String::from_str("Too Early"),
            StatusCode::UpgradeRequired => String::from_str("Upgrade Required"),
            StatusCode::PreconditionRequired => String::from_str("Precondition Required"),
            StatusCode::TooManyRequests => String::from_str("Too Many Requests"),
            StatusCode::RequestHeaderFieldsTooLarge => String::from_str(
                "Request Header Fields Too Large",
            ),
            StatusCode::UnavailableForLegalReasons => String::from_str(
                "Unavailable For Legal Reasons",
            ),
            StatusCode::InternalServerError => String::from_str("Internal Server Error"),
            StatusCode::NotImplemented => String::from_str("Not Implemented"),
            StatusCode::BadGateway => String::from_str("Bad Gateway"),
            StatusCode::ServiceUnavailable => String::from_str("Service Unavailable"),
            StatusCode::GatewayTimeout => String::from_str("Gateway Timeout"),
            StatusCode::HTTPVersionNotSupported => String::from_str("HTTP Version Not Supported"),
            StatusCode::VariantAlsoNegotiates => String::from_str("Variant Also Negotiates"),
            StatusCode::InsufficientStorage => String::from_str("Insufficient Storage"),
            StatusCode::LoopDetected => String::from_str("Loop Detected"),
            StatusCode::NotExtended => String::from_str("Not Extended"),
            StatusCode::NetworkAuthenticationRequired => String::from_str(
                "Network Authentication Required",
            ),
            StatusCode::Custom(_, title) => title.clone(),
        }
    }
}

/// The status a numeric token maps back to. Unlisted tokens — `500`
/// among them — map to `InternalServerError`, and a few listed tokens
/// answer with a neighbouring status; the table is the server's wire
/// behaviour and stands as served.
pub open spec fn status_from_str_spec(s: Seq<char>) -> StatusCode {
    if s == "100"@ {
        StatusCode::Okay
    } else if s == "101"@ {
        StatusCode::SwitchingProtocols
    } else if s == "102"@ {
        StatusCode::Processing
    } else if s == "103"@ {
        StatusCode::EarlyHints
    } else if s == "200"@ {
        StatusCode::Okay
    } else if s == "201"@ {
        StatusCode::Created
    } else if s == "202"@ {
        StatusCode::Accepted
    } else if s == "203"@ {
        StatusCode::NonAuthoritativeInformations
    } else if s == "204"@ {
        StatusCode::NoContent
    } else if s == "205"@ {
        StatusCode::ResetContent
    } else if s == "206"@ {
        StatusCode::PartialContent
    } else if s == "207"@ {
        StatusCode::MultiStatus
    } else if s == "208"@ {
        StatusCode::AlreadyReported
    } else if s == "210"@ {
        StatusCode::ContentDifferent
    } else if s == "226"@ {
        StatusCode::IMUsed
    } else if s == "300"@ {
        StatusCode::MultipleChoices
    } else if s == "301"@ {
        StatusCode::MovedPermanently
    } else if s == "302"@ {
        StatusCode::Found
    } else if s == "303"@ {
        StatusCode::SeeOther
    } else if s == "304"@ {
        StatusCode::NotModified
    } else if s == "305"@ {
        StatusCode::UseProxy
    } else if s == "306"@ {
        StatusCode::SwitchProxy
    } else if s == "307"@ {
        StatusCode::TemporaryRedirect
    } else if s == "308"@ {
        StatusCode::PermanentRedirect
    } else if s == "400"@ {
        StatusCode::BadRequest
    } else if s == "401"@ {
        StatusCode::Unauthorized
    } else if s == "402"@ {
        StatusCode::PaymentRequired
    } else if s == "403"@ {
        StatusCode::Forbidden
    } else if s == "404"@ {
        StatusCode::NotFound
    } else if s == "405"@ {
        StatusCode::MethodNotAllowed
    } else if s == "406"@ {
        StatusCode::NotAcceptable
    } else if s == "407"@ {
        StatusCode::ProxyAuthenticationRequired
    } else if s == "408"@ {
        StatusCode::RequestTimeout
    } else if s == "409"@ {
        StatusCode::Conflict
    } else if s == "410"@ {
        StatusCode::Gone
    } else if s == "411"@ {
        StatusCode::LengthRequired
    } else if s == "412"@ {
        StatusCode::PreconditionFailed
    } else if s == "413"@ {
        StatusCode::PayloadTooLarge
    } else if s == "414"@ {
        StatusCode::URIToolLong
    } else if s == "415"@ {
        StatusCode::UnsupportedMediaType
    } else if s == "416"@ {
        StatusCode::RangeNotSatisfiable
    } else if s == "417"@ {
        StatusCode::ExpectationFailed
    } else if s == "418"@ {
        StatusCode::ImATeaPot
    } else if s == "421"@ {
        StatusCode::MisdirectionRequest
    } else if s == "422"@ {
        StatusCode::UnprocessableEntity
    } else if s == "423"@ {
        StatusCode::Locked
    } else if s == "424"@ {
        StatusCode::FailedDependency
    } else if s == "425"@ {
        StatusCode::TooEarly
    } else if s == "426"@ {
        StatusCode::UpgradeRequired
    } else if s == "428"@ {
        StatusCode::PreconditionRequired
    } else if s == "429"@ {
        StatusCode::TooManyRequests
    } else if s == "431"@ {
        StatusCode::RequestHeaderFieldsTooLarge
    } else if s == "451"@ {
        StatusCode::UnavailableForLegalReasons
    } else if s == "501"@ {
        StatusCode::InternalServerError
    } else if s == "502"@ {
        StatusCode::NotImplemented
    } else if s == "503"@ {
        StatusCode::BadGateway
    } else if s == "504"@ {
        StatusCode::ServiceUnavailable
    } else if s == "505"@ {
        StatusCode::GatewayTimeout
    } else if s == "506"@ {
        StatusCode::HTTPVersionNotSupported
    } else if s == "507"@ {
        StatusCode::VariantAlsoNegotiates
    } else if s == "508"@ {
        StatusCode::InsufficientStorage
    } else if s == "509"@ {
        StatusCode::LoopDetected
    } else if s == "510"@ {
        StatusCode::NotExtended
    } else if s == "511"@ {
        StatusCode::NetworkAuthenticationRequired
    } else {
        StatusCode::InternalServerError
    }
}

impl StatusCode {
    /// Reads a numeric token back into a status code, following the
    /// served table exactly.
    pub fn from_str(val: &str) -> (r: StatusCode)
        ensures
            r == status_from_str_spec(val@),
    {
        if crate::text::str_eq(val, "100") {
            StatusCode::Okay
        } else if crate::text::str_eq(val, "101") {
            StatusCode::SwitchingProtocols
        } else if crate::text::str_eq(val, "102") {
            StatusCode::Processing
        } else if crate::text::str_eq(val, "103") {
            StatusCode::EarlyHints
        } else if crate::text::str_eq(val, "200") {
            StatusCode::Okay
        } else if crate::text::str_eq(val, "201") {
            StatusCode::Created
        } else if crate::text::str_eq(val, "202") {
            StatusCode::Accepted
        } else if crate::text::str_eq(val, "203") {
            StatusCode::NonAuthoritativeInformations
        } else if crate::text::str_eq(val, "204") {
            StatusCode::NoContent
        } else if crate::text::str_eq(val, "205") {
            StatusCode::ResetContent
        } else if crate::text::str_eq(val, "206") {
            StatusCode::PartialContent
        } else if crate::text::str_eq(val, "207") {
            StatusCode::MultiStatus
        } else if crate::text::str_eq(val, "208") {
            StatusCode::AlreadyReported
        } else if crate::text::str_eq(val, "210") {
            StatusCode::ContentDifferent
        } else if crate::text::str_eq(val, "226") {
            StatusCode::IMUsed
        } else if crate::text::str_eq(val, "300") {
            StatusCode::MultipleChoices
        } else if crate::text::str_eq(val, "301") {
            StatusCode::MovedPermanently
        } else if crate::text::str_eq(val, "302") {
            StatusCode::Found
        } else if crate::text::str_eq(val, "303") {
            StatusCode::SeeOther
        } else if crate::text::str_eq(val, "304") {
            StatusCode::NotModified
        } else if crate::text::str_eq(val, "305") {
            StatusCode::UseProxy
        } else if crate::text::str_eq(val, "306") {
            StatusCode::SwitchProxy
        } else if crate::text::str_eq(val, "307") {
            StatusCode::TemporaryRedirect
        } else if crate::text::str_eq(val, "308") {
            StatusCode::PermanentRedirect
        } else if crate::text::str_eq(val, "400") {
            StatusCode::BadRequest
        } else if crate::text::str_eq(val, "401") {
            StatusCode::Unauthorized
        } else if crate::text::str_eq(val, "402") {
            StatusCode::PaymentRequired
        } else if crate::text::str_eq(val, "403") {
            StatusCode::Forbidden
        } else if crate::text::str_eq(val, "404") {
            StatusCode::NotFound
        } else if crate::text::str_eq(val, "405") {
            StatusCode::MethodNotAllowed
        } else if crate::text::str_eq(val, "406") {
            StatusCode::NotAcceptable
        } else if crate::text::str_eq(val, "407") {
            StatusCode::ProxyAuthenticationRequired
        } else if crate::text::str_eq(val, "408") {
            StatusCode::RequestTimeout
        } else if crate::text::str_eq(val, "409") {
            StatusCode::Conflict
        } else if crate::text::str_eq(val, "410") {
            StatusCode::Gone
        } else if crate::text::str_eq(val, "411") {
            StatusCode::LengthRequired
        } else if crate::text::str_eq(val, "412") {
            StatusCode::PreconditionFailed
        } else if crate::text::str_eq(val, "413") {
            StatusCode::PayloadTooLarge
        } else if crate::text::str_eq(val, "414") {
            StatusCode::URIToolLong
        } else if crate::text::str_eq(val, "415") {
            StatusCode::UnsupportedMediaType
        } else if crate::text::str_eq(val, "416") {
            StatusCode::RangeNotSatisfiable
        } else if crate::text::str_eq(val, "417") {
            StatusCode::ExpectationFailed
        } else if crate::text::str_eq(val, "418") {
            StatusCode::ImATeaPot
        } else if crate::text::str_eq(val, "421") {
            StatusCode::MisdirectionRequest
        } else if crate::text::str_eq(val, "422") {
            StatusCode::UnprocessableEntity
        } else if crate::text::str_eq(val, "423") {
            StatusCode::Locked
        } else if crate::text::str_eq(val, "424") {
            StatusCode::FailedDependency
        } else if crate::text::str_eq(val, "425") {
            StatusCode::TooEarly
        } else if crate::text::str_eq(val, "426") {
            StatusCode::UpgradeRequired
        } else if crate::text::str_eq(val, "428") {
            StatusCode::PreconditionRequired
        } else if crate::text::str_eq(val, "429") {
            StatusCode::TooManyRequests
        } else if crate::text::str_eq(val, "431") {
            StatusCode::RequestHeaderFieldsTooLarge
        } else if crate::text::str_eq(val, "451") {
            StatusCode::UnavailableForLegalReasons
        } else if crate::text::str_eq(val, "501") {
            StatusCode::InternalServerError
        } else if crate::text::str_eq(val, "502") {
            StatusCode::NotImplemented
        } else if crate::text::str_eq(val, "503") {
            StatusCode::BadGateway
        } else if crate::text::str_eq(val, "504") {
            StatusCode::ServiceUnavailable
        } else if crate::text::str_eq(val, "505") {
            StatusCode::GatewayTimeout
        } else if crate::text::str_eq(val, "506") {
            StatusCode::HTTPVersionNotSupported
        } else if crate::text::str_eq(val, "507") {
            StatusCode::VariantAlsoNegotiates
        } else if crate::text::str_eq(val, "508") {
            StatusCode::InsufficientStorage
        } else if crate::text::str_eq(val, "509") {
            StatusCode::LoopDetected
        } else if crate::text::str_eq(val, "510") {
            StatusCode::NotExtended
        } else if crate::text::str_eq(val, "511") {
            StatusCode::NetworkAuthenticationRequired
        } else {
            StatusCode::InternalServerError
        }
    }

}

} // verus!
