//! Content types a response can declare.

use vstd::prelude::*;
use vstd::string::StringExecFns;

verus! {

/// The `Content-Type` of a response body, with a custom escape hatch for
/// anything outside the enumerated set.
#[derive(Clone, Debug, PartialEq, Eq)]
pub enum ContentType {
    Json,
    Text,
    Custom(String),
}

/// The media-type string a content type resolves to.
pub open spec fn content_type_str(ct: ContentType) -> Seq<char> {
    match ct {
        ContentType::Json => "application/json"@,
        ContentType::Text => "text/plain"@,
        ContentType::Custom(s) => s@,
    }
}

impl ContentType {
    /// The media-type string written into the `Content-Type` header.
    pub fn get(&self) -> (r: String)
        ensures
            r@ == content_type_str(*self),
    {
        match self {
            ContentType::Json => String::from_str("application/json"),
            ContentType::Text => String::from_str("text/plain"),
            ContentType::Custom(s) => s.clone(),
        }
    }
}

} // verus!
