//! The structured response a handler returns.

use vstd::prelude::*;
use crate::content::ContentType;
use crate::content::content_type_str;
use crate::cookie::Cookie;
use crate::cookie::CookieView;
use crate::status::StatusCode;
use crate::status::code_of;
use crate::status::title_of;
use crate::stringmap::Entries;
use crate::stringmap::StringMap;
use crate::stringmap::map_upsert;

verus! {

/// A response under construction: status, content type, headers, cookies
/// to set, and the body text.
#[derive(Debug, PartialEq)]
pub struct Response {
    pub status: StatusCode,
    pub content_type: ContentType,
    pub headers: StringMap,
    pub cookies: Vec<Cookie>,
    pub body: String,
}

/// The model of a [`Response`]: the observable parts of the wire image,
/// with the status reduced to its numeric value and title.
pub ghost struct RespView {
    pub status_code: int,
    pub title: Seq<char>,
    pub content_type: Seq<char>,
    pub headers: Entries,
    pub cookies: Seq<CookieView>,
    pub body: Seq<char>,
}

impl View for Response {
    type V = RespView;

    open spec fn view(&self) -> RespView {
        RespView {
            status_code: code_of(self.status),
            title: title_of(self.status),
            content_type: content_type_str(self.content_type),
            headers: self.headers@,
            cookies: self.cookies.deep_view(),
            body: self.body@,
        }
    }
}

/// The model of the default response: empty `200 Ok`, `application/json`.
pub open spec fn spec_default_response() -> RespView {
    RespView {
        status_code: 200,
        title: "Ok"@,
        content_type: "application/json"@,
        headers: Seq::<(Seq<char>, Seq<char>)>::empty(),
        cookies: Seq::<CookieView>::empty(),
        body: Seq::<char>::empty(),
    }
}

/// The model of a bare response for a status code: empty `text/plain`
/// body, no headers, no cookies.
pub open spec fn spec_status_response(code: StatusCode) -> RespView {
    RespView {
        status_code: code_of(code),
        title: title_of(code),
        content_type: "text/plain"@,
        headers: Seq::<(Seq<char>, Seq<char>)>::empty(),
        cookies: Seq::<CookieView>::empty(),
        body: Seq::<char>::empty(),
    }
}

impl Response {
    /// An empty `200 Ok` response with an `application/json` content type.
    pub fn default() -> (r: Response)
        ensures
            r.status == StatusCode::Okay,
            r.content_type == ContentType::Json,
            r.headers@ == Seq::<(Seq<char>, Seq<char>)>::empty(),
            r.cookies@ == Seq::<Cookie>::empty(),
            r.body@ == Seq::<char>::empty(),
    {
        let r = Response {
            status: StatusCode::Okay,
            content_type: ContentType::Json,
            headers: StringMap::new(),
            cookies: Vec::new(),
            body: String::new(),
        };
        proof {
            assert(r.cookies@ =~= Seq::<Cookie>::empty());
        }
        r
    }

    /// Replaces the body.
    pub fn set_body(&mut self, body: String)
        ensures
            final(self).body@ == body@,
            final(self).status == old(self).status,
            final(self).content_type == old(self).content_type,
            final(self).headers@ == old(self).headers@,
            final(self).cookies@ == old(self).cookies@,
    {
        self.body = body;
    }

    /// Adds a header, overriding any earlier value under the same name.
    /// `Content-Length` and `Content-Type` are overwritten by the
    /// serializer and need not be set here.
    pub fn add_header(&mut self, key: String, val: String)
        ensures
            final(self).headers@ == map_upsert(old(self).headers@, key@, val@),
            final(self).status == old(self).status,
            final(self).content_type == old(self).content_type,
            final(self).body@ == old(self).body@,
            final(self).cookies@ == old(self).cookies@,
    {
        self.headers.insert(key, val);
    }

    /// Adds a cookie to be set alongside the response.
    pub fn add_cookie(&mut self, cookie: Cookie)
        ensures
            final(self).cookies@ == old(self).cookies@.push(cookie),
            final(self).status == old(self).status,
            final(self).content_type == old(self).content_type,
            final(self).headers@ == old(self).headers@,
            final(self).body@ == old(self).body@,
    {
        self.cookies.push(cookie);
    }

    /// Replaces the content type written into the `Content-Type` header.
    pub fn set_content_type(&mut self, content_type: ContentType)
        ensures
            final(self).content_type == content_type,
            final(self).status == old(self).status,
            final(self).headers@ == old(self).headers@,
            final(self).cookies@ == old(self).cookies@,
            final(self).body@ == old(self).body@,
    {
        self.content_type = content_type;
    }
}

} // verus!
