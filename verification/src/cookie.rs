//! Cookies a response can set, their validity rules and their
//! `Set-Cookie` header text.

use vstd::prelude::*;
use vstd::string::StrSliceExecFns;
use vstd::string::StringExecFns;
use crate::text;

verus! {

/// A cookie to be set by a response.
#[derive(Debug, Clone, PartialEq, Eq)]
pub struct Cookie {
    pub name: String,
    pub value: String,
    pub expires: String,
    pub max_age: u32,
    pub path: String,
    pub domain: String,
    pub secure: bool,
    pub http_only: bool,
    pub same_site: String,
}

/// The model of a [`Cookie`].
pub ghost struct CookieView {
    pub name: Seq<char>,
    pub value: Seq<char>,
    pub expires: Seq<char>,
    pub max_age: u32,
    pub path: Seq<char>,
    pub domain: Seq<char>,
    pub secure: bool,
    pub http_only: bool,
    pub same_site: Seq<char>,
}

impl View for Cookie {
    type V = CookieView;

    open spec fn view(&self) -> CookieView {
        CookieView {
            name: self.name@,
            value: self.value@,
            expires: self.expires@,
            max_age: self.max_age,
            path: self.path@,
            domain: self.domain@,
            secure: self.secure,
            http_only: self.http_only,
            same_site: self.same_site@,
        }
    }
}

impl DeepView for Cookie {
    type V = CookieView;

    open spec fn deep_view(&self) -> CookieView {
        self.view()
    }
}

/// A character a cookie name or value may not contain.
pub open spec fn is_forbidden_char(c: char) -> bool {
    ||| c == '('
    ||| c == ')'
    ||| c == '<'
    ||| c == '>'
    ||| c == '@'
    ||| c == ','
    ||| c == ';'
    ||| c == ':'
    ||| c == '\\'
    ||| c == '"'
    ||| c == '/'
    ||| c == '['
    ||| c == ']'
    ||| c == '?'
    ||| c == '='
    ||| c == '{'
    ||| c == '}'
    ||| c == ' '
}

/// Whether `s` holds any character forbidden in cookie names and values.
pub open spec fn has_forbidden_char(s: Seq<char>) -> bool {
    exists|i: int| 0 <= i < s.len() && is_forbidden_char(s[i])
}

/// A valid cookie: name and value free of forbidden characters, a
/// `__Secure-` name only on a secured cookie, and a `__Host-` name only on
/// a secured cookie with path `/` and no domain.
pub open spec fn cookie_valid(c: CookieView) -> bool {
    &&& !has_forbidden_char(c.name)
    &&& !has_forbidden_char(c.value)
    &&& (text::is_prefix("__Secure-"@, c.name) ==> c.secure)
    &&& (!text::is_prefix("__Secure-"@, c.name) && text::is_prefix("__Host-"@, c.name) ==> {
        &&& c.secure
        &&& c.path == "/"@
        &&& c.domain == Seq::<char>::empty()
    })
}

/// The text of the `Set-Cookie` header for cookie `c`: the pair itself,
/// then each attribute that is set.
pub open spec fn spec_cookie_header(c: CookieView) -> Seq<char> {
    c.name + "="@ + c.value + (if c.max_age > 1 {
        "; Max-Age="@ + text::dec_digits(c.max_age as nat)
    } else {
        Seq::<char>::empty()
    }) + (if c.domain.len() > 1 {
        "; Domain="@ + c.domain
    } else {
        Seq::<char>::empty()
    }) + (if c.expires.len() > 1 {
        "; Expires="@ + c.expires
    } else {
        Seq::<char>::empty()
    }) + (if c.path.len() > 1 {
        "; Path="@ + c.path
    } else {
        Seq::<char>::empty()
    }) + (if c.same_site.len() > 1 {
        "; SameSite="@ + c.same_site
    } else {
        Seq::<char>::empty()
    }) + (if c.http_only {
        "; HttpOnly"@
    } else {
        Seq::<char>::empty()
    }) + (if c.secure {
        "; Secure"@
    } else {
        Seq::<char>::empty()
    })
}

/// Whether `c` is forbidden in cookie names and values.
fn is_forbidden_char_exec(c: char) -> (r: bool)
    ensures
        r == is_forbidden_char(c),
{
    c == '(' || c == ')' || c == '<' || c == '>' || c == '@' || c == ',' || c == ';' || c == ':'
        || c == '\\' || c == '"' || c == '/' || c == '[' || c == ']' || c == '?' || c == '=' || c
        == '{' || c == '}' || c == ' '
}

/// Whether `s` holds any forbidden character.
fn contains_forbidden(s: &str) -> (r: bool)
    ensures
        r == has_forbidden_char(s@),
{
    let n = s.unicode_len();
    let mut i: usize = 0;
    while i < n
        invariant
            n == s@.len(),
            0 <= i <= n,
            forall|j: int| 0 <= j < i ==> !is_forbidden_char(s@[j]),
        decreases n - i,
    {
        if is_forbidden_char_exec(s.get_char(i)) {
            return true;
        }
        i += 1;
    }
    false
}

/// One optional attribute of a `Set-Cookie` header: `prefix` then `value`
/// when `cond` holds, nothing otherwise.
fn attr_part(cond: bool, prefix: &str, value: &str) -> (r: String)
    ensures
        r@ == if cond {
            prefix@ + value@
        } else {
            Seq::<char>::empty()
        },
{
    if cond {
        let mut t = String::from_str(prefix);
        t.append(value);
        t
    } else {
        String::new()
    }
}

impl Cookie {
    /// A cookie with the given name and value and no attribute set.
    pub fn new(name: String, value: String) -> (r: Cookie)
        ensures
            r@ == (CookieView {
                name: name@,
                value: value@,
                expires: Seq::<char>::empty(),
                max_age: 0u32,
                path: Seq::<char>::empty(),
                domain: Seq::<char>::empty(),
                secure: false,
                http_only: false,
                same_site: Seq::<char>::empty(),
            }),
    {
        Cookie {
            name,
            value,
            expires: String::new(),
            max_age: 0,
            path: String::new(),
            domain: String::new(),
            secure: false,
            http_only: false,
            same_site: String::new(),
        }
    }

    /// Marks the cookie as secured.
    pub fn as_secured(&mut self)
        ensures
            final(self)@ == (CookieView { secure: true, ..old(self)@ }),
    {
        self.secure = true;
    }

    /// Marks the cookie as HTTP-only.
    pub fn as_http_only(&mut self)
        ensures
            final(self)@ == (CookieView { http_only: true, ..old(self)@ }),
    {
        self.http_only = true;
    }

    /// Sets the expiry date text.
    pub fn expires_on(&mut self, exp: String)
        ensures
            final(self)@ == (CookieView { expires: exp@, ..old(self)@ }),
    {
        self.expires = exp;
    }

    /// Sets the maximal age, in seconds.
    pub fn has_max_age(&mut self, age: u32)
        ensures
            final(self)@ == (CookieView { max_age: age, ..old(self)@ }),
    {
        self.max_age = age;
    }

    /// Sets the domain.
    pub fn set_domain(&mut self, domain: String)
        ensures
            final(self)@ == (CookieView { domain: domain@, ..old(self)@ }),
    {
        self.domain = domain;
    }

    /// Sets the path.
    pub fn set_path(&mut self, path: String)
        ensures
            final(self)@ == (CookieView { path: path@, ..old(self)@ }),
    {
        self.path = path;
    }

    /// Sets the `SameSite` attribute.
    pub fn set_same_site(&mut self, same_site: String)
        ensures
            final(self)@ == (CookieView { same_site: same_site@, ..old(self)@ }),
    {
        self.same_site = same_site;
    }

    /// Whether the cookie obeys the validity rules of [`cookie_valid`].
    pub fn is_valid(&self) -> (r: bool)
        ensures
            r == cookie_valid(self@),
    {
        if contains_forbidden(self.name.as_str()) {
            return false;
        }
        if contains_forbidden(self.value.as_str()) {
            return false;
        }
        proof {
            if self.domain@.len() == 0 {
                assert(self.domain@ =~= Seq::<char>::empty());
            }
        }
        if text::str_starts_with(self.name.as_str(), "__Secure-") {
            self.secure
        } else if text::str_starts_with(self.name.as_str(), "__Host-") {
            let empty_domain = self.domain.as_str().is_empty();
            proof {
                if self.domain@ == Seq::<char>::empty() {
                    assert(self.domain@.len() == 0);
                }
            }
            self.secure && text::str_eq(self.path.as_str(), "/") && empty_domain
        } else {
            true
        }
    }

    /// Renders the `Set-Cookie` header text for this cookie.
    #[verifier::rlimit(80)]
    pub fn generate_header(&self) -> (r: String)
        ensures
            r@ == spec_cookie_header(self@),
    {
        let mut s = self.name.clone();
        s.append("=");
        s.append(self.value.as_str());
        let age = text::u64_to_string(self.max_age as u64);
        s.append(attr_part(self.max_age > 1, "; Max-Age=", age.as_str()).as_str());
        s.append(
            attr_part(
                self.domain.as_str().unicode_len() > 1,
                "; Domain=",
                self.domain.as_str(),
            ).as_str(),
        );
        s.append(
            attr_part(
                self.expires.as_str().unicode_len() > 1,
                "; Expires=",
                self.expires.as_str(),
            ).as_str(),
        );
        s.append(
            attr_part(self.path.as_str().unicode_len() > 1, "; Path=", self.path.as_str()).as_str(),
        );
        s.append(
            attr_part(
                self.same_site.as_str().unicode_len() > 1,
                "; SameSite=",
                self.same_site.as_str(),
            ).as_str(),
        );
        s.append(attr_part(self.http_only, "; HttpOnly", "").as_str());
        s.append(attr_part(self.secure, "; Secure", "").as_str());
        proof {
            reveal_strlit("");
            assert(""@ =~= Seq::<char>::empty());
            assert(s@ =~= spec_cookie_header(self@));
        }
        s
    }
}

} // verus!
