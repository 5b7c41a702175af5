//! Routes: a path pattern, a method, required fields, local checks and a
//! handler.

use vstd::prelude::*;
use vstd::string::StringExecFns;
use crate::method::HttpMethod;
use crate::request::ReqView;
use crate::request::Request;
use crate::response::Response;
use crate::status::StatusCode;
use crate::stringmap::Entries;
use crate::stringmap::StringMap;
use crate::stringmap::map_has;
use crate::stringmap::lemma_key_at_bounds;

verus! {

/// Every required name is a key of the map.
pub open spec fn names_present(required: Seq<Seq<char>>, m: Entries) -> bool {
    forall|i: int| 0 <= i < required.len() ==> map_has(m, required[i])
}

/// A registered route. `F` is the handler called once the request is
/// accepted; `C` is the type of its local check predicates. A route
/// without a handler set answers with the default empty `200 Ok` response.
pub struct Route<F, C> {
    pub url: String,
    pub method: HttpMethod,
    pub required_param: Vec<String>,
    pub required_header: Vec<String>,
    pub required_cookie: Vec<String>,
    pub response: Option<F>,
    pub checks: Vec<C>,
}

/// The request satisfies every required header, parameter and cookie of
/// the route.
pub open spec fn spec_request_valid<F, C>(r: Route<F, C>, q: ReqView) -> bool {
    &&& names_present(r.required_header.deep_view(), q.headers)
    &&& names_present(r.required_param.deep_view(), q.param)
    &&& names_present(r.required_cookie.deep_view(), q.cookies)
}

/// Whether every name in `required` is a key of `map`.
fn names_all_present(required: &Vec<String>, map: &StringMap) -> (r: bool)
    ensures
        r == names_present(required.deep_view(), map@),
{
    let n = required.len();
    let mut i: usize = 0;
    while i < n
        invariant
            n == required.len(),
            0 <= i <= n,
            forall|j: int| 0 <= j < i ==> map_has(map@, required.deep_view()[j]),
        decreases n - i,
    {
        proof {
            assert(required.deep_view()[i as int] == required@[i as int]@);
        }
        if !map.contains_key(required[i].as_str()) {
            proof {
                lemma_key_at_bounds(map@, required.deep_view()[i as int]);
            }
            return false;
        }
        i += 1;
    }
    proof {
        assert(required.deep_view().len() == required@.len());
    }
    true
}

impl<F, C> Route<F, C> {
    /// A route for a path and method, answering with the default empty
    /// `200 Ok` response until a handler is set.
    pub fn new(url: &str, method: HttpMethod) -> (r: Route<F, C>)
        ensures
            r.url@ == url@,
            r.method == method,
            r.required_param.deep_view() == Seq::<Seq<char>>::empty(),
            r.required_header.deep_view() == Seq::<Seq<char>>::empty(),
            r.required_cookie.deep_view() == Seq::<Seq<char>>::empty(),
            r.response is None,
            r.checks@ == Seq::<C>::empty(),
    {
        let r = Route {
            url: String::from_str(url),
            method,
            required_param: Vec::new(),
            required_header: Vec::new(),
            required_cookie: Vec::new(),
            response: None,
            checks: Vec::new(),
        };
        proof {
            assert(r.required_param.deep_view() =~= Seq::<Seq<char>>::empty());
            assert(r.required_header.deep_view() =~= Seq::<Seq<char>>::empty());
            assert(r.required_cookie.deep_view() =~= Seq::<Seq<char>>::empty());
            assert(r.checks@ =~= Seq::<C>::empty());
        }
        r
    }

    /// Requires a query parameter; a request missing it is answered with
    /// `400 Bad Request`.
    pub fn add_required_url_param(&mut self, name: &str)
        ensures
            final(self).required_param.deep_view() == old(self).required_param.deep_view().push(
                name@,
            ),
            final(self).url == old(self).url,
            final(self).method == old(self).method,
            final(self).required_header == old(self).required_header,
            final(self).required_cookie == old(self).required_cookie,
            final(self).response == old(self).response,
            final(self).checks == old(self).checks,
    {
        self.required_param.push(String::from_str(name));
        proof {
            assert(self.required_param.deep_view() =~= old(
                self,
            ).required_param.deep_view().push(name@));
        }
    }

    /// Requires a header; a request missing it is answered with
    /// `400 Bad Request`.
    pub fn add_required_header(&mut self, name: &str)
        ensures
            final(self).required_header.deep_view() == old(self).required_header.deep_view().push(
                name@,
            ),
            final(self).url == old(self).url,
            final(self).method == old(self).method,
            final(self).required_param == old(self).required_param,
            final(self).required_cookie == old(self).required_cookie,
            final(self).response == old(self).response,
            final(self).checks == old(self).checks,
    {
        self.required_header.push(String::from_str(name));
        proof {
            assert(self.required_header.deep_view() =~= old(
                self,
            ).required_header.deep_view().push(name@));
        }
    }

    /// Requires a cookie; a request missing it is answered with
    /// `400 Bad Request`.
    pub fn add_required_cookie(&mut self, name: &str)
        ensures
            final(self).required_cookie.deep_view() == old(self).required_cookie.deep_view().push(
                name@,
            ),
            final(self).url == old(self).url,
            final(self).method == old(self).method,
            final(self).required_param == old(self).required_param,
            final(self).required_header == old(self).required_header,
            final(self).response == old(self).response,
            final(self).checks == old(self).checks,
    {
        self.required_cookie.push(String::from_str(name));
        proof {
            assert(self.required_cookie.deep_view() =~= old(
                self,
            ).required_cookie.deep_view().push(name@));
        }
    }

    /// Sets the handler. To answer with a bare status code, return the
    /// code as the error of the handler's result.
    pub fn set_response(&mut self, fun: F)
        ensures
            final(self).response == Some(fun),
            final(self).url == old(self).url,
            final(self).method == old(self).method,
            final(self).required_param == old(self).required_param,
            final(self).required_header == old(self).required_header,
            final(self).required_cookie == old(self).required_cookie,
            final(self).checks == old(self).checks,
    {
        self.response = Some(fun);
    }

    /// Adds a local check, run after required-field validation and before
    /// the handler.
    pub fn add_check(&mut self, check: C)
        ensures
            final(self).checks@ == old(self).checks@.push(check),
            final(self).url == old(self).url,
            final(self).method == old(self).method,
            final(self).required_param == old(self).required_param,
            final(self).required_header == old(self).required_header,
            final(self).required_cookie == old(self).required_cookie,
            final(self).response == old(self).response,
    {
        self.checks.push(check);
    }

    /// Whether the request carries every required header, parameter and
    /// cookie of this route.
    pub fn is_request_valid(&self, request: &Request) -> (r: bool)
        ensures
            r == spec_request_valid(*self, request@),
    {
        if !names_all_present(&self.required_header, &request.headers) {
            return false;
        }
        if !names_all_present(&self.required_param, &request.param) {
            return false;
        }
        if !names_all_present(&self.required_cookie, &request.cookies) {
            return false;
        }
        true
    }
}

impl<F: Fn(Request) -> Result<Response, StatusCode>, C> Route<F, C> {
    /// Runs the route's handler on `request`; a route without a handler
    /// answers with the default empty `200 Ok` response.
    pub fn respond(&self, request: Request) -> (r: Result<Response, StatusCode>)
        requires
            self.response matches Some(f) ==> call_requires(f, (request,)),
        ensures
            self.response matches Some(f) ==> call_ensures(f, (request,), r),
            self.response is None ==> (r matches Ok(resp) && resp@
                == crate::response::spec_default_response()),
    {
        match &self.response {
            Some(f) => f(request),
            None => {
                let resp = Response::default();
                proof {
                    assert(resp@.headers =~= Seq::<(Seq<char>, Seq<char>)>::empty());
                    assert(resp@.cookies =~= Seq::<crate::cookie::CookieView>::empty());
                    assert(resp@.body =~= Seq::<char>::empty());
                }
                Ok(resp)
            },
        }
    }
}

} // verus!
