//! CORS preflight synthesis: the policy that answers an `OPTIONS` request
//! when no explicit `OPTIONS` route exists.

use vstd::prelude::*;
use vstd::string::StringExecFns;
use crate::method::HttpMethod;
use crate::method::spec_method_token;
use crate::response::RespView;
use crate::response::Response;
use crate::status::StatusCode;
use crate::stringmap::map_upsert;
use crate::text;

verus! {

/// The model of a [`CORSHandler`].
pub ghost struct CorsView {
    pub activated: bool,
    pub origin: Seq<Seq<char>>,
    pub methods_allowed: Seq<HttpMethod>,
    pub headers_allowed: Seq<Seq<char>>,
    pub max_age: u32,
}

/// A CORS policy: when activated, it synthesizes a preflight response for
/// an `OPTIONS` request whose path has a route under another method.
#[derive(Debug)]
pub struct CORSHandler {
    pub activated: bool,
    origin: Vec<String>,
    methods_allowed: Vec<HttpMethod>,
    headers_allowed: Vec<String>,
    max_age: u32,
}

impl View for CORSHandler {
    type V = CorsView;

    closed spec fn view(&self) -> CorsView {
        CorsView {
            activated: self.activated,
            origin: self.origin.deep_view(),
            methods_allowed: self.methods_allowed@,
            headers_allowed: self.headers_allowed.deep_view(),
            max_age: self.max_age,
        }
    }
}

/// The preflight response a policy synthesizes: an empty `200 Ok` response
/// carrying the four `Access-Control-*` headers. Only the first configured
/// origin is ever served, a known limitation of the policy.
pub open spec fn spec_cors_response(cv: CorsView) -> RespView {
    RespView {
        status_code: 200,
        title: "Ok"@,
        content_type: "application/json"@,
        headers: seq![
            ("Access-Control-Allow-Headers"@, text::join_comma(cv.headers_allowed)),
            (
                "Access-Control-Allow-Methods"@,
                text::join_comma(cv.methods_allowed.map_values(|m: HttpMethod| spec_method_token(m))),
            ),
            ("Access-Control-Max-Age"@, text::dec_digits(cv.max_age as nat)),
            ("Access-Control-Allow-Origin"@, cv.origin[0]),
        ],
        cookies: Seq::<crate::cookie::CookieView>::empty(),
        body: Seq::<char>::empty(),
    }
}

impl CORSHandler {
    /// Whether the policy answers preflight requests.
    pub fn is_activated(&self) -> (r: bool)
        ensures
            r == self@.activated,
    {
        self.activated
    }

    /// How many origins the policy names.
    pub fn origin_count(&self) -> (n: usize)
        ensures
            n == self@.origin.len(),
    {
        proof {
            assert(self@.origin.len() == self.origin@.len());
        }
        self.origin.len()
    }

    /// A deactivated policy.
    pub fn inert() -> (r: CORSHandler)
        ensures
            r@ == (CorsView {
                activated: false,
                origin: Seq::<Seq<char>>::empty(),
                methods_allowed: Seq::<HttpMethod>::empty(),
                headers_allowed: Seq::<Seq<char>>::empty(),
                max_age: 0u32,
            }),
    {
        let r = CORSHandler {
            activated: false,
            origin: Vec::new(),
            methods_allowed: Vec::new(),
            headers_allowed: Vec::new(),
            max_age: 0,
        };
        proof {
            assert(r@.origin =~= Seq::<Seq<char>>::empty());
            assert(r@.methods_allowed =~= Seq::<HttpMethod>::empty());
            assert(r@.headers_allowed =~= Seq::<Seq<char>>::empty());
        }
        r
    }

    /// An activated policy with nothing configured yet.
    pub fn new() -> (r: CORSHandler)
        ensures
            r@ == (CorsView {
                activated: true,
                origin: Seq::<Seq<char>>::empty(),
                methods_allowed: Seq::<HttpMethod>::empty(),
                headers_allowed: Seq::<Seq<char>>::empty(),
                max_age: 0u32,
            }),
    {
        let r = CORSHandler {
            activated: true,
            origin: Vec::new(),
            methods_allowed: Vec::new(),
            headers_allowed: Vec::new(),
            max_age: 0,
        };
        proof {
            assert(r@.origin =~= Seq::<Seq<char>>::empty());
            assert(r@.methods_allowed =~= Seq::<HttpMethod>::empty());
            assert(r@.headers_allowed =~= Seq::<Seq<char>>::empty());
        }
        r
    }

    /// An activated policy preconfigured to serve every origin, the four
    /// mutating methods and a day of caching.
    pub fn default() -> (r: CORSHandler)
        ensures
            r@ == (CorsView {
                activated: true,
                origin: seq!["*"@],
                methods_allowed: seq![
                    HttpMethod::GET,
                    HttpMethod::POST,
                    HttpMethod::PUT,
                    HttpMethod::DELETE,
                ],
                headers_allowed: Seq::<Seq<char>>::empty(),
                max_age: 86400u32,
            }),
    {
        let mut origin: Vec<String> = Vec::new();
        origin.push(String::from_str("*"));
        let mut methods: Vec<HttpMethod> = Vec::new();
        methods.push(HttpMethod::GET);
        methods.push(HttpMethod::POST);
        methods.push(HttpMethod::PUT);
        methods.push(HttpMethod::DELETE);
        let r = CORSHandler {
            activated: true,
            origin,
            methods_allowed: methods,
            headers_allowed: Vec::new(),
            max_age: 86400,
        };
        proof {
            assert(r@.origin =~= seq!["*"@]);
            assert(r@.methods_allowed =~= seq![
                HttpMethod::GET,
                HttpMethod::POST,
                HttpMethod::PUT,
                HttpMethod::DELETE,
            ]);
            assert(r@.headers_allowed =~= Seq::<Seq<char>>::empty());
        }
        r
    }

    /// Replaces the allowed origins. Only the first is ever served.
    pub fn set_origins(&mut self, origins: Vec<String>)
        ensures
            final(self)@ == (CorsView { origin: origins.deep_view(), ..old(self)@ }),
    {
        self.origin = origins;
    }

    /// Replaces the allowed methods.
    pub fn set_methods_allowed(&mut self, methods: Vec<HttpMethod>)
        ensures
            final(self)@ == (CorsView { methods_allowed: methods@, ..old(self)@ }),
    {
        self.methods_allowed = methods;
    }

    /// Replaces the allowed headers.
    pub fn set_headers_allowed(&mut self, headers: Vec<String>)
        ensures
            final(self)@ == (CorsView { headers_allowed: headers.deep_view(), ..old(self)@ }),
    {
        self.headers_allowed = headers;
    }

    /// Replaces the preflight cache age, in seconds.
    pub fn set_max_age(&mut self, age: u32)
        ensures
            final(self)@ == (CorsView { max_age: age, ..old(self)@ }),
    {
        self.max_age = age;
    }

    /// Synthesizes the preflight response of [`spec_cors_response`].
    /// A policy that answers preflights must name at least one origin.
    pub fn generate_response(&self) -> (r: Result<Response, StatusCode>)
        requires
            self@.origin.len() > 0,
        ensures
            r matches Ok(resp) && resp@ == spec_cors_response(self@),
    {
        let mut response = Response::default();
        let mut methods: Vec<String> = Vec::new();
        let nm = self.methods_allowed.len();
        let mut i: usize = 0;
        while i < nm
            invariant
                nm == self.methods_allowed.len(),
                0 <= i <= nm,
                methods@.len() == i,
                forall|k: int|
                    0 <= k < i ==> methods@[k]@ == spec_method_token(self.methods_allowed@[k]),
            decreases nm - i,
        {
            methods.push(self.methods_allowed[i].to_string());
            i += 1;
        }
        proof {
            assert forall|k: int| 0 <= k < nm implies methods.deep_view()[k]
                == self.methods_allowed@.map_values(|m: HttpMethod| spec_method_token(m))[k] by {
                assert(methods.deep_view()[k] == methods@[k]@);
            }
            assert(methods.deep_view() =~= self.methods_allowed@.map_values(
                |m: HttpMethod| spec_method_token(m),
            ));
        }
        response.add_header(
            String::from_str("Access-Control-Allow-Headers"),
            text::join_comma_strs(&self.headers_allowed),
        );
        response.add_header(
            String::from_str("Access-Control-Allow-Methods"),
            text::join_comma_strs(&methods),
        );
        response.add_header(
            String::from_str("Access-Control-Max-Age"),
            text::u64_to_string(self.max_age as u64),
        );
        response.add_header(
            String::from_str("Access-Control-Allow-Origin"),
            self.origin[0].clone(),
        );
        proof {
            reveal_strlit("Access-Control-Allow-Headers");
            reveal_strlit("Access-Control-Allow-Methods");
            reveal_strlit("Access-Control-Max-Age");
            reveal_strlit("Access-Control-Allow-Origin");
            let k1 = "Access-Control-Allow-Headers"@;
            let k2 = "Access-Control-Allow-Methods"@;
            let k3 = "Access-Control-Max-Age"@;
            let k4 = "Access-Control-Allow-Origin"@;
            assert(k1 != k2) by {
                assert(k1[21] == 'H' && k2[21] == 'M');
            }
            assert(k1 != k3 && k1 != k4 && k2 != k3 && k2 != k4 && k3 != k4) by {
                assert(k1.len() == 28 && k2.len() == 28 && k3.len() == 22 && k4.len() == 27);
            }
            let sv = spec_cors_response(self@).headers;
            let m0 = Seq::<(Seq<char>, Seq<char>)>::empty();
            let m1 = map_upsert(m0, k1, sv[0].1);
            let m2 = map_upsert(m1, k2, sv[1].1);
            let m3 = map_upsert(m2, k3, sv[2].1);
            crate::stringmap::lemma_key_at_bounds(m0, k1);
            assert(m1 =~= seq![(k1, sv[0].1)]);
            crate::stringmap::lemma_key_at_bounds(m1, k2);
            assert(m2 =~= seq![(k1, sv[0].1), (k2, sv[1].1)]);
            crate::stringmap::lemma_key_at_bounds(m2, k3);
            assert(m3 =~= seq![(k1, sv[0].1), (k2, sv[1].1), (k3, sv[2].1)]);
            crate::stringmap::lemma_key_at_bounds(m3, k4);
            assert(self.origin.deep_view()[0] == self.origin@[0]@);
            assert(response@.headers =~= sv);
            assert(response@.cookies =~= Seq::<crate::cookie::CookieView>::empty());
        }
        Ok(response)
    }
}

} // verus!
