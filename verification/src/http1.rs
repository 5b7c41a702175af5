//! The HTTP/1.x request pipeline: parse, filter, route, validate, answer.

use vstd::prelude::*;
use crate::checkpoint::Checkpoint;
use crate::checkpoint_manager::checkpoint_applies;
use crate::checkpoint_manager::verify_checkpoint;
use crate::cors::CORSHandler;
use crate::cors::CorsView;
use crate::cors::spec_cors_response;
use crate::method::HttpMethod;
use crate::protocol::Protocol;
use crate::protocol::spec_parse_protocol;
use crate::protocol::spec_protocol_token;
use crate::request::ReqView;
use crate::request::Request;
use crate::request::spec_parse_request;
use crate::request_factory::parse_http1x;
use crate::response::Response;
use crate::response::spec_default_response;
use crate::response::spec_status_response;
use crate::response_factory::ResponseFactory;
use crate::response_factory::spec_consume;
use crate::response_factory::spec_serialize;
use crate::route::Route;
use crate::route::spec_request_valid;
use crate::status::StatusCode;
use crate::text;

verus! {

/// Index of the first route registered for exactly this method and path.
pub open spec fn first_route<F, C>(
    routes: Seq<Route<F, C>>,
    m: HttpMethod,
    url: Seq<char>,
) -> Option<int>
    decreases routes.len(),
{
    if routes.len() == 0 {
        None
    } else if routes[0].url@ == url && routes[0].method == m {
        Some(0)
    } else {
        match first_route(routes.skip(1), m, url) {
            Some(i) => Some(i + 1),
            None => None,
        }
    }
}

pub proof fn lemma_first_route_bounds<F, C>(routes: Seq<Route<F, C>>, m: HttpMethod, url: Seq<char>)
    ensures
        match first_route(routes, m, url) {
            Some(i) => 0 <= i < routes.len() && routes[i].url@ == url && routes[i].method == m && (
            forall|j: int| 0 <= j < i ==> !(routes[j].url@ == url && routes[j].method == m)),
            None => forall|j: int|
                0 <= j < routes.len() ==> !(routes[j].url@ == url && routes[j].method == m),
        },
    decreases routes.len(),
{
    if routes.len() > 0 && !(routes[0].url@ == url && routes[0].method == m) {
        let rest = routes.skip(1);
        lemma_first_route_bounds(rest, m, url);
        match first_route(rest, m, url) {
            Some(i0) => {
                assert forall|j: int| 0 <= j < i0 + 1 implies !(routes[j].url@ == url
                    && routes[j].method == m) by {
                    if j > 0 {
                        assert(rest[j - 1] == routes[j]);
                    }
                }
            },
            None => {
                assert forall|j: int| 0 <= j < routes.len() implies !(routes[j].url@ == url
                    && routes[j].method == m) by {
                    if j > 0 {
                        assert(rest[j - 1] == routes[j]);
                    }
                }
            },
        }
    }
}

/// Some route is registered under this path, whatever its method.
pub open spec fn any_route_with_url<F, C>(routes: Seq<Route<F, C>>, url: Seq<char>) -> bool {
    exists|i: int| 0 <= i < routes.len() && routes[i].url@ == url
}

/// Which answer the router picks for a parsed request: the first route
/// registered under the request's method and path; otherwise, for an
/// `OPTIONS` request under an active CORS policy whose path some route
/// serves, a synthesized preflight answer; otherwise, for a `HEAD`
/// request, the first `GET` route under the same path; otherwise nothing.
pub ghost enum Selection {
    Direct(int),
    Preflight,
    Missing,
}

/// The router's choice for method `m` and path `url`.
pub open spec fn select_route<F, C>(
    routes: Seq<Route<F, C>>,
    cors_active: bool,
    m: HttpMethod,
    url: Seq<char>,
) -> Selection {
    match first_route(routes, m, url) {
        Some(i) => Selection::Direct(i),
        None => {
            if m == HttpMethod::OPTIONS && cors_active && any_route_with_url(routes, url) {
                Selection::Preflight
            } else if m == HttpMethod::HEAD {
                match first_route(routes, HttpMethod::GET, url) {
                    Some(i) => Selection::Direct(i),
                    None => Selection::Missing,
                }
            } else {
                Selection::Missing
            }
        },
    }
}

/// Every checkpoint predicate accepts every request value.
pub open spec fn checkpoints_callable<CC: Fn(Request) -> Result<(), StatusCode>>(
    checkpoints: Seq<Checkpoint<CC>>,
) -> bool {
    forall|k: int, q: Request|
        0 <= k < checkpoints.len() ==> #[trigger] call_requires(checkpoints[k].check, (q,))
}

/// Every route handler and local check accepts every request value.
pub open spec fn routes_callable<
    F: Fn(Request) -> Result<Response, StatusCode>,
    RC: Fn(Request) -> Result<(), StatusCode>,
>(routes: Seq<Route<F, RC>>) -> bool {
    &&& forall|i: int, j: int, q: Request|
        0 <= i < routes.len() && 0 <= j < routes[i].checks@.len() ==> #[trigger] call_requires(
            routes[i].checks@[j],
            (q,),
        )
    &&& forall|i: int, f: F, q: Request|
        #![trigger routes[i].response, call_requires(f, (q,))]
        0 <= i < routes.len() && routes[i].response == Some(f) ==> call_requires(f, (q,))
}

/// No checkpoint reaches its predicate on this path.
pub open spec fn no_checkpoint_applies<CC>(
    checkpoints: Seq<Checkpoint<CC>>,
    url: Seq<char>,
) -> bool {
    forall|k: int| 0 <= k < checkpoints.len() ==> !checkpoint_applies(#[trigger] checkpoints[k], url)
}

/// What the pipeline may answer for the raw request `raw`, given the
/// registered routes, CORS policy and checkpoints. The parsed request and
/// the router's choice are functions of the input; checkpoint predicates,
/// local checks and handlers contribute through their own contracts
/// (`call_ensures`), so every error is traced to the stage that raised it,
/// and paths on which no predicate runs are pinned down exactly.
pub open spec fn pipeline_post<
    F: Fn(Request) -> Result<Response, StatusCode>,
    RC: Fn(Request) -> Result<(), StatusCode>,
    CC: Fn(Request) -> Result<(), StatusCode>,
>(
    subversion: u8,
    routes: Seq<Route<F, RC>>,
    cors: CorsView,
    checkpoints: Seq<Checkpoint<CC>>,
    raw: Seq<char>,
    r: Result<ResponseFactory, StatusCode>,
) -> bool {
    let pr = spec_parse_request(raw);
    &&& (pr matches Err(e) ==> r == Err::<ResponseFactory, StatusCode>(e))
    &&& (pr matches Ok(q) ==> {
        let sel = select_route(routes, cors.activated, q.method, q.url);
        &&& (r matches Err(e) ==> {
            ||| (exists|k: int|
                0 <= k < checkpoints.len() && checkpoint_applies(
                    #[trigger] checkpoints[k],
                    q.url,
                ) && (exists|rq: Request|
                    rq@ == q && call_ensures(checkpoints[k].check, (rq,), Err(e))))
            ||| (sel is Missing && e == StatusCode::NotFound)
            ||| (sel matches Selection::Direct(i) && !spec_request_valid(routes[i], q) && e
                == StatusCode::BadRequest)
            ||| (sel matches Selection::Direct(i) && spec_request_valid(routes[i], q) && (exists|
                j: int,
                rq: Request,
            |
                0 <= j < routes[i].checks@.len() && rq@ == q && call_ensures(
                    routes[i].checks@[j],
                    (rq,),
                    Err(e),
                )))
            ||| (sel matches Selection::Direct(i) && spec_request_valid(routes[i], q) && (match
            routes[i].response {
                Some(f) => exists|rq: Request| rq@ == q && call_ensures(f, (rq,), Err(e)),
                None => false,
            }))
        })
        &&& (r matches Ok(factory) ==> {
            &&& factory@.protocol == Protocol::Http1(subversion)
            &&& factory@.method == q.method
            &&& factory@.following == Seq::<ResponseFactory>::empty()
            &&& {
                ||| (sel is Preflight && factory@.response == spec_cors_response(cors))
                ||| (sel matches Selection::Direct(i) && spec_request_valid(routes[i], q)
                    && match routes[i].response {
                    Some(f) => exists|rq: Request, resp: Response|
                        rq@ == q && call_ensures(f, (rq,), Ok(resp)) && factory@.response == resp@,
                    None => factory@.response == spec_default_response(),
                })
            }
        })
        &&& (no_checkpoint_applies(checkpoints, q.url) ==> {
            &&& (sel is Missing ==> r == Err::<ResponseFactory, StatusCode>(StatusCode::NotFound))
            &&& (sel matches Selection::Direct(i) && !spec_request_valid(routes[i], q) ==> r
                == Err::<ResponseFactory, StatusCode>(StatusCode::BadRequest))
            &&& (sel matches Selection::Direct(i) && spec_request_valid(routes[i], q)
                && routes[i].checks@.len() == 0 && routes[i].response is None ==> (r matches Ok(
                factory,
            ) && factory@.response == spec_default_response()))
            &&& (sel is Preflight ==> (r matches Ok(factory) && factory@.response
                == spec_cors_response(cors)))
        })
    })
}

/// Handles one parsed-protocol HTTP/1.x request: parses it, runs the
/// checkpoints, finds the route — falling back to CORS preflight synthesis
/// and `HEAD`→`GET` resolution — validates required fields, runs the local
/// checks and asks the handler for the response. The first failing stage
/// decides the answer, as [`pipeline_post`] states.
pub fn handle_http1_request<
    F: Fn(Request) -> Result<Response, StatusCode>,
    RC: Fn(Request) -> Result<(), StatusCode>,
    CC: Fn(Request) -> Result<(), StatusCode>,
>(
    p_subversion: &u8,
    routes: &Vec<Route<F, RC>>,
    req: &str,
    cors: &CORSHandler,
    checkpoints: &Vec<Checkpoint<CC>>,
) -> (r: Result<ResponseFactory, StatusCode>)
    requires
        checkpoints_callable(checkpoints@),
        routes_callable(routes@),
        cors@.activated ==> cors@.origin.len() > 0,
    ensures
        pipeline_post(*p_subversion, routes@, cors@, checkpoints@, req@, r),
{
    let request = match parse_http1x(req, p_subversion) {
        Ok(rq) => rq,
        Err(e) => {
            return Err(e);
        },
    };
    let ghost q = request@;
    let ghost url = q.url;
    let ncp = checkpoints.len();
    let mut i: usize = 0;
    while i < ncp
        invariant
            ncp == checkpoints@.len(),
            0 <= i <= ncp,
            request@ == q,
            url == q.url,
            checkpoints_callable(checkpoints@),
            spec_parse_request(req@) == Ok::<ReqView, StatusCode>(q),
        decreases ncp - i,
    {
        match verify_checkpoint(&checkpoints[i], &request) {
            Some(e) => {
                proof {
                    assert(checkpoint_applies(checkpoints@[i as int], url));
                    assert(exists|k: int|
                        0 <= k < checkpoints@.len() && checkpoint_applies(
                            #[trigger] checkpoints@[k],
                            q.url,
                        ) && (exists|rq: Request|
                            rq@ == q && call_ensures(checkpoints@[k].check, (rq,), Err(e))));
                }
                return Err(e);
            },
            None => {},
        }
        i += 1;
    }
    let ghost sel = select_route(routes@, cors@.activated, q.method, q.url);
    proof {
        lemma_first_route_bounds(routes@, q.method, q.url);
    }
    let direct = find_route_idx(routes, request.method, &request.url);
    let idx: usize = match direct {
        Some(i) => i,
        None => {
            if request.method == HttpMethod::OPTIONS && cors.is_activated() {
                match find_url_idx(routes, &request.url) {
                    Some(_) => {
                        match cors.generate_response() {
                            Ok(resp) => {
                                proof {
                                    assert(sel is Preflight);
                                }
                                return Ok(
                                    ResponseFactory::new(
                                        Protocol::Http1(*p_subversion),
                                        request.method,
                                        resp,
                                    ),
                                );
                            },
                            Err(_) => {
                                return Err(StatusCode::InternalServerError);
                            },
                        }
                    },
                    None => {},
                }
            }
            if request.method == HttpMethod::HEAD {
                proof {
                    lemma_first_route_bounds(routes@, HttpMethod::GET, q.url);
                }
                match find_route_idx(routes, HttpMethod::GET, &request.url) {
                    Some(i) => i,
                    None => {
                        proof {
                            assert(sel is Missing);
                        }
                        return Err(StatusCode::NotFound);
                    },
                }
            } else {
                proof {
                    assert(sel is Missing);
                }
                return Err(StatusCode::NotFound);
            }
        },
    };
    proof {
        assert(sel == Selection::Direct(idx as int));
    }
    let route = &routes[idx];
    if !route.is_request_valid(&request) {
        return Err(StatusCode::BadRequest);
    }
    let ghost cv = route.checks@;
    let nc = route.checks.len();
    let mut j: usize = 0;
    while j < nc
        invariant
            nc == route.checks@.len(),
            cv == route.checks@,
            0 <= j <= nc,
            request@ == q,
            route == &routes[idx as int],
            0 <= idx < routes@.len(),
            routes_callable(routes@),
            spec_parse_request(req@) == Ok::<ReqView, StatusCode>(q),
            sel == select_route(routes@, cors@.activated, q.method, q.url),
            sel == Selection::Direct(idx as int),
            spec_request_valid(routes@[idx as int], q),
        decreases nc - j,
    {
        let dup = request.duplicate();
        let ghost snap = dup;
        let f = &route.checks[j];
        proof {
            assert(routes@[idx as int].checks@[j as int] == *f);
        }
        let out = f(dup);
        proof {
            assert(call_ensures(*f, (snap,), out));
        }
        match out {
            Ok(_) => {},
            Err(e) => {
                proof {
                    assert(snap@ == q && call_ensures(
                        routes@[idx as int].checks@[j as int],
                        (snap,),
                        Err(e),
                    ));
                }
                return Err(e);
            },
        }
        j += 1;
    }
    let dup = request.duplicate();
    let ghost snap = dup;
    let answer = route.respond(dup);
    match answer {
        Ok(response) => {
            let ghost resp_snap = response;
            let factory = ResponseFactory::new(
                Protocol::Http1(*p_subversion),
                request.method,
                response,
            );
            proof {
                match routes@[idx as int].response {
                    Some(f) => {
                        assert(snap@ == q && call_ensures(f, (snap,), Ok(resp_snap)));
                    },
                    None => {},
                }
            }
            Ok(factory)
        },
        Err(e) => {
            proof {
                match routes@[idx as int].response {
                    Some(f) => {
                        assert(snap@ == q && call_ensures(f, (snap,), Err(e)));
                    },
                    None => {},
                }
            }
            Err(e)
        },
    }
}

/// Index of the first route registered for exactly this method and path.
fn find_route_idx<F, C>(routes: &Vec<Route<F, C>>, m: HttpMethod, url: &String) -> (r: Option<
    usize,
>)
    ensures
        match r {
            Some(i) => first_route(routes@, m, url@) == Some(i as int),
            None => first_route(routes@, m, url@) is None,
        },
{
    let n = routes.len();
    let mut i: usize = 0;
    while i < n
        invariant
            n == routes@.len(),
            0 <= i <= n,
            forall|j: int| 0 <= j < i ==> !(routes@[j].url@ == url@ && routes@[j].method == m),
        decreases n - i,
    {
        if text::str_eq(routes[i].url.as_str(), url.as_str()) && routes[i].method == m {
            proof {
                lemma_first_route_bounds(routes@, m, url@);
            }
            return Some(i);
        }
        i += 1;
    }
    proof {
        lemma_first_route_bounds(routes@, m, url@);
    }
    None
}

/// Index of some route registered under this path, whatever its method.
fn find_url_idx<F, C>(routes: &Vec<Route<F, C>>, url: &String) -> (r: Option<usize>)
    ensures
        match r {
            Some(i) => 0 <= i < routes@.len() && routes@[i as int].url@ == url@,
            None => !any_route_with_url(routes@, url@),
        },
{
    let n = routes.len();
    let mut i: usize = 0;
    while i < n
        invariant
            n == routes@.len(),
            0 <= i <= n,
            forall|j: int| 0 <= j < i ==> routes@[j].url@ != url@,
        decreases n - i,
    {
        if text::str_eq(routes[i].url.as_str(), url.as_str()) {
            return Some(i);
        }
        i += 1;
    }
    None
}

/// Answers one raw request with fully framed wire text: negotiates the
/// protocol, runs the pipeline, and serializes either the pipeline's
/// response or the bare status-code response of the first failing stage.
/// A request whose protocol cannot be negotiated is answered under
/// `HTTP/1.0` framing with the negotiation error itself.
pub fn handle_request<
    F: Fn(Request) -> Result<Response, StatusCode>,
    RC: Fn(Request) -> Result<(), StatusCode>,
    CC: Fn(Request) -> Result<(), StatusCode>,
>(
    raw: &str,
    routes: &Vec<Route<F, RC>>,
    cors: &CORSHandler,
    checkpoints: &Vec<Checkpoint<CC>>,
) -> (r: String)
    requires
        checkpoints_callable(checkpoints@),
        routes_callable(routes@),
        cors@.activated ==> cors@.origin.len() > 0,
    ensures
        spec_parse_protocol(spec_protocol_token(raw@)) matches Err(e) ==> r@ == spec_serialize(
            spec_status_response(e),
            0,
            HttpMethod::GET,
        ),
        spec_parse_protocol(spec_protocol_token(raw@)) matches Ok(p) ==> (p matches Protocol::Http1(
            v,
        ) && (exists|out: Result<ResponseFactory, StatusCode>|
            pipeline_post(v, routes@, cors@, checkpoints@, raw@, out) && r@ == (match out {
                Ok(factory) => spec_consume(factory@),
                Err(e) => spec_serialize(spec_status_response(e), v, HttpMethod::GET),
            }))),
{
    match Protocol::parse_from_raw(raw) {
        Ok(protocol) => {
            match protocol {
                Protocol::Http1(v) => {
                    let out = handle_http1_request(&v, routes, raw, cors, checkpoints);
                    let ghost out_snap = out;
                    match out {
                        Ok(mut factory) => {
                            let rendered = factory.consume();
                            proof {
                                assert(pipeline_post(
                                    v,
                                    routes@,
                                    cors@,
                                    checkpoints@,
                                    raw@,
                                    out_snap,
                                ) && rendered@ == (match out_snap {
                                    Ok(f) => spec_consume(f@),
                                    Err(e) => spec_serialize(
                                        spec_status_response(e),
                                        v,
                                        HttpMethod::GET,
                                    ),
                                }));
                            }
                            rendered
                        },
                        Err(e) => {
                            let mut factory = ResponseFactory::for_status_code(
                                Protocol::Http1(v),
                                e,
                            );
                            let rendered = factory.consume();
                            proof {
                                assert(pipeline_post(
                                    v,
                                    routes@,
                                    cors@,
                                    checkpoints@,
                                    raw@,
                                    out_snap,
                                ) && rendered@ == (match out_snap {
                                    Ok(f) => spec_consume(f@),
                                    Err(e2) => spec_serialize(
                                        spec_status_response(e2),
                                        v,
                                        HttpMethod::GET,
                                    ),
                                }));
                            }
                            rendered
                        },
                    }
                },
                Protocol::Error => {
                    // Negotiation only ever succeeds with an HTTP/1 protocol;
                    // an unusable value is answered as a failed negotiation.
                    let mut factory = ResponseFactory::for_status_code(
                        Protocol::Http1(0),
                        StatusCode::HTTPVersionNotSupported,
                    );
                    factory.consume()
                },
            }
        },
        Err(e) => {
            let mut factory = ResponseFactory::for_status_code(Protocol::Http1(0), e);
            factory.consume()
        },
    }
}

} // verus!
