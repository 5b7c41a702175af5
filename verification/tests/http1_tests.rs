use arkos::checkpoint::Checkpoint;
use arkos::cors::CORSHandler;
use arkos::http1::handle_http1_request;
use arkos::method::HttpMethod;
use arkos::request::Request;
use arkos::response::Response;
use arkos::route::Route;
use arkos::status::StatusCode;

type Handler = fn(Request) -> Result<Response, StatusCode>;
type Check = fn(Request) -> Result<(), StatusCode>;

fn no_routes() -> Vec<Route<Handler, Check>> {
    Vec::new()
}

fn no_checkpoints() -> Vec<Checkpoint<Check>> {
    Vec::new()
}

fn check(request: Request) -> Result<(), StatusCode> {
    match request.param.contains_key("security") {
        true => Ok(()),
        false => Err(StatusCode::BadRequest),
    }
}

#[test]
fn not_found_request() {
    let request = "GET /hello HTTP/1.1".to_string();
    let routes = no_routes();
    let cors = CORSHandler::inert();
    let checkpoints = no_checkpoints();
    assert_eq!(
        Err(StatusCode::NotFound),
        handle_http1_request(&1, &routes, &request, &cors, &checkpoints)
    );
}

#[test]
fn request_found() {
    let route: Route<Handler, Check> = Route::new("/hello", HttpMethod::GET);
    let request = "GET /hello HTTP/1.1".to_string();
    let routes = vec![route];
    let cors = CORSHandler::inert();
    let checkpoints = no_checkpoints();
    assert_eq!(
        StatusCode::Okay,
        handle_http1_request(&1, &routes, &request, &cors, &checkpoints).unwrap().response.status
    );
}

#[test]
fn required_param_invalid() {
    let mut route: Route<Handler, Check> = Route::new("/hello", HttpMethod::GET);
    route.add_required_url_param("name");
    let request = "GET /hello HTTP/1.1".to_string();
    let routes = vec![route];
    let cors = CORSHandler::inert();
    let checkpoints = no_checkpoints();
    assert_eq!(
        Err(StatusCode::BadRequest),
        handle_http1_request(&1, &routes, &request, &cors, &checkpoints)
    );
}

#[test]
fn required_param_valid() {
    let mut route: Route<Handler, Check> = Route::new("/hello", HttpMethod::GET);
    route.add_required_url_param("name");
    let request = "GET /hello?name=Bernard HTTP/1.1".to_string();
    let routes = vec![route];
    let cors = CORSHandler::inert();
    let checkpoints = no_checkpoints();
    assert_eq!(
        StatusCode::Okay,
        handle_http1_request(&1, &routes, &request, &cors, &checkpoints).unwrap().response.status
    );
}

#[test]
fn active_cors() {
    let route: Route<Handler, Check> = Route::new("/hello", HttpMethod::GET);
    let request = "OPTIONS /hello HTTP/1.1".to_string();
    let routes = vec![route];
    let cors = CORSHandler::default();
    let checkpoints = no_checkpoints();
    assert_eq!(
        StatusCode::Okay,
        handle_http1_request(&1, &routes, &request, &cors, &checkpoints).unwrap().response.status
    );
}

#[test]
fn head_valid() {
    let route: Route<Handler, Check> = Route::new("/hello", HttpMethod::GET);
    let request = "HEAD /hello HTTP/1.1".to_string();
    let routes = vec![route];
    let cors = CORSHandler::default();
    let checkpoints = no_checkpoints();
    assert_eq!(
        StatusCode::Okay,
        handle_http1_request(&1, &routes, &request, &cors, &checkpoints).unwrap().response.status
    );
}

#[test]
fn head_invalid() {
    let route: Route<Handler, Check> = Route::new("/hello", HttpMethod::POST);
    let request = "HEAD /hello HTTP/1.1".to_string();
    let routes = vec![route];
    let cors = CORSHandler::default();
    let checkpoints = no_checkpoints();
    assert_eq!(
        Err(StatusCode::NotFound),
        handle_http1_request(&1, &routes, &request, &cors, &checkpoints)
    );
}

#[test]
fn server_checkpoint_valid() {
    let route: Route<Handler, Check> = Route::new("/hello", HttpMethod::GET);
    let request = "GET /hello?security=Bernard HTTP/1.1".to_string();
    let routes = vec![route];
    let cors = CORSHandler::inert();
    let mut checkpoint = Checkpoint::new(check as Check);
    checkpoint.on("/hello");
    let checkpoints = vec![checkpoint];
    assert_eq!(
        StatusCode::Okay,
        handle_http1_request(&1, &routes, &request, &cors, &checkpoints).unwrap().response.status
    );
}

#[test]
fn server_checkpoint_invalid() {
    let route: Route<Handler, Check> = Route::new("/hello", HttpMethod::GET);
    let request = "GET /hello HTTP/1.1".to_string();
    let routes = vec![route];
    let cors = CORSHandler::inert();
    let mut checkpoint = Checkpoint::new(check as Check);
    checkpoint.on("/hello");
    let checkpoints = vec![checkpoint];
    assert_eq!(
        Err(StatusCode::BadRequest),
        handle_http1_request(&1, &routes, &request, &cors, &checkpoints)
    );
}

#[test]
fn route_check_valid() {
    let mut route: Route<Handler, Check> = Route::new("/hello", HttpMethod::GET);
    route.add_check(check as Check);
    let request = "GET /hello?security=Bernard HTTP/1.1".to_string();
    let routes = vec![route];
    let cors = CORSHandler::inert();
    let mut checkpoint = Checkpoint::new(check as Check);
    checkpoint.on("/hello");
    let checkpoints = vec![checkpoint];
    assert_eq!(
        StatusCode::Okay,
        handle_http1_request(&1, &routes, &request, &cors, &checkpoints).unwrap().response.status
    );
}

#[test]
fn route_check_invalid() {
    let mut route: Route<Handler, Check> = Route::new("/hello", HttpMethod::GET);
    route.add_check(check as Check);
    let request = "GET /hello HTTP/1.1".to_string();
    let routes = vec![route];
    let cors = CORSHandler::inert();
    let mut checkpoint = Checkpoint::new(check as Check);
    checkpoint.on("/hello");
    let checkpoints = vec![checkpoint];
    assert_eq!(
        Err(StatusCode::BadRequest),
        handle_http1_request(&1, &routes, &request, &cors, &checkpoints)
    );
}

#[test]
fn cors_preflight_allows_any_origin() {
    let route: Route<Handler, Check> = Route::new("/hello", HttpMethod::GET);
    let request = "OPTIONS /hello HTTP/1.1".to_string();
    let routes = vec![route];
    let cors = CORSHandler::default();
    let checkpoints = no_checkpoints();
    let factory = handle_http1_request(&1, &routes, &request, &cors, &checkpoints).unwrap();
    assert_eq!(factory.response.status, StatusCode::Okay);
    assert_eq!(
        factory.response.headers.get("Access-Control-Allow-Origin"),
        Some(&"*".to_string())
    );
    assert_eq!(
        factory.response.headers.get("Access-Control-Allow-Methods"),
        Some(&"GET, POST, PUT, DELETE".to_string())
    );
    assert_eq!(
        factory.response.headers.get("Access-Control-Max-Age"),
        Some(&"86400".to_string())
    );
}

fn hello_body(_req: Request) -> Result<Response, StatusCode> {
    let mut response = Response::default();
    response.set_body("Hello".to_string());
    Ok(response)
}

#[test]
fn head_suppresses_body_but_keeps_length() {
    let mut route: Route<Handler, Check> = Route::new("/hello", HttpMethod::GET);
    route.set_response(hello_body as Handler);
    let routes = vec![route];
    let cors = CORSHandler::inert();
    let checkpoints = no_checkpoints();
    let head_request = "HEAD /hello HTTP/1.1".to_string();
    let mut head_answer =
        handle_http1_request(&1, &routes, &head_request, &cors, &checkpoints).unwrap();
    let head_wire = head_answer.consume();
    assert_eq!(
        head_wire,
        "HTTP/1.1 200 Ok\r\nContent-Length:5\r\nContent-Type:application/json\r\n\r\n"
    );
    let get_request = "GET /hello HTTP/1.1".to_string();
    let mut get_answer =
        handle_http1_request(&1, &routes, &get_request, &cors, &checkpoints).unwrap();
    let get_wire = get_answer.consume();
    assert_eq!(get_wire, format!("{}Hello", head_wire));
}

#[test]
fn request_path_matching_is_case_insensitive() {
    let route: Route<Handler, Check> = Route::new("/hello", HttpMethod::GET);
    let request = "GET /HeLLo HTTP/1.1".to_string();
    let routes = vec![route];
    let cors = CORSHandler::inert();
    let checkpoints = no_checkpoints();
    assert_eq!(
        StatusCode::Okay,
        handle_http1_request(&1, &routes, &request, &cors, &checkpoints).unwrap().response.status
    );
}

#[test]
fn pattern_case_is_preserved() {
    let route: Route<Handler, Check> = Route::new("/Hello", HttpMethod::GET);
    let request = "GET /Hello HTTP/1.1".to_string();
    let routes = vec![route];
    let cors = CORSHandler::inert();
    let checkpoints = no_checkpoints();
    assert_eq!(
        Err(StatusCode::NotFound),
        handle_http1_request(&1, &routes, &request, &cors, &checkpoints)
    );
}

#[test]
fn empty_request_is_a_server_error() {
    let routes = no_routes();
    let cors = CORSHandler::inert();
    let checkpoints = no_checkpoints();
    assert_eq!(
        Err(StatusCode::InternalServerError),
        handle_http1_request(&1, &routes, &"".to_string(), &cors, &checkpoints)
    );
}

#[test]
fn required_header_and_cookie() {
    let mut route: Route<Handler, Check> = Route::new("/hello", HttpMethod::GET);
    route.add_required_header("auth");
    route.add_required_cookie("session");
    let routes = vec![route];
    let cors = CORSHandler::inert();
    let checkpoints = no_checkpoints();
    let bare = "GET /hello HTTP/1.1".to_string();
    assert_eq!(
        Err(StatusCode::BadRequest),
        handle_http1_request(&1, &routes, &bare, &cors, &checkpoints)
    );
    let with_header_only = "GET /hello HTTP/1.1\r\nauth:token".to_string();
    assert_eq!(
        Err(StatusCode::BadRequest),
        handle_http1_request(&1, &routes, &with_header_only, &cors, &checkpoints)
    );
    let complete = "GET /hello HTTP/1.1\r\nauth:token\r\nCookie: session=1".to_string();
    assert_eq!(
        StatusCode::Okay,
        handle_http1_request(&1, &routes, &complete, &cors, &checkpoints).unwrap().response.status
    );
}

#[test]
fn inactive_cors_does_not_answer_options() {
    let route: Route<Handler, Check> = Route::new("/hello", HttpMethod::GET);
    let request = "OPTIONS /hello HTTP/1.1".to_string();
    let routes = vec![route];
    let cors = CORSHandler::inert();
    let checkpoints = no_checkpoints();
    assert_eq!(
        Err(StatusCode::NotFound),
        handle_http1_request(&1, &routes, &request, &cors, &checkpoints)
    );
}

#[test]
fn handler_error_passes_through() {
    fn refuse(_req: Request) -> Result<Response, StatusCode> {
        Err(StatusCode::Unauthorized)
    }
    let mut route: Route<Handler, Check> = Route::new("/hello", HttpMethod::GET);
    route.set_response(refuse as Handler);
    let routes = vec![route];
    let cors = CORSHandler::inert();
    let checkpoints = no_checkpoints();
    let request = "GET /hello HTTP/1.1".to_string();
    assert_eq!(
        Err(StatusCode::Unauthorized),
        handle_http1_request(&1, &routes, &request, &cors, &checkpoints)
    );
}
