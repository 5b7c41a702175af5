use arkos::content::ContentType;
use arkos::cookie::Cookie;
use arkos::method::HttpMethod;
use arkos::protocol::Protocol;
use arkos::response::Response;
use arkos::response_factory::ResponseFactory;
use arkos::status::HttpStatusCode;
use arkos::status::StatusCode;

#[test]
fn default_response_wire_text() {
    let mut factory =
        ResponseFactory::new(Protocol::Http1(1), HttpMethod::GET, Response::default());
    assert_eq!(
        factory.consume(),
        "HTTP/1.1 200 Ok\r\nContent-Length:0\r\nContent-Type:application/json\r\n\r\n"
    );
}

#[test]
fn status_code_response_wire_text() {
    let mut factory = ResponseFactory::for_status_code(Protocol::Http1(1), StatusCode::NotFound);
    assert_eq!(
        factory.consume(),
        "HTTP/1.1 404 Not Found\r\nContent-Length:0\r\nContent-Type:text/plain\r\n\r\n"
    );
}

#[test]
fn body_and_headers_and_cookies_serialized() {
    let mut response = Response::default();
    response.set_body("hi".to_string());
    response.set_content_type(ContentType::Text);
    response.add_header("X-Trace".to_string(), "1".to_string());
    let mut cookie = Cookie::new("k".into(), "v".into());
    cookie.as_http_only();
    response.add_cookie(cookie);
    let mut factory = ResponseFactory::new(Protocol::Http1(0), HttpMethod::GET, response);
    assert_eq!(
        factory.consume(),
        "HTTP/1.0 200 Ok\r\nX-Trace:1\r\nContent-Length:2\r\nContent-Type:text/plain\r\nSet-Cookie: k=v; HttpOnly\r\n\r\nhi"
    );
}

#[test]
fn status_line_round_trip_recovers_code_and_title() {
    let mut factory = ResponseFactory::for_status_code(
        Protocol::Http1(1),
        StatusCode::Custom(799, "Off The Books".to_string()),
    );
    let wire = factory.consume();
    let line = wire.split("\r\n").next().unwrap();
    let mut tokens = line.split(' ');
    let _protocol = tokens.next().unwrap();
    let code: u16 = tokens.next().unwrap().parse().unwrap();
    let title = tokens.collect::<Vec<&str>>().join(" ");
    assert_eq!(code, 799);
    assert_eq!(title, "Off The Books");
}

#[test]
fn status_line_round_trip_through_from_str() {
    let mut factory = ResponseFactory::for_status_code(Protocol::Http1(1), StatusCode::Okay);
    let wire = factory.consume();
    let line = wire.split("\r\n").next().unwrap();
    let code_token = line.split(' ').nth(1).unwrap();
    let recovered = StatusCode::from_str(code_token);
    assert_eq!(recovered.get_code(), StatusCode::Okay.get_code());
    assert_eq!(recovered.get_title(), StatusCode::Okay.get_title());
}

#[test]
fn content_types_resolve() {
    assert_eq!(ContentType::Json.get(), "application/json");
    assert_eq!(ContentType::Text.get(), "text/plain");
    assert_eq!(ContentType::Custom("a/b".to_string()).get(), "a/b");
}

#[test]
fn status_table_is_served_exactly() {
    assert_eq!(StatusCode::BadRequest.get_code(), 400);
    assert_eq!(StatusCode::BadRequest.get_title(), "Bad Redirect");
    assert_eq!(StatusCode::from_str("100"), StatusCode::Okay);
    assert_eq!(StatusCode::from_str("501"), StatusCode::InternalServerError);
    assert_eq!(StatusCode::from_str("unknown"), StatusCode::InternalServerError);
    assert_eq!(StatusCode::Custom(799, "X".to_string()).get_code(), 799);
    assert_eq!(StatusCode::Custom(799, "X".to_string()).get_title(), "X");
}

#[test]
fn method_tokens() {
    assert_eq!(HttpMethod::from_str("HEAD"), HttpMethod::HEAD);
    assert_eq!(HttpMethod::from_str("PATCH"), HttpMethod::GET);
    assert_eq!(HttpMethod::OPTIONS.to_string(), "OPTIONS");
}

#[test]
fn followup_factories_do_not_change_the_wire_text() {
    let mut factory =
        ResponseFactory::new(Protocol::Http1(1), HttpMethod::GET, Response::default());
    let followup = ResponseFactory::for_status_code(Protocol::Http1(1), StatusCode::Okay);
    factory.add_followup_response_factory(followup);
    assert_eq!(
        factory.consume(),
        "HTTP/1.1 200 Ok\r\nContent-Length:0\r\nContent-Type:application/json\r\n\r\n"
    );
}

#[test]
fn headers_override_in_place() {
    let mut response = Response::default();
    response.add_header("X-A".to_string(), "1".to_string());
    response.add_header("X-B".to_string(), "2".to_string());
    response.add_header("X-A".to_string(), "3".to_string());
    let mut factory = ResponseFactory::new(Protocol::Http1(1), HttpMethod::GET, response);
    assert_eq!(
        factory.consume(),
        "HTTP/1.1 200 Ok\r\nX-A:3\r\nX-B:2\r\nContent-Length:0\r\nContent-Type:application/json\r\n\r\n"
    );
}
