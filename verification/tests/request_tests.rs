use arkos::method::HttpMethod;
use arkos::request::Request;
use arkos::request_factory::parse_http1x;
use arkos::status::StatusCode;

#[test]
fn parse_full_request() {
    let raw = "GET /Hello?a=1&b=2=3 HTTP/1.1\r\nHost: example.org\r\nCookie: k=v; j=w\r\n\r\nBODY";
    let req = Request::parse(raw).unwrap();
    assert_eq!(req.method, HttpMethod::GET);
    assert_eq!(req.url, "/hello");
    assert_eq!(req.param.get("a"), Some(&"1".to_string()));
    assert_eq!(req.param.get("b"), Some(&"2=3".to_string()));
    assert_eq!(req.headers.get("Host"), Some(&" example.org".to_string()));
    assert_eq!(req.cookies.get("k"), Some(&"v".to_string()));
    assert_eq!(req.cookies.get(" j"), Some(&"w".to_string()));
    assert_eq!(req.body, "BODY");
}

#[test]
fn parse_without_body_separator() {
    let req = Request::parse("POST /submit HTTP/1.1\r\nHost: x").unwrap();
    assert_eq!(req.method, HttpMethod::POST);
    assert_eq!(req.url, "/submit");
    assert_eq!(req.body, "");
}

#[test]
fn unknown_method_defaults_to_get() {
    let req = Request::parse("PATCH /thing HTTP/1.1").unwrap();
    assert_eq!(req.method, HttpMethod::GET);
}

#[test]
fn missing_path_is_a_server_error() {
    match Request::parse("GET") {
        Err(e) => assert_eq!(e, StatusCode::InternalServerError),
        Ok(_) => panic!("a request line without a path must be rejected"),
    }
    match Request::parse("") {
        Err(e) => assert_eq!(e, StatusCode::InternalServerError),
        Ok(_) => panic!("an empty request must be rejected"),
    }
}

#[test]
fn malformed_lines_are_dropped() {
    let req = Request::parse("GET / HTTP/1.1\r\nno-separator-line\r\nGood:value\r\n\r\n").unwrap();
    assert_eq!(req.headers.get("no-separator-line"), None);
    assert_eq!(req.headers.get("Good"), Some(&"value".to_string()));
}

#[test]
fn duplicate_query_keys_last_write_wins() {
    let req = Request::parse("GET /?x=1&x=2 HTTP/1.1").unwrap();
    assert_eq!(req.param.get("x"), Some(&"2".to_string()));
}

#[test]
fn parse_http1x_agrees_with_parse() {
    let raw = "GET /hello?name=Bernard HTTP/1.1\r\n\r\n";
    let a = parse_http1x(raw, &1).unwrap();
    let b = Request::parse(raw).unwrap();
    assert_eq!(a.url, b.url);
    assert_eq!(a.param.get("name"), b.param.get("name"));
}

#[test]
fn header_value_keeps_everything_after_first_colon() {
    let req = Request::parse("GET / HTTP/1.1\r\nHost: example.org:8080\r\n\r\n").unwrap();
    assert_eq!(req.headers.get("Host"), Some(&" example.org:8080".to_string()));
}
