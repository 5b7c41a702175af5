use arkos::checkpoint::Checkpoint;
use arkos::cors::CORSHandler;
use arkos::http1::handle_request;
use arkos::method::HttpMethod;
use arkos::request::Request;
use arkos::response::Response;
use arkos::route::Route;
use arkos::server::Server;
use arkos::status::StatusCode;
use arkos::stringmap::StringMap;

type Handler = fn(Request) -> Result<Response, StatusCode>;
type Check = fn(Request) -> Result<(), StatusCode>;

#[test]
fn server_registration() {
    let mut server: Server<Handler, Check, Check> = Server::new([127, 0, 0, 1], 8080).unwrap();
    assert!(!server.cors_handler.is_activated());
    server.set_routes(vec![Route::new("/hello", HttpMethod::GET)]);
    server.set_cors_handler(CORSHandler::default());
    server.add_checkpoint(Checkpoint::new((|_req| Ok(())) as Check));
    assert_eq!(server.routes.len(), 1);
    assert_eq!(server.checkpoints.len(), 1);
    assert!(server.cors_handler.is_activated());
    assert_eq!(server.port, 8080);
}

#[test]
fn full_exchange_for_a_registered_route() {
    let routes: Vec<Route<Handler, Check>> = vec![Route::new("/hello", HttpMethod::GET)];
    let cors = CORSHandler::inert();
    let checkpoints: Vec<Checkpoint<Check>> = Vec::new();
    let wire = handle_request("GET /hello HTTP/1.1\r\n\r\n", &routes, &cors, &checkpoints);
    assert_eq!(
        wire,
        "HTTP/1.1 200 Ok\r\nContent-Length:0\r\nContent-Type:application/json\r\n\r\n"
    );
}

#[test]
fn full_exchange_for_a_missing_route() {
    let routes: Vec<Route<Handler, Check>> = Vec::new();
    let cors = CORSHandler::inert();
    let checkpoints: Vec<Checkpoint<Check>> = Vec::new();
    let wire = handle_request("GET /hello HTTP/1.1\r\n\r\n", &routes, &cors, &checkpoints);
    assert_eq!(
        wire,
        "HTTP/1.1 404 Not Found\r\nContent-Length:0\r\nContent-Type:text/plain\r\n\r\n"
    );
}

#[test]
fn full_exchange_for_an_unsupported_protocol() {
    let routes: Vec<Route<Handler, Check>> = Vec::new();
    let cors = CORSHandler::inert();
    let checkpoints: Vec<Checkpoint<Check>> = Vec::new();
    let wire = handle_request("GET /hello HTTP/2.0\r\n\r\n", &routes, &cors, &checkpoints);
    assert_eq!(
        wire,
        "HTTP/1.0 505 HTTP Version Not Supported\r\nContent-Length:0\r\nContent-Type:text/plain\r\n\r\n"
    );
}

#[test]
fn full_exchange_for_a_malformed_protocol() {
    let routes: Vec<Route<Handler, Check>> = Vec::new();
    let cors = CORSHandler::inert();
    let checkpoints: Vec<Checkpoint<Check>> = Vec::new();
    let wire = handle_request("GET /hello HTTP/1.x\r\n\r\n", &routes, &cors, &checkpoints);
    assert_eq!(
        wire,
        "HTTP/1.0 400 Bad Redirect\r\nContent-Length:0\r\nContent-Type:text/plain\r\n\r\n"
    );
}

#[test]
fn stringmap_keeps_insertion_order_and_overrides_in_place() {
    let mut map = StringMap::new();
    map.insert("a".to_string(), "1".to_string());
    map.insert("b".to_string(), "2".to_string());
    map.insert("a".to_string(), "3".to_string());
    assert_eq!(map.len(), 2);
    assert_eq!(map.get("a"), Some(&"3".to_string()));
    let first = map.pair_at(0);
    assert_eq!(first.0, "a");
    assert_eq!(first.1, "3");
    assert!(map.contains_key("b"));
    assert!(!map.contains_key("c"));
    assert!(!map.is_empty());
}
