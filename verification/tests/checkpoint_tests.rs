use arkos::checkpoint::Checkpoint;
use arkos::checkpoint_manager::CheckpointManager;
use arkos::checkpoint_manager::compare;
use arkos::method::HttpMethod;
use arkos::request::Request;
use arkos::status::StatusCode;
use arkos::stringmap::StringMap;

type Check = fn(Request) -> Result<(), StatusCode>;

fn reject(_req: Request) -> Result<(), StatusCode> {
    Err(StatusCode::BadRequest)
}

fn base(list: &str) -> CheckpointManager<Check> {
    let mut checkpoint = Checkpoint::new(reject as Check);
    checkpoint.on_all(vec![list, "/"]);
    CheckpointManager::new(checkpoint)
}

fn base_req(path: &str) -> Request {
    Request {
        method: HttpMethod::GET,
        url: path.into(),
        headers: StringMap::new(),
        cookies: StringMap::new(),
        param: StringMap::new(),
        body: "".into(),
    }
}

#[test]
fn except_exact() {
    let mut m = base("/hello");
    m.checkpoint.except("/hello");
    let req = base_req("/hello");
    assert_eq!(None, m.verify(req));
}

#[test]
fn except_exact_incomplete_path() {
    let mut m = base("/**");
    m.checkpoint.except("/hello");
    let req = base_req("/hell");
    assert_eq!(Some(StatusCode::BadRequest), m.verify(req));
}

#[test]
fn exact() {
    let m = base("/hello");
    let req = base_req("/hello");
    assert_eq!(Some(StatusCode::BadRequest), m.verify(req));
}

#[test]
fn subpath_sended_too_much() {
    let m = base("/hello");
    let req = base_req("/hello/hello");
    assert_eq!(None, m.verify(req));
}

#[test]
fn subpath_sended_exact() {
    let m = base("/hello/hello");
    let req = base_req("/hello/hello");
    assert_eq!(Some(StatusCode::BadRequest), m.verify(req));
}

#[test]
fn subpath_sended_subpath_allowed() {
    let m = base("/hello/*");
    let req = base_req("/hello/hello/");
    assert_eq!(Some(StatusCode::BadRequest), m.verify(req));
}

#[test]
fn subpath_sended_is_base() {
    let m = base("/hello/**");
    let req = base_req("/hello/hello");
    assert_eq!(Some(StatusCode::BadRequest), m.verify(req));
}

#[test]
fn subsubpath_sended_too_much() {
    let m = base("/hello/*");
    let req = base_req("/hello/hello/hello");
    assert_eq!(None, m.verify(req));
}

#[test]
fn subsubpath_sended_base_allowed() {
    let m = base("/hello/**");
    let req = base_req("/hello/hello/hello");
    assert_eq!(Some(StatusCode::BadRequest), m.verify(req));
}

#[test]
fn compare_exact_and_wildcards() {
    assert_eq!(compare("/hello", "/hello"), true);
    assert_eq!(compare("/hello", "/hello/x"), false);
    assert_eq!(compare("/hello/*", "/hello/x"), true);
    assert_eq!(compare("/hello/*", "/hello/x/y"), false);
    assert_eq!(compare("/hello/**", "/hello/x/y"), true);
}

#[test]
fn compare_trailing_slash_stripped() {
    assert_eq!(compare("/hello/*", "/hello/x/"), true);
    assert_eq!(compare("/hello/**", "/hello"), false);
}

#[test]
fn checkpoint_without_paths_is_inert() {
    let checkpoint = Checkpoint::new(reject as Check);
    let m = CheckpointManager::new(checkpoint);
    assert_eq!(None, m.verify(base_req("/hello")));
}

#[test]
fn exception_paths_replaced() {
    let mut m = base("/**");
    m.checkpoint.except_all(vec!["/open", "/public"]);
    assert_eq!(None, m.verify(base_req("/open")));
    assert_eq!(None, m.verify(base_req("/public")));
    assert_eq!(Some(StatusCode::BadRequest), m.verify(base_req("/private")));
    m.checkpoint.set_exception_paths(vec!["/private"]);
    assert_eq!(None, m.verify(base_req("/private")));
    assert_eq!(Some(StatusCode::BadRequest), m.verify(base_req("/open")));
}

#[test]
fn target_paths_replaced() {
    let mut checkpoint = Checkpoint::new(reject as Check);
    checkpoint.on("/a");
    checkpoint.set_paths(vec!["/b"]);
    let m = CheckpointManager::new(checkpoint);
    assert_eq!(None, m.verify(base_req("/a")));
    assert_eq!(Some(StatusCode::BadRequest), m.verify(base_req("/b")));
}
