use arkos::protocol::Protocol;
use arkos::status::StatusCode;

#[test]
fn parse_http11() {
    assert_eq!(
        Protocol::Http1(1),
        Protocol::parse_from_raw("GET /hello HTTP/1.1\r\n Header : Blablabla").unwrap()
    );
}

#[test]
fn parse_http10() {
    assert_eq!(Ok(Protocol::Http1(0)), Protocol::parse_from_str("HTTP/1.0"));
}

#[test]
fn subversion_not_taken_in_charge() {
    assert_eq!(
        Err(StatusCode::HTTPVersionNotSupported),
        Protocol::parse_from_str("HTTP/1.2")
    );
}

#[test]
fn major_version_not_taken_in_charge() {
    assert_eq!(
        Err(StatusCode::HTTPVersionNotSupported),
        Protocol::parse_from_str("HTTP/2.0")
    );
}

#[test]
fn unreadable_subversion_is_a_bad_request() {
    assert_eq!(Err(StatusCode::BadRequest), Protocol::parse_from_str("HTTP/1.x"));
    assert_eq!(Err(StatusCode::BadRequest), Protocol::parse_from_str("HTTP/1"));
}

#[test]
fn protocol_wire_name() {
    assert_eq!(Protocol::Http1(1).to_string(), "HTTP/1.1");
    assert_eq!(Protocol::Http1(0).get_version(), 0);
    assert!(Protocol::Http1(1).is_taken_in_charge());
    assert!(!Protocol::Http1(2).is_taken_in_charge());
    assert!(Protocol::Http1(1).since(1));
    assert!(!Protocol::Http1(0).since(1));
}
