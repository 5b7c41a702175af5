use arkos::cookie::Cookie;

#[test]
fn cookie_is_valid() {
    let cookie = Cookie::new("Cookie".into(), "Value".into());
    assert_eq!(cookie.is_valid(), true)
}

#[test]
fn cookie_has_forbidden_char() {
    let cookie = Cookie::new("Cookie".into(), "Va/lue".into());
    assert_eq!(cookie.is_valid(), false)
}

#[test]
fn cookie_has_tabulation() {
    let cookie = Cookie::new("Coo   kie".into(), "Value".into());
    assert_eq!(cookie.is_valid(), false)
}

#[test]
fn valid_secure() {
    let mut cookie = Cookie::new("__Secure-Cookie".into(), "Value".into());
    cookie.as_secured();
    assert_eq!(cookie.is_valid(), true)
}

#[test]
fn invalid_secure() {
    let cookie = Cookie::new("__Secure-Cookie".into(), "Value".into());
    assert_eq!(cookie.is_valid(), false)
}

#[test]
fn host_valid() {
    let mut cookie = Cookie::new("__Host-Cookie".into(), "Value".into());
    cookie.set_path("/".into());
    cookie.as_secured();
    assert_eq!(cookie.is_valid(), true)
}

#[test]
fn host_unsecured_with_valid_path() {
    let mut cookie = Cookie::new("__Host-Cookie".into(), "Value".into());
    cookie.set_path("/".into());
    assert_eq!(cookie.is_valid(), false)
}

#[test]
fn host_unsecured_with_invalid_domain() {
    let mut cookie = Cookie::new("__Host-Cookie".into(), "Value".into());
    cookie.set_path("/".into());
    cookie.set_domain("wikipedia.fr".into());
    assert_eq!(cookie.is_valid(), false)
}

#[test]
fn cookie_cookie_is_valid() {
    let cookie = Cookie::new("Cookie".into(), "Value".into());
    assert_eq!(cookie.is_valid(), true)
}

#[test]
fn cookie_cookie_has_forbidden_char() {
    let cookie = Cookie::new("Cookie".into(), "Va/lue".into());
    assert_eq!(cookie.is_valid(), false)
}

#[test]
fn cookie_cookie_has_tabulation() {
    let cookie = Cookie::new("Coo   kie".into(), "Value".into());
    assert_eq!(cookie.is_valid(), false)
}

#[test]
fn cookie_valid_secure() {
    let mut cookie = Cookie::new("__Secure-Cookie".into(), "Value".into());
    cookie.as_secured();
    assert_eq!(cookie.is_valid(), true)
}

#[test]
fn cookie_invalid_secure() {
    let cookie = Cookie::new("__Secure-Cookie".into(), "Value".into());
    assert_eq!(cookie.is_valid(), false)
}

#[test]
fn cookie_host_valid() {
    let mut cookie = Cookie::new("__Host-Cookie".into(), "Value".into());
    cookie.set_path("/".into());
    cookie.as_secured();
    assert_eq!(cookie.is_valid(), true)
}

#[test]
fn cookie_host_unsecured_with_valid_path() {
    let mut cookie = Cookie::new("__Host-Cookie".into(), "Value".into());
    cookie.set_path("/".into());
    assert_eq!(cookie.is_valid(), false)
}

#[test]
fn cookie_host_unsecured_with_invalid_domain() {
    let mut cookie = Cookie::new("__Host-Cookie".into(), "Value".into());
    cookie.set_path("/".into());
    cookie.set_domain("wikipedia.fr".into());
    assert_eq!(cookie.is_valid(), false)
}

#[test]
fn cookie_header_with_attributes() {
    let mut cookie = Cookie::new("session".into(), "abc123".into());
    cookie.has_max_age(3600);
    cookie.set_domain("example.org".into());
    cookie.set_path("/app".into());
    cookie.set_same_site("Strict".into());
    cookie.as_http_only();
    cookie.as_secured();
    assert_eq!(
        cookie.generate_header(),
        "session=abc123; Max-Age=3600; Domain=example.org; Path=/app; SameSite=Strict; HttpOnly; Secure"
    );
}

#[test]
fn cookie_header_bare_pair() {
    let cookie = Cookie::new("k".into(), "v".into());
    assert_eq!(cookie.generate_header(), "k=v");
}
