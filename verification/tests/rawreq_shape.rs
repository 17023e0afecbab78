use surface_scan::rawreq::{
    build_request, plan_request, prepare_cookie, RequestError,
};

#[test]
fn raw_request_exact_shape() {
    let r = build_request("POST", "/login", "example.com", None, "a=1");
    assert_eq!(
        r,
        "POST /login HTTP/1.1\r\nHost: example.com\r\nContent-Length: 3\r\nUser-Agent: Mozilla/5.0\r\n\r\na=1"
    );
}

#[test]
fn raw_request_uppercases_method() {
    let r = build_request("post", "/x", "h", None, "");
    assert!(r.starts_with("POST /x HTTP/1.1\r\n"));
}

#[test]
fn raw_request_empty_payload_zero_length() {
    let r = build_request("GET", "/", "h", None, "");
    assert_eq!(
        r,
        "GET / HTTP/1.1\r\nHost: h\r\nContent-Length: 0\r\nUser-Agent: Mozilla/5.0\r\n\r\n"
    );
}

#[test]
fn raw_request_cookie_block_spliced() {
    let r = build_request(
        "GET",
        "/",
        "h",
        Some("Cookie: k=v".to_string()),
        "",
    );
    assert_eq!(
        r,
        "GET / HTTP/1.1\r\nHost: h\r\nCookie: k=v\r\nContent-Length: 0\r\nUser-Agent: Mozilla/5.0\r\n\r\n"
    );
}

#[test]
fn prepare_cookie_cases() {
    assert_eq!(prepare_cookie(None), "");
    assert_eq!(prepare_cookie(Some(String::new())), "");
    assert_eq!(prepare_cookie(Some("Cookie: a=b".to_string())), "Cookie: a=b\r\n");
    assert_eq!(
        prepare_cookie(Some("Cookie: a=b\r\nX: y\r\n".to_string())),
        "Cookie: a=b\r\nX: y\r\n"
    );
}

#[test]
fn plan_request_http_defaults() {
    let p = plan_request(
        &"http://example.com".to_string(),
        "/login",
        "post",
        None,
        Some("a=1".to_string()),
    )
    .unwrap();
    assert_eq!(p.host, "example.com");
    assert_eq!(p.port, 80);
    assert!(!p.use_tls);
    assert_eq!(p.address, "example.com:80");
    assert_eq!(
        p.content,
        "POST /login HTTP/1.1\r\nHost: example.com\r\nContent-Length: 3\r\nUser-Agent: Mozilla/5.0\r\n\r\na=1"
    );
}

#[test]
fn plan_request_https_defaults() {
    let p = plan_request(
        &"https://example.com".to_string(),
        "/",
        "GET",
        None,
        None,
    )
    .unwrap();
    assert_eq!(p.port, 443);
    assert!(p.use_tls);
    assert_eq!(p.address, "example.com:443");
}

#[test]
fn plan_request_explicit_port() {
    let p = plan_request(
        &"http://example.com:8080".to_string(),
        "/",
        "GET",
        None,
        None,
    )
    .unwrap();
    assert_eq!(p.port, 8080);
    assert_eq!(p.address, "example.com:8080");
}

#[test]
fn plan_request_rejects_bad_url() {
    let e = plan_request(&"not a url".to_string(), "/", "GET", None, None);
    assert_eq!(e.unwrap_err(), RequestError::UrlParse);
}

#[test]
fn plan_request_rejects_hostless_url() {
    let e = plan_request(&"data:text/plain,hi".to_string(), "/", "GET", None, None);
    assert_eq!(e.unwrap_err(), RequestError::UrlParse);
}
