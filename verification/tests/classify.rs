use surface_scan::links::{is_internal, parse, CrawlLink, extract_robots_paths};

#[test]
fn internal_absolute_path() {
    assert!(is_internal("/login"));
}

#[test]
fn internal_relative_paths() {
    assert!(is_internal("./page.html"));
    assert!(is_internal("../up/one"));
}

#[test]
fn internal_bare_name() {
    assert!(is_internal("login"));
}

#[test]
fn external_http_and_https() {
    assert!(!is_internal("https://evil.com/x"));
    assert!(!is_internal("http://evil.com/x"));
}

#[test]
fn internal_other_schemes_count_as_inner() {
    assert!(is_internal("ftp://host/file"));
    assert!(is_internal("mailto:user@host"));
}

#[test]
fn empty_body_sentinel() {
    let r = parse(&String::new());
    assert_eq!(r.inner, vec!["".to_string()]);
    assert_eq!(r.outer, vec!["".to_string()]);
}

#[test]
fn parse_classifies_and_orders_links() {
    let body = "<html><head><link href=\"style.css\"></head><body>\
        <a href=\"/one\">a</a>\
        <a href=\"https://evil.com/x\">b</a>\
        <form action=\"/post\"></form>\
        <script src=\"/app.js\"></script>\
        </body></html>"
        .to_string();
    let r = parse(&body);
    assert_eq!(
        r.inner,
        vec![
            "/one".to_string(),
            "style.css".to_string(),
            "/post".to_string(),
            "/app.js".to_string(),
        ]
    );
    assert_eq!(r.outer, vec!["https://evil.com/x".to_string()]);
}

#[test]
fn parse_body_without_links_is_empty_not_sentinel() {
    let r = parse(&"<p>nothing here</p>".to_string());
    assert!(r.inner.is_empty());
    assert!(r.outer.is_empty());
}

#[test]
fn combine_concatenates_in_order() {
    let a = CrawlLink { inner: vec!["/a".into()], outer: vec!["http://x/1".into()] };
    let b = CrawlLink { inner: vec!["/b1".into(), "/b2".into()], outer: vec![] };
    let c = CrawlLink { inner: vec!["/a".into()], outer: vec!["http://x/2".into()] };
    let r = CrawlLink::combine(vec![a, b, c]);
    assert_eq!(
        r.inner,
        vec!["/a".to_string(), "/b1".into(), "/b2".into(), "/a".into()]
    );
    assert_eq!(r.outer, vec!["http://x/1".to_string(), "http://x/2".into()]);
}

#[test]
fn combine_grouping_does_not_matter() {
    let mk = || {
        (
            CrawlLink { inner: vec!["/a".into()], outer: vec![] },
            CrawlLink { inner: vec!["/b".into()], outer: vec!["http://o".into()] },
            CrawlLink { inner: vec!["/c".into()], outer: vec![] },
        )
    };
    let (a, b, c) = mk();
    let all = CrawlLink::combine(vec![a, b, c]);
    let (a, b, c) = mk();
    let left = CrawlLink::combine(vec![CrawlLink::combine(vec![a, b]), c]);
    let (a, b, c) = mk();
    let right = CrawlLink::combine(vec![a, CrawlLink::combine(vec![b, c])]);
    assert_eq!(all.inner, left.inner);
    assert_eq!(all.inner, right.inner);
    assert_eq!(all.outer, left.outer);
    assert_eq!(all.outer, right.outer);
}

#[test]
fn scrape_all_joins_and_keeps_sentinel() {
    let l = CrawlLink { inner: vec!["/a".into(), "/b".into()], outer: vec![] };
    assert_eq!(
        l.scrape_all("http://t"),
        vec!["http://t/a".to_string(), "http://t/b".into()]
    );
    let sentinel = CrawlLink { inner: vec!["".into()], outer: vec!["".into()] };
    assert_eq!(sentinel.scrape_all("http://t"), vec!["".to_string()]);
}

#[test]
fn robots_paths_simple() {
    let r = extract_robots_paths("/a\n/b\n");
    assert_eq!(r, vec!["/a".to_string(), "/b".into()]);
}

#[test]
fn robots_paths_from_directives() {
    let r = extract_robots_paths("User-agent: *\nDisallow: /admin\nAllow: /pub/x y\n");
    assert_eq!(
        r,
        vec!["/admin".to_string(), "/pub/x".into()]
    );
}

#[test]
fn robots_paths_token_runs_to_whitespace() {
    let r = extract_robots_paths("x/y z //double /end");
    assert_eq!(
        r,
        vec!["/y".to_string(), "//double".into(), "/end".into()]
    );
}

#[test]
fn robots_paths_empty_body() {
    let r = extract_robots_paths("");
    assert!(r.is_empty());
}
