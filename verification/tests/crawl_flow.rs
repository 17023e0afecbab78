use surface_scan::crawl::CrawlEngine;
use surface_scan::rawreq::FetchOutcome;

fn outcome(body: &str) -> FetchOutcome {
    FetchOutcome {
        body: body.to_string(),
        headers: vec![("content-type".to_string(), "text/html".to_string())],
        status: "200 OK".to_string(),
    }
}

#[test]
fn end_to_end_two_levels() {
    let (mut eng, robots_url) = CrawlEngine::start("http://test.local".to_string(), 100);
    assert_eq!(robots_url, "http://test.local/robots.txt");

    // robots.txt seeds /a and /b; both fit under the bound and go out at once
    let pending = eng.on_robots(Some("/a\n/b\n".to_string()));
    assert_eq!(
        pending,
        vec!["http://test.local/a".to_string(), "http://test.local/b".to_string()]
    );

    // each first-level body links to /c
    let html = "<a href=\"/c\">c</a>";
    let more = eng.on_page(Some(outcome(html)));
    assert!(more.is_empty());
    let more = eng.on_page(Some(outcome(html)));
    assert!(more.is_empty());

    // level one drained: level two fetches the combined inner list /c, /c
    let pending2 = eng.next_phase();
    assert_eq!(
        pending2,
        vec!["http://test.local/c".to_string(), "http://test.local/c".to_string()]
    );

    // /c pages hold no further links; the crawl terminates, no recursion
    let more = eng.on_page(Some(outcome("<p>leaf</p>")));
    assert!(more.is_empty());
    let more = eng.on_page(Some(outcome("<p>leaf</p>")));
    assert!(more.is_empty());
    let none = eng.next_phase();
    assert!(none.is_empty());
    assert!(eng.is_done());

    let result = eng.into_result();
    assert_eq!(
        result.inner,
        vec!["/a".to_string(), "/b".into(), "/c".into(), "/c".into()]
    );
    assert!(result.outer.is_empty());
}

#[test]
fn failed_robots_seeds_nothing() {
    let (mut eng, _) = CrawlEngine::start("http://t".to_string(), 10);
    let pending = eng.on_robots(None);
    assert!(pending.is_empty());
    assert!(eng.next_phase().is_empty()); // empty level two
    assert!(eng.next_phase().is_empty());
    assert!(eng.is_done());
    let r = eng.into_result();
    assert!(r.inner.is_empty());
    assert!(r.outer.is_empty());
}

#[test]
fn permit_bound_holds_under_mixed_outcomes() {
    // five seeds under a bound of two: never more than two in flight, and
    // every completion, success or failure, frees exactly one permit
    let (mut eng, _) = CrawlEngine::start("http://t".to_string(), 2);
    let pending = eng.on_robots(Some("/a /b /c /d /e".to_string()));
    assert_eq!(pending.len(), 2);
    assert_eq!(eng.in_flight, 2);

    let next = eng.on_page(None); // failed fetch still releases its permit
    assert_eq!(next, vec!["http://t/c".to_string()]);
    assert_eq!(eng.in_flight, 2);

    let next = eng.on_page(Some(outcome("<p>x</p>")));
    assert_eq!(next, vec!["http://t/d".to_string()]);
    assert_eq!(eng.in_flight, 2);

    let next = eng.on_page(None);
    assert_eq!(next, vec!["http://t/e".to_string()]);
    assert_eq!(eng.in_flight, 2);

    let next = eng.on_page(Some(outcome("")));
    assert!(next.is_empty());
    assert_eq!(eng.in_flight, 1);
    let next = eng.on_page(None);
    assert!(next.is_empty());
    assert_eq!(eng.in_flight, 0);

    // failures left their endpoints undiscovered, the empty body left its
    // sentinel, and no permit leaked
    assert!(eng.next_phase().len() <= 2);
}

#[test]
fn failed_fetches_are_omitted_not_fatal() {
    let (mut eng, _) = CrawlEngine::start("http://t".to_string(), 10);
    let pending = eng.on_robots(Some("/a /b".to_string()));
    assert_eq!(pending.len(), 2);
    eng.on_page(None);
    eng.on_page(Some(outcome("<a href=\"http://other.site/x\">o</a>")));
    let pending2 = eng.next_phase(); // no inner endpoints found
    assert!(pending2.is_empty());
    eng.next_phase();
    assert!(eng.is_done());
    let r = eng.into_result();
    assert_eq!(r.inner, vec!["/a".to_string(), "/b".into()]);
    assert_eq!(r.outer, vec!["http://other.site/x".to_string()]);
}
