use link_checker::coordinator::{Coordinator, Phase, Step, WorkResult};
use link_checker::history::{CheckerLogic, CrawlHistory};
use link_checker::link::Link;
use link_checker::page::{check_status, is_success, links_from_hrefs, scan_page, visit_page, FetchError};

fn link(s: &str) -> Link {
    Link::parse(s).expect("a valid absolute URL")
}

fn texts(links: &[Link]) -> Vec<String> {
    links.iter().map(|l| l.as_str().to_owned()).collect()
}

#[test]
fn parse_normalizes_and_rejects() {
    assert_eq!(link("https://example.com").as_str(), "https://example.com/");
    assert!(Link::parse("not a url").is_none());
    assert!(Link::parse("").is_none());
}

#[test]
fn host_strings() {
    assert_eq!(link("https://example.com/a").host(), Some("example.com".to_string()));
    assert_eq!(link("http://127.0.0.1:8080/x").host(), Some("127.0.0.1".to_string()));
    assert_eq!(link("mailto:someone@example.com").host(), None);
    assert_eq!(link("data:text/plain,hi").host(), None);
}

#[test]
fn resolve_kinds_of_href() {
    let base = link("https://example.com/dir/page?q=1");
    assert_eq!(base.resolve("/b").unwrap().as_str(), "https://example.com/b");
    assert_eq!(base.resolve("c").unwrap().as_str(), "https://example.com/dir/c");
    assert_eq!(base.resolve("//other.com/x").unwrap().as_str(), "https://other.com/x");
    assert_eq!(base.resolve("#top").unwrap().as_str(), "https://example.com/dir/page?q=1#top");
    assert_eq!(base.resolve("http://third.org/").unwrap().as_str(), "http://third.org/");
}

#[test]
fn resolve_failure_names_href_and_base() {
    let base = link("mailto:someone@example.com");
    let err = base.resolve("not a url").unwrap_err();
    assert_eq!(err.href, "not a url");
    assert_eq!(err.base, "mailto:someone@example.com");
    let web = link("https://example.com/a");
    let err = web.resolve("http://[bad").unwrap_err();
    assert_eq!(err.href, "http://[bad");
    assert_eq!(err.base, "https://example.com/a");
}

#[test]
fn resolution_is_idempotent() {
    let base = link("https://example.com/a/b");
    let first = base.resolve("../c?d#e").unwrap();
    let second = base.resolve("../c?d#e").unwrap();
    assert_eq!(first.as_str(), second.as_str());
    assert_eq!(first.as_str(), "https://example.com/c?d#e");
    assert!(base.resolve("http://[bad").is_err());
    assert!(base.resolve("http://[bad").is_err());
}

#[test]
fn success_range() {
    assert!(!is_success(199));
    assert!(is_success(200));
    assert!(is_success(299));
    assert!(!is_success(300));
    assert!(!is_success(404));
    assert!(check_status(204).is_ok());
    assert!(matches!(check_status(500), Err(FetchError::BadResponse(500))));
}

#[test]
fn extracts_links_in_document_order() {
    let base = link("https://example.com/a");
    let body = "<html><body><a href=\"/b\">b</a><p><a name=\"x\">no href</a>\
                <a href=\"https://other.com/x\">x</a></p><a href=\"c\">c</a></body></html>";
    let scan = scan_page(&base, body);
    assert_eq!(
        texts(&scan.links),
        vec!["https://example.com/b", "https://other.com/x", "https://example.com/c"]
    );
    assert!(scan.skipped.is_empty());
}

#[test]
fn malformed_markup_still_yields_links() {
    let base = link("https://example.com/");
    let scan = scan_page(&base, "<div><a href=\"/ok\">unclosed <b>tags");
    assert_eq!(texts(&scan.links), vec!["https://example.com/ok"]);
}

#[test]
fn unresolvable_href_is_skipped_and_scan_continues() {
    let base = link("https://example.com/a");
    let hrefs = vec!["http://[bad".to_string(), "/c".to_string()];
    let scan = links_from_hrefs(&base, &hrefs);
    assert_eq!(texts(&scan.links), vec!["https://example.com/c"]);
    assert_eq!(scan.skipped.len(), 1);
    assert_eq!(scan.skipped[0].href, "http://[bad");
    assert_eq!(scan.skipped[0].base, "https://example.com/a");
}

#[test]
fn crawl_unparsable_href_crawl_continues() {
    let seed = link("https://example.com/a");
    let mut c = Coordinator::new(&seed);
    let page = visit_page(200, &seed, "<a href=\"http://[bad\">bad</a><a href=\"/b\">b</a>").unwrap();
    assert_eq!(page.skipped.len(), 1);
    match c.on_result(WorkResult::Links(page.links)) {
        Step::Dispatch(v) => assert_eq!(texts(&v), vec!["https://example.com/b"]),
        other => panic!("unexpected step {:?}", other),
    }
    assert_eq!(c.phase(), Phase::Running);
}

#[test]
fn visit_page_rejects_bad_status() {
    let base = link("https://example.com/a");
    assert!(matches!(visit_page(404, &base, "<a href=\"/b\">b</a>"), Err(FetchError::BadResponse(404))));
    let ok = visit_page(200, &base, "<a href=\"/b\">b</a>").unwrap();
    assert_eq!(texts(&ok.links), vec!["https://example.com/b"]);
}

#[test]
fn history_admits_once_and_only_in_domain() {
    let start = link("https://example.com/a");
    let mut h = CrawlHistory::new(&start);
    assert_eq!(h.len(), 0);
    assert!(h.to_be_visited(&start));
    assert!(!h.to_be_visited(&start));
    assert!(h.to_be_visited(&link("https://example.com/b")));
    assert!(!h.to_be_visited(&link("https://other.com/b")));
    assert!(!h.to_be_visited(&link("https://sub.example.com/b")));
    assert_eq!(h.len(), 2);
}

#[test]
fn history_scope_is_the_exact_host_string() {
    let mut h = CrawlHistory::new(&link("http://127.0.0.1/"));
    assert!(!h.to_be_visited(&link("http://10.0.0.1/x")));
    assert!(!h.to_be_visited(&link("mailto:someone@example.com")));
    assert_eq!(h.len(), 0);
    assert!(h.to_be_visited(&link("http://127.0.0.1/y")));
    assert_eq!(h.len(), 1);
}

#[test]
fn hostless_start_admits_nothing_more() {
    let start = link("data:text/html,<a href=x>x</a>");
    let mut c = CheckerLogic::new(&start);
    assert!(!c.to_be_visited(link("data:text/plain,other")));
    assert!(!c.to_be_visited(link("mailto:someone@example.com")));
    let mut h = CrawlHistory::with_start(&start);
    assert_eq!(h.len(), 1);
    assert!(!h.to_be_visited(&link("data:text/plain,other")));
    assert_eq!(h.len(), 1);
}

#[test]
fn ip_seeded_crawl_skips_other_hosts() {
    let seed = link("http://127.0.0.1/");
    let mut c = Coordinator::new(&seed);
    let page = scan_page(&seed, "<a href=\"http://10.0.0.1/x\">x</a><a href=\"mailto:a@b.c\">m</a><a href=\"/y\">y</a>");
    match c.on_result(WorkResult::Links(page.links)) {
        Step::Dispatch(v) => assert_eq!(texts(&v), vec!["http://127.0.0.1/y"]),
        other => panic!("unexpected step {:?}", other),
    }
    assert_eq!(c.registry().len(), 2);
}

#[test]
fn checker_logic_counts_start_as_visited() {
    let start = link("https://example.com/");
    let mut c = CheckerLogic::new(&start);
    assert!(!c.to_be_visited(link("https://example.com/")));
    assert!(c.to_be_visited(link("https://example.com/next")));
    assert!(!c.to_be_visited(link("https://elsewhere.com/next")));
    assert!(!c.to_be_visited(link("https://example.com/next")));
}

#[test]
fn crawl_same_domain_fetched_other_domain_not() {
    let seed = link("https://example.com/a");
    let mut c = Coordinator::new(&seed);
    assert_eq!(c.in_flight(), 1);
    let page = scan_page(&seed, "<a href=\"/b\">b</a><a href=\"https://other.com/x\">x</a>");
    let dispatched = match c.on_result(WorkResult::Links(page.links)) {
        Step::Dispatch(v) => texts(&v),
        other => panic!("unexpected step {:?}", other),
    };
    assert_eq!(dispatched, vec!["https://example.com/b"]);
    assert_eq!(c.in_flight(), 1);
    match c.on_result(WorkResult::Links(Vec::new())) {
        Step::Completed(n) => assert_eq!(n, 2),
        other => panic!("unexpected step {:?}", other),
    }
    assert_eq!(c.phase(), Phase::Completed);
}

#[test]
fn crawl_duplicate_links_fetched_once() {
    let seed = link("https://example.com/a");
    let mut c = Coordinator::new(&seed);
    let links = vec![
        link("https://example.com/a"),
        link("https://example.com/b"),
        link("https://example.com/b"),
    ];
    match c.on_result(WorkResult::Links(links)) {
        Step::Dispatch(v) => assert_eq!(texts(&v), vec!["https://example.com/b"]),
        other => panic!("unexpected step {:?}", other),
    }
    match c.on_result(WorkResult::Links(vec![link("https://example.com/b"), link("https://example.com/a")])) {
        Step::Completed(n) => assert_eq!(n, 2),
        other => panic!("unexpected step {:?}", other),
    }
}

#[test]
fn crawl_not_found_aborts() {
    let seed = link("https://example.com/a");
    let mut c = Coordinator::new(&seed);
    let links = vec![link("https://example.com/b"), link("https://example.com/c")];
    match c.on_result(WorkResult::Links(links)) {
        Step::Dispatch(v) => assert_eq!(v.len(), 2),
        other => panic!("unexpected step {:?}", other),
    }
    let failure = visit_page(404, &link("https://example.com/b"), "").unwrap_err();
    match c.on_result(WorkResult::Failed(failure)) {
        Step::Aborted(FetchError::BadResponse(status), n) => {
            assert_eq!(status, 404);
            assert_eq!(n, 3);
        }
        other => panic!("unexpected step {:?}", other),
    }
    assert_eq!(c.phase(), Phase::Aborted);
    assert_eq!(c.in_flight(), 1);
}

#[test]
fn transport_failure_aborts() {
    let mut c = Coordinator::new(&link("https://example.com/"));
    match c.on_result(WorkResult::Failed(FetchError::Transport("connection refused".to_string()))) {
        Step::Aborted(FetchError::Transport(msg), n) => {
            assert_eq!(msg, "connection refused");
            assert_eq!(n, 1);
        }
        other => panic!("unexpected step {:?}", other),
    }
}

#[test]
fn crawl_empty_page_completes() {
    let seed = link("https://example.com/a");
    let mut c = Coordinator::new(&seed);
    let page = scan_page(&seed, "<html><head><title>t</title></head><body></body></html>");
    assert!(page.links.is_empty());
    match c.on_result(WorkResult::Links(page.links)) {
        Step::Completed(n) => assert_eq!(n, 1),
        other => panic!("unexpected step {:?}", other),
    }
    assert_eq!(c.in_flight(), 0);
    assert_eq!(c.visited(), 1);
}

/// A site served from memory; the pages hold links to one another and off-site.
fn fake_site(url: &str) -> (u16, &'static str) {
    match url {
        "https://example.com/" => (200, "<a href=\"/a\">a</a><a href=\"/b\">b</a><a href=\"https://other.com/\">o</a>"),
        "https://example.com/a" => (200, "<a href=\"/b\">b</a><a href=\"/\">home</a><a href=\"c\">c</a>"),
        "https://example.com/b" => (200, "<a href=\"/a\">a</a><a href=\"/c\">c</a><a href=\"/c\">c</a>"),
        "https://example.com/c" => (200, "<a href=\"https://example.com/\">home</a>"),
        _ => (404, ""),
    }
}

#[test]
fn crawl_fetches_each_url_once_and_counts_to_zero() {
    let seed = link("https://example.com/");
    let mut c = Coordinator::new(&seed);
    let mut queue = vec![seed];
    let mut fetched: Vec<String> = Vec::new();
    let mut finished = None;
    // Results are handed back last-dispatched first, unlike dispatch order.
    while let Some(url) = queue.pop() {
        assert!(!fetched.contains(&url.as_str().to_owned()));
        assert_eq!(url.host(), Some("example.com".to_string()));
        fetched.push(url.as_str().to_owned());
        let (status, body) = fake_site(url.as_str());
        let result = match visit_page(status, &url, body) {
            Ok(scan) => WorkResult::Links(scan.links),
            Err(e) => WorkResult::Failed(e),
        };
        match c.on_result(result) {
            Step::Dispatch(v) => queue.extend(v),
            Step::Completed(n) => finished = Some(n),
            other => panic!("unexpected step {:?}", other),
        }
    }
    assert_eq!(finished, Some(4));
    assert_eq!(c.in_flight(), 0);
    assert_eq!(c.visited(), fetched.len());
    assert_eq!(c.registry().len(), fetched.len());
    let mut sorted = fetched.clone();
    sorted.sort();
    assert_eq!(
        sorted,
        vec!["https://example.com/", "https://example.com/a", "https://example.com/b", "https://example.com/c"]
    );
}
