use site_mirror::Crawler;
use site_mirror::Outcome;
use site_mirror::Url;

fn url(s: &str) -> Url {
    Url::parse(s).expect("absolute URL")
}

fn html_kind() -> String {
    "text/html; charset=utf-8".to_string()
}

fn persist_path(out: Outcome) -> String {
    match out {
        Outcome::Persist(p) => p,
        other => panic!("expected a persist outcome, got {:?}", other),
    }
}

#[test]
fn end_to_end_two_fetches() {
    // Seed http://site.test/; its page links /a, an off-origin page, and /a
    // again. Expected: two fetches in all, one file per fetched page, the
    // off-origin link never fetched, the duplicate fetched once.
    let mut c = Crawler::new(url("http://site.test/"), "./out".to_string()).expect("seed has a host");
    let t1 = c.next_task().expect("seed is admitted");
    assert_eq!(t1.key_string(), "http://site.test/");
    let body = r#"<a href="/a">1</a><a href="http://other.test/x">off</a><a href="/a">2</a>"#;
    let kind = html_kind();
    assert_eq!(persist_path(c.handle_response(&t1, Some(&kind), body)), "./out/index.html");
    let t2 = c.next_task().expect("the linked page is admitted");
    assert_eq!(t2.key_string(), "http://site.test/a");
    assert_eq!(persist_path(c.handle_response(&t2, Some(&kind), "leaf")), "./out/a/index.html");
    assert!(c.next_task().is_none(), "no third fetch: duplicate and off-origin links are skipped");
}

#[test]
fn duplicate_links_fetched_once() {
    let mut c = Crawler::new(url("http://site.test/"), "./out".to_string()).expect("seed has a host");
    let kind = html_kind();
    let t1 = c.next_task().expect("seed is admitted");
    let body = r#"<a href="/p">a</a><a href="/p">b</a><a href="/p?">c</a>"#;
    c.handle_response(&t1, Some(&kind), body);
    let mut handed_out: Vec<String> = Vec::new();
    while let Some(t) = c.next_task() {
        handed_out.push(t.key_string());
        c.handle_response(&t, Some(&kind), "leaf");
    }
    assert_eq!(handed_out, vec!["http://site.test/p?".to_string(), "http://site.test/p".to_string()]);
}

#[test]
fn cycle_terminates() {
    // Page A links B; page B links back to A. The crawl must terminate
    // after fetching each page once.
    let mut c = Crawler::new(url("http://site.test/a"), "./out".to_string()).expect("seed has a host");
    let kind = html_kind();
    let ta = c.next_task().expect("a admitted");
    assert_eq!(ta.key_string(), "http://site.test/a");
    c.handle_response(&ta, Some(&kind), r#"<a href="/b">to b</a>"#);
    let tb = c.next_task().expect("b admitted");
    assert_eq!(tb.key_string(), "http://site.test/b");
    c.handle_response(&tb, Some(&kind), r#"<a href="/a">back to a</a>"#);
    assert!(c.next_task().is_none(), "the cycle is not followed again");
    assert_eq!(c.visited_count(), 2);
}

#[test]
fn off_origin_links_never_fetched() {
    let mut c = Crawler::new(url("http://site.test/"), "./out".to_string()).expect("seed has a host");
    let kind = html_kind();
    let t1 = c.next_task().expect("seed admitted");
    let body = r#"<a href="http://other.test/">other host</a><a href="https://site.test/secure">other scheme</a><a href="mailto:someone@site.test">no host</a><a href="/ok">in origin</a>"#;
    c.handle_response(&t1, Some(&kind), body);
    let t2 = c.next_task().expect("the in-origin link is admitted");
    assert_eq!(t2.key_string(), "http://site.test/ok");
    c.handle_response(&t2, Some(&kind), "leaf");
    assert!(c.next_task().is_none());
    assert_eq!(c.visited_count(), 2, "only the seed and the in-origin link were claimed");
}

#[test]
fn failed_fetch_leaves_siblings_attempted() {
    let mut c = Crawler::new(url("http://site.test/"), "./out".to_string()).expect("seed has a host");
    let kind = html_kind();
    let t1 = c.next_task().expect("seed admitted");
    c.handle_response(&t1, Some(&kind), r#"<a href="/x">x</a><a href="/y">y</a><a href="/z">z</a>"#);
    assert_eq!(c.pending_count(), 3);
    let f1 = c.next_task().expect("first sibling admitted");
    // The fetch of f1 fails: the caller reports nothing, state is untouched.
    let f2 = c.next_task().expect("second sibling still attempted");
    assert_ne!(f1.key_string(), f2.key_string());
    assert_eq!(persist_path(c.handle_response(&f2, Some(&kind), "leaf")),
        format!("./out/{}/index.html", f2.path.trim_start_matches('/')));
    let f3 = c.next_task().expect("third sibling still attempted");
    assert_ne!(f3.key_string(), f1.key_string());
    assert_ne!(f3.key_string(), f2.key_string());
    let mut got = vec![f1.key_string(), f2.key_string(), f3.key_string()];
    got.sort();
    assert_eq!(got, vec![
        "http://site.test/x".to_string(),
        "http://site.test/y".to_string(),
        "http://site.test/z".to_string(),
    ]);
}

#[test]
fn redirect_collapses_to_final_url() {
    // The seed page links /old and, independently, /new. Fetching /old
    // redirects to /new: exactly one file, at the path derived from /new,
    // and the later link to /new is recognized as visited.
    let mut c = Crawler::new(url("http://site.test/"), "./out".to_string()).expect("seed has a host");
    let kind = html_kind();
    let t1 = c.next_task().expect("seed admitted");
    c.handle_response(&t1, Some(&kind), r#"<a href="/new">direct</a><a href="/old">moved</a>"#);
    let t2 = c.next_task().expect("the old address is admitted");
    assert_eq!(t2.key_string(), "http://site.test/old");
    // The transport followed the redirect: the final URL is /new.
    let final_url = url("http://site.test/new");
    let out = c.handle_response(&final_url, Some(&kind), "arrived");
    assert_eq!(persist_path(out), "./out/new/index.html");
    assert!(c.next_task().is_none(), "the independent link to /new is already visited");
}

#[test]
fn missing_content_kind_is_branch_local() {
    let mut c = Crawler::new(url("http://site.test/"), "./out".to_string()).expect("seed has a host");
    let t1 = c.next_task().expect("seed admitted");
    let before = c.visited_count();
    let out = c.handle_response(&t1, None, "ignored");
    assert!(matches!(out, Outcome::MissingKind));
    assert_eq!(c.visited_count(), before, "nothing further is claimed");
    assert!(c.next_task().is_none(), "the seed page yielded no links");
}

#[test]
fn unsupported_kind_is_branch_local() {
    let mut c = Crawler::new(url("http://site.test/"), "./out".to_string()).expect("seed has a host");
    let kind = "image/png".to_string();
    let t1 = c.next_task().expect("seed admitted");
    let out = c.handle_response(&t1, Some(&kind), "binary-ish");
    assert!(matches!(out, Outcome::UnsupportedKind));
    assert!(c.next_task().is_none());
}

#[test]
fn seed_without_host_is_rejected() {
    let seed = Url::new("mailto".to_string(), None, "user@site.test".to_string(), None);
    assert!(Crawler::new(seed, "./out".to_string()).is_none());
}

#[test]
fn query_distinguishes_fetch_identity() {
    let mut c = Crawler::new(url("http://site.test/"), "./out".to_string()).expect("seed has a host");
    let kind = html_kind();
    let t1 = c.next_task().expect("seed admitted");
    c.handle_response(&t1, Some(&kind), r#"<a href="/s?q=a">a</a><a href="/s?q=b">b</a>"#);
    let t2 = c.next_task().expect("admitted");
    let t3 = c.next_task().expect("admitted: a different query is a different resource");
    assert_ne!(t2.key_string(), t3.key_string());
}
