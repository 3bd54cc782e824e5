use site_mirror::Url;
use site_mirror::extract_links;

fn url(s: &str) -> Url {
    Url::parse(s).expect("absolute URL")
}

fn keys(links: &[Url]) -> Vec<String> {
    links.iter().map(|u| u.key_string()).collect()
}

#[test]
fn parse_normalizes_and_drops_fragment() {
    let u = url("HTTP://SITE.Test:80/Path?q=1#frag");
    assert_eq!(u.key_string(), "http://site.test/Path?q=1");
    assert_eq!(u.scheme, "http");
    assert_eq!(u.host.as_deref(), Some("site.test"));
    assert_eq!(u.path, "/Path");
    assert_eq!(u.query.as_deref(), Some("q=1"));
}

#[test]
fn explicit_port_kept_in_identity() {
    let u = url("http://site.test:4000/a");
    assert_eq!(u.key_string(), "http://site.test:4000/a");
    assert_eq!(u.host.as_deref(), Some("site.test:4000"));
}

#[test]
fn parse_rejects_relative_reference() {
    assert!(Url::parse("no-scheme/here").is_none());
}

#[test]
fn built_url_matches_parsed_url() {
    let built = Url::new(
        "http".to_string(),
        Some("site.test".to_string()),
        "/a".to_string(),
        None,
    );
    assert_eq!(built.key_string(), url("http://site.test/a").key_string());
}

#[test]
fn resolve_relative_reference() {
    let base = url("http://site.test/dir/page");
    let r = base.resolve("other").expect("resolves");
    assert_eq!(r.key_string(), "http://site.test/dir/other");
    let up = base.resolve("../x").expect("resolves");
    assert_eq!(up.key_string(), "http://site.test/x");
}

#[test]
fn resolve_absolute_reference_replaces_base() {
    let base = url("http://site.test/dir/page");
    let r = base.resolve("http://other.test/z").expect("resolves");
    assert_eq!(r.key_string(), "http://other.test/z");
}

#[test]
fn resolve_rejects_unusable_reference() {
    let base = url("http://site.test/");
    assert!(base.resolve("http://").is_none());
}

#[test]
fn extracts_anchors_in_document_order() {
    let base = url("http://site.test/");
    let html = r#"<a href="/one">1</a><p>text</p><a href="/two">2</a>"#;
    let links = extract_links(html, &base).expect("parses");
    assert_eq!(
        keys(&links),
        vec!["http://site.test/one".to_string(), "http://site.test/two".to_string()]
    );
}

#[test]
fn resolves_relative_hrefs_against_final_url() {
    let base = url("http://site.test/dir/page");
    let html = r#"<a href="leaf">l</a>"#;
    let links = extract_links(html, &base).expect("parses");
    assert_eq!(keys(&links), vec!["http://site.test/dir/leaf".to_string()]);
}

#[test]
fn skips_anchors_without_usable_href() {
    let base = url("http://site.test/");
    let html = r#"<a>no attribute</a><a href>no value</a><div href="/d">not an anchor</div><a href="http://">unresolvable</a><a href="/ok">fine</a>"#;
    let links = extract_links(html, &base).expect("parses");
    assert_eq!(keys(&links), vec!["http://site.test/ok".to_string()]);
}

#[test]
fn page_without_links_yields_nothing() {
    let base = url("http://site.test/");
    let links = extract_links("plain text, no tags", &base).expect("parses");
    assert!(links.is_empty());
}
