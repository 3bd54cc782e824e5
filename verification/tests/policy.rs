use site_mirror::ContentClass;
use site_mirror::Origin;
use site_mirror::Url;
use site_mirror::VisitedSet;
use site_mirror::classify;
use site_mirror::has_prefix;
use site_mirror::same_origin;

fn url(s: &str) -> Url {
    Url::parse(s).expect("absolute URL")
}

fn origin(scheme: &str, host: &str) -> Origin {
    Origin { scheme: scheme.to_string(), host: host.to_string() }
}

#[test]
fn same_origin_accepts_same_scheme_and_host() {
    let o = origin("http", "site.test");
    assert!(same_origin(&url("http://site.test/a?q=1"), &o));
}

#[test]
fn same_origin_rejects_other_host() {
    let o = origin("http", "site.test");
    assert!(!same_origin(&url("http://other.test/a"), &o));
}

#[test]
fn same_origin_rejects_other_scheme() {
    let o = origin("http", "site.test");
    assert!(!same_origin(&url("https://site.test/a"), &o));
}

#[test]
fn same_origin_rejects_hostless_url() {
    let o = origin("mailto", "site.test");
    let u = Url::new("mailto".to_string(), None, "user@site.test".to_string(), None);
    assert!(!same_origin(&u, &o));
}

#[test]
fn try_claim_succeeds_once_per_key() {
    let mut v = VisitedSet::new();
    assert_eq!(v.len(), 0);
    let k = "http://site.test/".to_string();
    assert!(!v.contains(&k));
    assert!(v.try_claim(&k));
    assert!(v.contains(&k));
    assert!(!v.try_claim(&k));
    assert_eq!(v.len(), 1);
    let k2 = "http://site.test/a".to_string();
    assert!(v.try_claim(&k2));
    assert_eq!(v.len(), 2);
}

#[test]
fn classify_html_by_prefix() {
    let html = "text/html".to_string();
    let with_charset = "text/html; charset=utf-8".to_string();
    assert_eq!(classify(Some(&html)), ContentClass::Html);
    assert_eq!(classify(Some(&with_charset)), ContentClass::Html);
}

#[test]
fn classify_other_kinds_unsupported() {
    let png = "image/png".to_string();
    let plain = "text/plain".to_string();
    assert_eq!(classify(Some(&png)), ContentClass::Unsupported);
    assert_eq!(classify(Some(&plain)), ContentClass::Unsupported);
}

#[test]
fn classify_missing_kind() {
    assert_eq!(classify(None), ContentClass::Missing);
}

#[test]
fn prefix_test_is_exact() {
    assert!(has_prefix("text/html; charset=utf-8", "text/html"));
    assert!(has_prefix("abc", ""));
    assert!(has_prefix("abc", "abc"));
    assert!(!has_prefix("text/htm", "text/html"));
    assert!(!has_prefix("atext/html", "text/html"));
}
