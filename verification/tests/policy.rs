use http_proxy::config::SiteControl;
use http_proxy::policy::check_valid;
use http_proxy::policy::ends_with;
use http_proxy::policy::is_listed;
use http_proxy::policy::AuditKind;

fn list(entries: &[&str]) -> Vec<String> {
    entries.iter().map(|entry| entry.to_string()).collect()
}

#[test]
fn disable_permits_without_audit() {
    let verdict = check_valid(&SiteControl::Disable, "anything.example", 80, "10.0.0.1:5000");
    assert!(verdict.permit);
    assert!(verdict.audit.is_none());
}

#[test]
fn disable_permits_the_empty_host() {
    assert!(check_valid(&SiteControl::Disable, "", 0, "").permit);
}

#[test]
fn allow_permits_a_listed_suffix() {
    let policy = SiteControl::Allow(list(&["example.com", "example.org"]));
    let verdict = check_valid(&policy, "api.example.org", 443, "10.0.0.1:5000");
    assert!(verdict.permit);
    let event = verdict.audit.expect("an allowlist records every decision");
    assert_eq!(event.kind, AuditKind::Accept);
    assert_eq!(event.host, "api.example.org");
    assert_eq!(event.port, 443);
    assert_eq!(event.source, "10.0.0.1:5000");
}

#[test]
fn allow_denies_an_unlisted_host() {
    let policy = SiteControl::Allow(list(&["example.com"]));
    let verdict = check_valid(&policy, "example.net", 80, "10.0.0.2:6000");
    assert!(!verdict.permit);
    let event = verdict.audit.expect("an allowlist records every decision");
    assert_eq!(event.kind, AuditKind::Denied);
    assert_eq!(event.host, "example.net");
    assert_eq!(event.port, 80);
    assert_eq!(event.source, "10.0.0.2:6000");
}

#[test]
fn allow_with_an_empty_list_denies_all() {
    let policy = SiteControl::Allow(Vec::new());
    assert!(!check_valid(&policy, "example.com", 80, "c").permit);
    assert!(!check_valid(&policy, "", 80, "c").permit);
}

#[test]
fn block_denies_a_listed_suffix() {
    let policy = SiteControl::Block(list(&["ads.net"]));
    let verdict = check_valid(&policy, "tracker.ads.net", 443, "10.0.0.3:7000");
    assert!(!verdict.permit);
    let event = verdict.audit.expect("a denylist records every decision");
    assert_eq!(event.kind, AuditKind::Denied);
    assert_eq!(event.host, "tracker.ads.net");
    assert_eq!(event.port, 443);
    assert_eq!(event.source, "10.0.0.3:7000");
}

#[test]
fn block_permits_an_unlisted_host() {
    let policy = SiteControl::Block(list(&["ads.net"]));
    let verdict = check_valid(&policy, "example.com", 80, "10.0.0.3:7000");
    assert!(verdict.permit);
    let event = verdict.audit.expect("a denylist records every decision");
    assert_eq!(event.kind, AuditKind::Accept);
    assert_eq!(event.host, "example.com");
}

#[test]
fn block_with_an_empty_list_permits_all() {
    let policy = SiteControl::Block(Vec::new());
    assert!(check_valid(&policy, "example.com", 80, "c").permit);
}

#[test]
fn allow_and_block_decide_in_opposite_ways() {
    let hosts = ["example.com", "notexample.com", "example.com.evil", "", "com", "a.example.COM"];
    for host in hosts {
        let allowed = check_valid(&SiteControl::Allow(list(&["example.com"])), host, 80, "c").permit;
        let blocked = check_valid(&SiteControl::Block(list(&["example.com"])), host, 80, "c").permit;
        assert_ne!(allowed, blocked, "{}", host);
        assert_eq!(allowed, host.ends_with("example.com"), "{}", host);
    }
}

#[test]
fn suffix_match_knows_no_labels() {
    let policy = SiteControl::Allow(list(&["evil.com"]));
    assert!(check_valid(&policy, "notevil.com", 80, "c").permit);
    let policy = SiteControl::Block(list(&["evil.com"]));
    assert!(!check_valid(&policy, "notevil.com", 80, "c").permit);
}

#[test]
fn suffix_match_is_case_sensitive() {
    let policy = SiteControl::Allow(list(&["example.com"]));
    assert!(!check_valid(&policy, "www.Example.com", 80, "c").permit);
    assert!(!check_valid(&policy, "WWW.EXAMPLE.COM", 80, "c").permit);
}

#[test]
fn suffix_must_stand_at_the_end() {
    let policy = SiteControl::Allow(list(&["example.com"]));
    assert!(!check_valid(&policy, "example.com.attacker.io", 80, "c").permit);
    assert!(!check_valid(&policy, "example.co", 80, "c").permit);
    assert!(check_valid(&policy, "example.com", 80, "c").permit);
}

#[test]
fn an_empty_entry_ends_every_host() {
    let policy = SiteControl::Allow(list(&[""]));
    assert!(check_valid(&policy, "whatever", 80, "c").permit);
    assert!(check_valid(&policy, "", 80, "c").permit);
}

#[test]
fn later_entries_are_tried_too() {
    let entries = list(&["a.com", "b.com", "c.com"]);
    assert!(is_listed("x.c.com", &entries));
    assert!(is_listed("x.a.com", &entries));
    assert!(!is_listed("x.d.com", &entries));
}

#[test]
fn suffix_match_works_on_bytes_of_any_text() {
    let policy = SiteControl::Allow(list(&["é.fr"]));
    assert!(check_valid(&policy, "café.fr", 80, "c").permit);
    assert!(!check_valid(&policy, "cafe.fr", 80, "c").permit);
}

#[test]
fn ends_with_compares_bytes() {
    assert!(ends_with(b"hello", b"llo"));
    assert!(ends_with(b"hello", b""));
    assert!(ends_with(b"hello", b"hello"));
    assert!(!ends_with(b"hello", b"xhello"));
    assert!(!ends_with(b"hello", b"hell"));
    assert!(!ends_with(b"", b"a"));
    assert!(ends_with(b"", b""));
}
