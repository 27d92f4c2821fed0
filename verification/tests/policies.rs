//! Who may open the agent's socket.

use citadel_internal_service::connector::host_policy::HostPolicy;
use citadel_internal_service::connector::origin_policy::OriginPolicy;

#[test]
fn any_permits_everything_including_no_header() {
    assert!(HostPolicy::Any.permits(Some("evil.example:1")));
    assert!(HostPolicy::Any.permits(None));
}

#[test]
fn loopback_permits_the_three_loopback_names_on_the_exact_port() {
    let p = HostPolicy::loopback(12345, None);
    for h in [
        "127.0.0.1:12345",
        "localhost:12345",
        "[::1]:12345",
        "LOCALHOST:12345",
    ] {
        assert!(p.permits(Some(h)), "{h}");
    }
}

#[test]
fn loopback_refuses_other_ports_missing_ports_other_names_and_no_header() {
    let p = HostPolicy::loopback(12345, None);
    for h in [
        "127.0.0.1:12346",
        "127.0.0.1",
        "localhost",
        "evil.example:12345",
        "[::1]",
        "127.0.0.1:x",
    ] {
        assert!(!p.permits(Some(h)), "{h}");
    }
    assert!(!p.permits(None));
}

#[test]
fn the_published_name_is_permitted_and_only_that_name() {
    let p = HostPolicy::loopback(12345, Some("Local.Example.com"));
    assert!(p.permits(Some("local.example.com:12345")));
    assert!(p.permits(Some("LOCAL.example.COM:12345")));
    assert!(!p.permits(Some("local.example.com:12346")));
    assert!(!p.permits(Some("local.example.com")));
    assert!(!p.permits(Some("evil.example.com:12345")));
    assert!(!p.permits(Some("xlocal.example.com:12345")));
}

#[test]
fn an_empty_published_name_is_no_name() {
    assert_eq!(
        HostPolicy::loopback(1, Some("  ")),
        HostPolicy::loopback(1, None)
    );
}

#[test]
fn ports_are_read_as_numbers() {
    let p = HostPolicy::loopback(80, None);
    assert!(p.permits(Some("localhost:080")));
    assert!(p.permits(Some("localhost:+80")));
    assert!(!p.permits(Some("localhost:")));
    assert!(!p.permits(Some("localhost:65616")));
    assert!(!p.permits(Some("localhost:-80")));
    assert!(!p.permits(Some("[::1:80")));
    assert!(!p.permits(Some("[::1]80")));
    assert!(p.permits(Some("\u{3000} LocalHost:80\t")));
}

fn allow(spec: &str) -> OriginPolicy {
    OriginPolicy::parse(spec).expect("valid spec")
}

#[test]
fn a_listed_origin_is_admitted() {
    assert!(allow("http://localhost:5291").permits(Some("http://localhost:5291")));
}

#[test]
fn an_unlisted_origin_is_refused() {
    assert!(!allow("http://localhost:5291").permits(Some("https://evil.example")));
}

#[test]
fn the_comparison_is_exact() {
    let policy = allow("http://localhost:5291");
    // A subdomain-ish prefix, a port change, and a scheme change are three different origins.
    assert!(!policy.permits(Some("http://localhost:5291.evil.example")));
    assert!(!policy.permits(Some("http://localhost:5292")));
    assert!(!policy.permits(Some("https://localhost:5291")));
}

#[test]
fn several_origins_may_be_listed() {
    let policy = allow("http://localhost:5291, http://127.0.0.1:5291");
    assert!(policy.permits(Some("http://localhost:5291")));
    assert!(policy.permits(Some("http://127.0.0.1:5291")));
    assert!(!policy.permits(Some("http://localhost:4173")));
}

#[test]
fn a_handshake_with_no_origin_is_not_policed() {
    assert!(allow("http://localhost:5291").permits(None));
}

#[test]
fn the_wildcard_admits_everything_including_no_origin() {
    assert_eq!(OriginPolicy::parse("*"), Ok(OriginPolicy::Any));
    assert!(OriginPolicy::Any.permits(Some("https://evil.example")));
    assert!(OriginPolicy::Any.permits(None));
}

#[test]
fn an_empty_specification_is_an_error_not_an_empty_allowlist() {
    // An empty allowlist would refuse the UI while looking configured.
    assert!(OriginPolicy::parse("").is_err());
    assert!(OriginPolicy::parse("  , ,").is_err());
}

#[test]
fn the_wildcard_cannot_hide_inside_a_list() {
    let error = OriginPolicy::parse("http://localhost:5291,*").unwrap_err();
    assert!(
        error.contains('*'),
        "the message should name the problem: {error}"
    );
}

#[test]
fn a_trailing_slash_is_rejected_at_parse_time() {
    let error = OriginPolicy::parse("http://localhost:5291/").unwrap_err();
    assert!(error.contains("trailing slash"), "{error}");
}

#[test]
fn a_bare_host_is_rejected_at_parse_time() {
    let error = OriginPolicy::parse("localhost:5291").unwrap_err();
    assert!(error.contains("scheme"), "{error}");
}

#[test]
fn the_first_bad_origin_is_named() {
    assert_eq!(
        OriginPolicy::parse("http://a, http://b/ ,c,http://d/").unwrap_err(),
        "origin `http://b/` has a trailing slash; browsers send no path component"
    );
    assert_eq!(
        OriginPolicy::parse("https://a,ftp://b").unwrap_err(),
        "origin `ftp://b` has no scheme; an Origin header is always scheme://host[:port]"
    );
    assert_eq!(
        OriginPolicy::parse(" ,").unwrap_err(),
        "no origins given: pass an explicit list, or `*` to accept any origin"
    );
    assert_eq!(
        OriginPolicy::parse("*,*").unwrap_err(),
        "`*` cannot be combined with specific origins: it already allows them"
    );
    assert_eq!(
        OriginPolicy::parse(" https://a ,http://b"),
        Ok(OriginPolicy::Allow(vec![
            "https://a".to_string(),
            "http://b".to_string()
        ]))
    );
}

#[test]
fn the_published_name_is_compared_without_its_case() {
    let policy = HostPolicy::Loopback {
        port: 12345,
        name: Some("Local.Example.com".to_string()),
    };
    assert!(policy.permits(Some("local.example.com:12345")));
    assert!(policy.permits(Some("LOCAL.example.COM:12345")));
    assert!(!policy.permits(Some("local.example.com:12346")));
    assert!(!policy.permits(Some("other.example.com:12345")));
}
