use meritbadge::registry::{
    lookup, lookup_request, reads_body, Fault, LookupResult, Upstream,
};

fn reply(status: u16, max_version: Option<&str>) -> Upstream {
    Upstream::Reply { status, max_version: max_version.map(|version| version.to_string()) }
}

#[test]
fn lookup_request_for_package() {
    let request = lookup_request("serde");
    assert_eq!(request.url, "https://crates.io/api/v1/crates/serde");
    assert_eq!(request.user_agent, "meritbadge/0.1");
    assert_eq!(request.timeout_secs, 10);
}

#[test]
fn lookup_request_takes_name_verbatim() {
    assert_eq!(lookup_request("a%20b").url, "https://crates.io/api/v1/crates/a%20b");
    assert_eq!(lookup_request("").url, "https://crates.io/api/v1/crates/");
    assert_eq!(
        lookup_request("r\u{e9}sum\u{e9}").url,
        "https://crates.io/api/v1/crates/r\u{e9}sum\u{e9}"
    );
}

#[test]
fn lookup_reads_body_of_200_only() {
    assert!(reads_body(200));
    for status in [0, 100, 199, 201, 204, 301, 302, 404, 500, 65535] {
        assert!(!reads_body(status));
    }
}

#[test]
fn lookup_found() {
    assert_eq!(lookup(reply(200, Some("0.1.9"))), LookupResult::Found("0.1.9".to_string()));
    assert_eq!(lookup(reply(200, Some(""))), LookupResult::Found(String::new()));
}

#[test]
fn lookup_malformed_body() {
    assert_eq!(lookup(reply(200, None)), LookupResult::TransportError(Fault::Malformed));
}

#[test]
fn lookup_not_found() {
    assert_eq!(lookup(reply(404, None)), LookupResult::NotFound);
    assert_eq!(lookup(reply(404, Some("1.0.0"))), LookupResult::NotFound);
}

#[test]
fn lookup_other_status() {
    for status in [100, 201, 204, 301, 302, 400, 403, 429, 500, 502, 503] {
        assert_eq!(
            lookup(reply(status, None)),
            LookupResult::TransportError(Fault::Status(status))
        );
        assert_eq!(
            lookup(reply(status, Some("1.0.0"))),
            LookupResult::TransportError(Fault::Status(status))
        );
    }
}

#[test]
fn lookup_without_reply() {
    assert_eq!(lookup(Upstream::Unreachable), LookupResult::TransportError(Fault::Unreachable));
    assert_eq!(lookup(Upstream::TimedOut), LookupResult::TransportError(Fault::TimedOut));
}

#[test]
fn lookup_keeps_missing_and_failed_apart() {
    let missing = lookup(reply(404, None));
    for failed in [
        lookup(reply(500, None)),
        lookup(reply(200, None)),
        lookup(Upstream::Unreachable),
        lookup(Upstream::TimedOut),
    ] {
        assert_ne!(failed, missing);
    }
}
