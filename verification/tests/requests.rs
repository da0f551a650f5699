use cloudflare_ddns::headers::{auth_headers, credential_sendable, RequestError};
use cloudflare_ddns::report::{StatusLine, Status, Stream, UpdateOutcome};
use cloudflare_ddns::request::{discovery_url, record_url, records_url};

#[test]
fn the_discovery_address() {
    assert_eq!(discovery_url(), "https://httpbin.org/ip");
}

#[test]
fn the_address_of_a_zone_listing() {
    assert_eq!(
        records_url("Z"),
        "https://api.cloudflare.com/client/v4/zones/Z/dns_records"
    );
    assert_eq!(
        records_url(""),
        "https://api.cloudflare.com/client/v4/zones//dns_records"
    );
}

#[test]
fn the_address_of_a_record() {
    assert_eq!(
        record_url("Z", "r1"),
        "https://api.cloudflare.com/client/v4/zones/Z/dns_records/r1"
    );
}

#[test]
fn authenticated_requests_carry_two_fields() {
    let headers = auth_headers("k").unwrap();
    assert_eq!(headers.len(), 2);
    assert_eq!(headers.keys_len(), 2);
    assert_eq!(
        headers.get("content-type").unwrap().as_bytes(),
        "application/json".as_bytes()
    );
    assert_eq!(
        headers.get("authorization").unwrap().as_bytes(),
        "Bearer k".as_bytes()
    );
    assert_eq!(headers.get_all("authorization").iter().count(), 1);
    assert_eq!(headers.get_all("content-type").iter().count(), 1);
}

#[test]
fn the_credential_is_sent_octet_for_octet() {
    let headers = auth_headers("s\u{e9}cret\ttoken ~").unwrap();
    assert_eq!(
        headers.get("authorization").unwrap().as_bytes(),
        "Bearer s\u{e9}cret\ttoken ~".as_bytes()
    );
    let empty = auth_headers("").unwrap();
    assert_eq!(empty.get("authorization").unwrap().as_bytes(), "Bearer ".as_bytes());
}

#[test]
fn a_credential_with_a_control_character_is_refused() {
    assert_eq!(auth_headers("bad\nkey").unwrap_err(), RequestError::Credential);
    assert_eq!(auth_headers("bad\u{7f}key").unwrap_err(), RequestError::Credential);
    assert_eq!(auth_headers("\u{0}").unwrap_err(), RequestError::Credential);
    assert!(auth_headers("tab\tis fine").is_ok());
}

#[test]
fn credential_sendable_agrees_with_auth_headers() {
    for key in ["", "k", "bad\nkey", "a\rb", "\u{1f}", " ", "~", "\u{7f}", "\u{80}", "\u{fffd}", "\t"] {
        assert_eq!(credential_sendable(key), auth_headers(key).is_ok());
    }
    assert!(credential_sendable("abc123"));
    assert!(!credential_sendable("abc\u{1}"));
}

#[test]
fn the_line_of_the_public_address() {
    let line = StatusLine::public_ip("192.168.1.1");
    assert_eq!(line.stream, Stream::Stdout);
    assert_eq!(line.text, "Public IP: 192.168.1.1");
}

#[test]
fn the_line_of_a_zone_listing() {
    let line = StatusLine::listing("Z");
    assert_eq!(line.stream, Stream::Stdout);
    assert_eq!(line.text, "Getting records for zone Z");
}

#[test]
fn the_line_of_an_error() {
    let line = StatusLine::error("timed out");
    assert_eq!(line.stream, Stream::Stderr);
    assert_eq!(line.text, "error: timed out");
}

#[test]
fn the_line_of_an_up_to_date_record() {
    let outcome = UpdateOutcome::up_to_date("bar");
    assert_eq!(outcome.record_name, "bar");
    assert_eq!(outcome.status, Status::UpToDate);
    assert_eq!(outcome.detail, None);
    let line = StatusLine::outcome(&outcome);
    assert_eq!(line.stream, Stream::Stdout);
    assert_eq!(line.text, "Record bar is up to date");
}

#[test]
fn the_line_of_an_updated_record() {
    let outcome = UpdateOutcome::of_write("bar", Ok(()));
    assert_eq!(outcome.record_name, "bar");
    assert_eq!(outcome.status, Status::Updated);
    assert_eq!(outcome.detail, None);
    let line = StatusLine::outcome(&outcome);
    assert_eq!(line.stream, Stream::Stdout);
    assert_eq!(line.text, "Successfully updated record bar");
}

#[test]
fn the_line_of_a_failed_record() {
    let outcome = UpdateOutcome::of_write("bar", Err(String::from("connection reset")));
    assert_eq!(outcome.record_name, "bar");
    assert_eq!(outcome.status, Status::Failed);
    assert_eq!(outcome.detail, Some(String::from("connection reset")));
    let line = StatusLine::outcome(&outcome);
    assert_eq!(line.stream, Stream::Stderr);
    assert_eq!(line.text, "Failed to update record bar: connection reset");
}

#[test]
fn the_line_of_a_failure_without_a_cause() {
    let outcome = UpdateOutcome {
        record_name: String::from("bar"),
        status: Status::Failed,
        detail: None,
    };
    assert_eq!(StatusLine::outcome(&outcome).text, "Failed to update record bar: ");
}
