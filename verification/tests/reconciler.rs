use cloudflare_ddns::config::{Config, ZoneConfig, ZoneTable};
use cloudflare_ddns::headers::RequestError;
use cloudflare_ddns::reconciler::{Action, Event, Phase, Reconciler, Step};
use cloudflare_ddns::record::{CfResponse, Record};
use cloudflare_ddns::report::{Status, Stream, UpdateOutcome};

fn zone(zone_id: &str, records: &[&str]) -> ZoneConfig {
    ZoneConfig {
        zone_id: String::from(zone_id),
        records: records.iter().map(|name| String::from(*name)).collect(),
    }
}

fn config_of(key: &str, zones: Vec<(&str, ZoneConfig)>) -> Config {
    let mut table = ZoneTable::new();
    for (label, zone) in zones {
        table.insert(String::from(label), zone);
    }
    Config {
        cf_api_key: String::from(key),
        records_to_update: table,
    }
}

fn listed(records: Vec<Record>) -> Event {
    Event::Listed(Ok(CfResponse {
        success: true,
        errors: vec![],
        result: records,
    }))
}

fn address(ip: &str) -> Event {
    Event::Address(Ok(String::from(ip)))
}

fn texts(step: &Step) -> Vec<(Stream, String)> {
    step.lines.iter().map(|line| (line.stream, line.text.clone())).collect()
}

fn out(text: &str) -> (Stream, String) {
    (Stream::Stdout, String::from(text))
}

fn err(text: &str) -> (Stream, String) {
    (Stream::Stderr, String::from(text))
}

fn assert_list(action: &Action, zone_id: &str, key: &str) {
    match action {
        Action::List { url, headers } => {
            assert_eq!(
                *url,
                format!("https://api.cloudflare.com/client/v4/zones/{}/dns_records", zone_id)
            );
            assert_eq!(
                headers.get("authorization").unwrap().as_bytes(),
                format!("Bearer {}", key).as_bytes()
            );
            assert_eq!(
                headers.get("content-type").unwrap().as_bytes(),
                "application/json".as_bytes()
            );
            assert_eq!(headers.len(), 2);
        }
        other => panic!("expected a listing, got {:?}", other),
    }
}

fn assert_put(action: &Action, expected_url: &str, expected_body: &Record, key: &str) {
    match action {
        Action::Put { url, headers, body } => {
            assert_eq!(url, expected_url);
            assert_eq!(body, expected_body);
            assert_eq!(
                headers.get("authorization").unwrap().as_bytes(),
                format!("Bearer {}", key).as_bytes()
            );
            assert_eq!(
                headers.get("content-type").unwrap().as_bytes(),
                "application/json".as_bytes()
            );
            assert_eq!(headers.len(), 2);
        }
        other => panic!("expected a rewrite, got {:?}", other),
    }
}

fn assert_finish(action: &Action, expected: bool) {
    match action {
        Action::Finish { success } => assert_eq!(*success, expected),
        other => panic!("expected the end, got {:?}", other),
    }
}

#[test]
fn a_run_starts_by_discovering_the_address() {
    let run = Reconciler::new(config_of("k", vec![("l", zone("Z", &["bar"]))])).unwrap();
    assert_eq!(run.phase(), Phase::Discovering);
    assert!(!run.is_over());
    assert_eq!(run.desired_ip(), "");
    assert!(run.outcomes().is_empty());
    match run.pending() {
        Action::Discover { url } => assert_eq!(url, "https://httpbin.org/ip"),
        other => panic!("expected discovery, got {:?}", other),
    }
}

#[test]
fn a_run_cannot_start_with_a_credential_that_cannot_be_sent() {
    let made = Reconciler::new(config_of("bad\nkey", vec![("l", zone("Z", &["bar"]))]));
    assert_eq!(made.err(), Some(RequestError::Credential));
}

#[test]
fn a_failed_discovery_aborts_the_run() {
    let mut run = Reconciler::new(config_of("k", vec![("l", zone("Z", &["bar"]))])).unwrap();
    let step = run.step(Event::Address(Err(String::from("no route"))));
    assert_eq!(texts(&step), vec![err("error: no route")]);
    assert_finish(&step.action, false);
    assert_eq!(run.phase(), Phase::Aborted);
    assert!(run.is_over());
    assert!(run.outcomes().is_empty());
    let later = run.step(listed(vec![Record::new("1", "Z", "bar", "A", "1.1.1.1")]));
    assert!(later.lines.is_empty());
    assert_finish(&later.action, false);
    assert!(run.outcomes().is_empty());
}

#[test]
fn the_discovered_address_is_announced_and_the_first_zone_listed() {
    let mut run = Reconciler::new(config_of("k", vec![("l", zone("Z", &["bar"]))])).unwrap();
    let step = run.step(address("192.168.1.1"));
    assert_eq!(
        texts(&step),
        vec![out("Public IP: 192.168.1.1"), out("Getting records for zone Z")]
    );
    assert_list(&step.action, "Z", "k");
    assert_eq!(run.phase(), Phase::Listing);
    assert_eq!(run.desired_ip(), "192.168.1.1");
}

#[test]
fn a_run_without_zones_finishes_after_discovery() {
    let mut run = Reconciler::new(config_of("k", vec![])).unwrap();
    let step = run.step(address("192.168.1.1"));
    assert_eq!(texts(&step), vec![out("Public IP: 192.168.1.1")]);
    assert_finish(&step.action, true);
    assert_eq!(run.phase(), Phase::Finished);
    assert!(run.is_over());
    assert!(run.outcomes().is_empty());
}

#[test]
fn an_eligible_record_is_rewritten_once() {
    let mut run = Reconciler::new(config_of("k", vec![("l", zone("Z", &["bar"]))])).unwrap();
    run.step(address("192.168.1.1"));
    let step = run.step(listed(vec![Record::new("r1", "Z", "bar", "A", "10.0.0.1")]));
    assert!(step.lines.is_empty());
    assert_put(
        &step.action,
        "https://api.cloudflare.com/client/v4/zones/Z/dns_records/r1",
        &Record::new("r1", "Z", "bar", "A", "192.168.1.1"),
        "k",
    );
    assert_eq!(run.phase(), Phase::Updating);
    assert!(run.outcomes().is_empty());
    let done = run.step(Event::Written(Ok(())));
    assert_eq!(texts(&done), vec![out("Successfully updated record bar")]);
    assert_finish(&done.action, true);
    assert_eq!(run.phase(), Phase::Finished);
    assert_eq!(
        *run.outcomes(),
        vec![UpdateOutcome {
            record_name: String::from("bar"),
            status: Status::Updated,
            detail: None,
        }]
    );
}

#[test]
fn an_up_to_date_record_is_reported_once_and_not_rewritten() {
    let mut run = Reconciler::new(config_of("k", vec![("l", zone("Z", &["bar"]))])).unwrap();
    run.step(address("192.168.1.1"));
    let step = run.step(listed(vec![Record::new("r1", "Z", "bar", "A", "192.168.1.1")]));
    assert_eq!(texts(&step), vec![out("Record bar is up to date")]);
    assert_finish(&step.action, true);
    assert_eq!(
        *run.outcomes(),
        vec![UpdateOutcome {
            record_name: String::from("bar"),
            status: Status::UpToDate,
            detail: None,
        }]
    );
}

#[test]
fn records_that_are_not_managed_leave_no_trace() {
    let mut run = Reconciler::new(config_of("k", vec![("l", zone("Z", &["bar"]))])).unwrap();
    run.step(address("192.168.1.1"));
    let step = run.step(listed(vec![
        Record::new("1", "Z", "bar", "CNAME", "10.0.0.1"),
        Record::new("2", "OTHER", "bar", "A", "10.0.0.1"),
        Record::new("3", "Z", "foo", "A", "10.0.0.1"),
    ]));
    assert!(step.lines.is_empty());
    assert_finish(&step.action, true);
    assert!(run.outcomes().is_empty());
}

#[test]
fn a_failed_listing_does_not_stop_the_other_zones() {
    let config = config_of(
        "k",
        vec![("first", zone("Z1", &["foo"])), ("second", zone("Z2", &["bar"]))],
    );
    let mut run = Reconciler::new(config).unwrap();
    let begun = run.step(address("192.168.1.1"));
    assert_list(&begun.action, "Z1", "k");
    let failed = run.step(Event::Listed(Err(String::from("503"))));
    assert_eq!(
        texts(&failed),
        vec![err("error: 503"), out("Getting records for zone Z2")]
    );
    assert_list(&failed.action, "Z2", "k");
    assert!(run.outcomes().is_empty());
    let second = run.step(listed(vec![Record::new("r2", "Z2", "bar", "A", "10.0.0.1")]));
    assert!(second.lines.is_empty());
    assert_put(
        &second.action,
        "https://api.cloudflare.com/client/v4/zones/Z2/dns_records/r2",
        &Record::new("r2", "Z2", "bar", "A", "192.168.1.1"),
        "k",
    );
    let done = run.step(Event::Written(Ok(())));
    assert_eq!(texts(&done), vec![out("Successfully updated record bar")]);
    assert_finish(&done.action, true);
    assert_eq!(run.outcomes().len(), 1);
    assert_eq!(run.outcomes()[0].status, Status::Updated);
}

fn outcomes_of_second_zone(first: Event) -> Vec<UpdateOutcome> {
    let config = config_of(
        "k",
        vec![("first", zone("Z1", &["foo"])), ("second", zone("Z2", &["bar", "baz"]))],
    );
    let mut run = Reconciler::new(config).unwrap();
    run.step(address("9.9.9.9"));
    let before = run.step(first);
    assert_list(&before.action, "Z2", "k");
    let skip = run.outcomes().len();
    run.step(listed(vec![
        Record::new("1", "Z2", "bar", "A", "1.1.1.1"),
        Record::new("2", "Z2", "baz", "A", "9.9.9.9"),
    ]));
    let done = run.step(Event::Written(Err(String::from("reset"))));
    assert_finish(&done.action, true);
    let mut outcomes = Vec::new();
    for outcome in run.outcomes().iter().skip(skip) {
        outcomes.push(UpdateOutcome {
            record_name: outcome.record_name.clone(),
            status: outcome.status,
            detail: outcome.detail.clone(),
        });
    }
    outcomes
}

#[test]
fn the_outcomes_of_a_zone_do_not_depend_on_the_zone_before() {
    let after_failure = outcomes_of_second_zone(Event::Listed(Err(String::from("503"))));
    let after_empty = outcomes_of_second_zone(listed(vec![]));
    let after_current =
        outcomes_of_second_zone(listed(vec![Record::new("0", "Z1", "foo", "A", "9.9.9.9")]));
    let expected = vec![
        UpdateOutcome {
            record_name: String::from("baz"),
            status: Status::UpToDate,
            detail: None,
        },
        UpdateOutcome {
            record_name: String::from("bar"),
            status: Status::Failed,
            detail: Some(String::from("reset")),
        },
    ];
    assert_eq!(after_failure, expected);
    assert_eq!(after_empty, expected);
    assert_eq!(after_current, expected);
}

#[test]
fn a_failed_rewrite_is_reported_and_the_run_goes_on() {
    let config = config_of("k", vec![("l", zone("Z", &["a", "b"]))]);
    let mut run = Reconciler::new(config).unwrap();
    run.step(address("9.9.9.9"));
    let step = run.step(listed(vec![
        Record::new("1", "Z", "a", "A", "1.1.1.1"),
        Record::new("2", "Z", "b", "A", "2.2.2.2"),
    ]));
    assert_put(
        &step.action,
        "https://api.cloudflare.com/client/v4/zones/Z/dns_records/1",
        &Record::new("1", "Z", "a", "A", "9.9.9.9"),
        "k",
    );
    let first = run.step(Event::Written(Err(String::from("connection reset"))));
    assert_eq!(
        texts(&first),
        vec![err("Failed to update record a: connection reset")]
    );
    assert_put(
        &first.action,
        "https://api.cloudflare.com/client/v4/zones/Z/dns_records/2",
        &Record::new("2", "Z", "b", "A", "9.9.9.9"),
        "k",
    );
    let second = run.step(Event::Written(Ok(())));
    assert_eq!(texts(&second), vec![out("Successfully updated record b")]);
    assert_finish(&second.action, true);
    assert_eq!(
        *run.outcomes(),
        vec![
            UpdateOutcome {
                record_name: String::from("a"),
                status: Status::Failed,
                detail: Some(String::from("connection reset")),
            },
            UpdateOutcome {
                record_name: String::from("b"),
                status: Status::Updated,
                detail: None,
            },
        ]
    );
}

#[test]
fn each_managed_record_has_one_outcome() {
    let config = config_of(
        "k",
        vec![("one", zone("Z1", &["a", "b", "c"])), ("two", zone("Z2", &["d"]))],
    );
    let mut run = Reconciler::new(config).unwrap();
    run.step(address("9.9.9.9"));
    let step = run.step(listed(vec![
        Record::new("1", "Z1", "a", "A", "1.1.1.1"),
        Record::new("2", "Z1", "b", "A", "9.9.9.9"),
        Record::new("3", "Z1", "c", "A", "3.3.3.3"),
    ]));
    assert_eq!(texts(&step), vec![out("Record b is up to date")]);
    run.step(Event::Written(Ok(())));
    let next = run.step(Event::Written(Ok(())));
    assert_eq!(
        texts(&next),
        vec![out("Successfully updated record c"), out("Getting records for zone Z2")]
    );
    assert_list(&next.action, "Z2", "k");
    let last = run.step(listed(vec![Record::new("4", "Z2", "d", "A", "9.9.9.9")]));
    assert_finish(&last.action, true);
    let names: Vec<&str> = run.outcomes().iter().map(|o| o.record_name.as_str()).collect();
    assert_eq!(names, vec!["b", "a", "c", "d"]);
    assert_eq!(run.outcomes().len(), 4);
}

#[test]
fn the_body_of_a_rewrite_keeps_every_field_but_the_content() {
    let config = config_of("k", vec![("l", zone("Z", &["host.example.com"]))]);
    let mut run = Reconciler::new(config).unwrap();
    run.step(address("203.0.113.7"));
    let listed_record = Record::new("abc123", "Z", "host.example.com", "A", "198.51.100.1");
    let step = run.step(listed(vec![listed_record.clone()]));
    match step.action {
        Action::Put { body, .. } => {
            assert_eq!(body.id, listed_record.id);
            assert_eq!(body.zone_id, listed_record.zone_id);
            assert_eq!(body.name, listed_record.name);
            assert_eq!(body.kind, listed_record.kind);
            assert_eq!(body.content, "203.0.113.7");
        }
        other => panic!("expected a rewrite, got {:?}", other),
    }
}

#[test]
fn an_event_that_answers_nothing_changes_nothing() {
    let config = config_of("k", vec![("l", zone("Z", &["bar"]))]);
    let mut run = Reconciler::new(config).unwrap();
    let early = run.step(Event::Written(Ok(())));
    assert!(early.lines.is_empty());
    assert_eq!(run.phase(), Phase::Discovering);
    match early.action {
        Action::Discover { url } => assert_eq!(url, "https://httpbin.org/ip"),
        other => panic!("expected discovery, got {:?}", other),
    }
    run.step(address("9.9.9.9"));
    let twice = run.step(address("8.8.8.8"));
    assert!(twice.lines.is_empty());
    assert_list(&twice.action, "Z", "k");
    assert_eq!(run.desired_ip(), "9.9.9.9");
    run.step(listed(vec![Record::new("1", "Z", "bar", "A", "1.1.1.1")]));
    let stray = run.step(listed(vec![Record::new("2", "Z", "bar", "A", "2.2.2.2")]));
    assert!(stray.lines.is_empty());
    assert_put(
        &stray.action,
        "https://api.cloudflare.com/client/v4/zones/Z/dns_records/1",
        &Record::new("1", "Z", "bar", "A", "9.9.9.9"),
        "k",
    );
    assert!(run.outcomes().is_empty());
    let done = run.step(Event::Written(Ok(())));
    assert_finish(&done.action, true);
    let after = run.step(Event::Written(Ok(())));
    assert!(after.lines.is_empty());
    assert_finish(&after.action, true);
    assert_eq!(run.outcomes().len(), 1);
}

#[test]
fn a_listing_is_taken_whatever_its_envelope_says() {
    let config = config_of("k", vec![("l", zone("Z", &["bar"]))]);
    let mut run = Reconciler::new(config).unwrap();
    run.step(address("9.9.9.9"));
    let step = run.step(Event::Listed(Ok(CfResponse {
        success: false,
        errors: vec![String::from("denied")],
        result: vec![Record::new("1", "Z", "bar", "A", "1.1.1.1")],
    })));
    assert_put(
        &step.action,
        "https://api.cloudflare.com/client/v4/zones/Z/dns_records/1",
        &Record::new("1", "Z", "bar", "A", "9.9.9.9"),
        "k",
    );
}

#[test]
fn a_second_run_finds_the_rewritten_records_up_to_date() {
    let make = || config_of("k", vec![("l", zone("Z", &["a", "b"]))]);
    let mut first = Reconciler::new(make()).unwrap();
    first.step(address("9.9.9.9"));
    let mut provider = vec![
        Record::new("1", "Z", "a", "A", "1.1.1.1"),
        Record::new("2", "Z", "b", "A", "9.9.9.9"),
        Record::new("3", "Z", "c", "A", "1.1.1.1"),
    ];
    let mut step = first.step(listed(provider.clone()));
    loop {
        match step.action {
            Action::Put { body, .. } => {
                for held in provider.iter_mut() {
                    if held.id == body.id {
                        *held = body.clone();
                    }
                }
                step = first.step(Event::Written(Ok(())));
            }
            Action::Finish { success } => {
                assert!(success);
                break;
            }
            other => panic!("did not expect {:?}", other),
        }
    }
    assert_eq!(provider[0], Record::new("1", "Z", "a", "A", "9.9.9.9"));
    assert_eq!(provider[2], Record::new("3", "Z", "c", "A", "1.1.1.1"));
    let mut second = Reconciler::new(make()).unwrap();
    second.step(address("9.9.9.9"));
    let again = second.step(listed(provider));
    assert_eq!(
        texts(&again),
        vec![out("Record a is up to date"), out("Record b is up to date")]
    );
    assert_finish(&again.action, true);
    assert!(second.outcomes().iter().all(|o| o.status == Status::UpToDate));
    assert_eq!(second.outcomes().len(), 2);
}

#[test]
fn the_credential_stands_in_no_line() {
    let config = config_of("sesame", vec![("l", zone("Z", &["bar"]))]);
    let mut run = Reconciler::new(config).unwrap();
    let mut lines = Vec::new();
    lines.extend(texts(&run.step(address("9.9.9.9"))));
    lines.extend(texts(&run.step(listed(vec![Record::new("1", "Z", "bar", "A", "1.1.1.1")]))));
    lines.extend(texts(&run.step(Event::Written(Err(String::from("reset"))))));
    assert_eq!(lines.len(), 3);
    assert!(lines.iter().all(|(_, text)| !text.contains("sesame")));
    assert_eq!(run.config().cf_api_key, "sesame");
}
