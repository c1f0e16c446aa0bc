use route53_dyndns::reconciler::{
    classify_status, elapsed_between, find_target, upsert_request, Action, ChangeStatus,
    ErrorKind, Event, Phase, Reconciler, RecordSet, POLL_BUDGET_MS, RECORD_TTL,
};
use route53_dyndns::text::{normalize_dns_name, strip_prefix_repeated};

fn a_record(name: &str, values: Option<Vec<&str>>) -> RecordSet {
    RecordSet {
        name: name.to_string(),
        record_type: "A".to_string(),
        values: values.map(|vs| vs.into_iter().map(|v| v.to_string()).collect()),
    }
}

fn record(name: &str, record_type: &str, value: &str) -> RecordSet {
    RecordSet {
        name: name.to_string(),
        record_type: record_type.to_string(),
        values: Some(vec![value.to_string()]),
    }
}

/// Drives a cycle for `example.com` up to the record listing.
fn at_records(ip: &str) -> Reconciler {
    let mut r = Reconciler::new("example.com");
    match r.step(Event::IpResolved { ip: ip.to_string() }) {
        Action::ListZones { dns_name } => assert_eq!(dns_name, "example.com."),
        other => panic!("unexpected action {:?}", other),
    }
    let zones = Event::ZonesListed {
        truncated: false,
        zone_ids: vec!["/hostedzone/Z123".to_string()],
    };
    match r.step(zones) {
        Action::ListRecords { hosted_zone_id } => assert_eq!(hosted_zone_id, "Z123"),
        other => panic!("unexpected action {:?}", other),
    }
    r
}

/// Drives a cycle up to the submission of a change from 198.51.100.1 to 203.0.113.7.
fn at_submission() -> Reconciler {
    let mut r = at_records("203.0.113.7");
    let sets = vec![a_record("example.com.", Some(vec!["198.51.100.1"]))];
    match r.step(Event::RecordsListed { truncated: false, record_sets: sets }) {
        Action::Submit { .. } => {},
        other => panic!("unexpected action {:?}", other),
    }
    r
}

fn outcome(a: Action) -> Result<bool, ErrorKind> {
    match a {
        Action::Finish { outcome } => outcome,
        other => panic!("expected the end of the cycle, got {:?}", other),
    }
}

#[test]
fn normalize_adds_trailing_dot() {
    assert_eq!(normalize_dns_name("example.com"), "example.com.");
    assert_eq!(normalize_dns_name("example.com."), "example.com.");
    assert_eq!(normalize_dns_name(""), ".");
}

#[test]
fn strip_removes_every_leading_prefix() {
    assert_eq!(strip_prefix_repeated("/hostedzone/Z123", "/hostedzone/"), "Z123");
    assert_eq!(strip_prefix_repeated("/hostedzone//hostedzone/Z9", "/hostedzone/"), "Z9");
    assert_eq!(strip_prefix_repeated("Z123", "/hostedzone/"), "Z123");
    assert_eq!(strip_prefix_repeated("/change/C42", "/change/"), "C42");
    assert_eq!(strip_prefix_repeated("x/change/C42", "/change/"), "x/change/C42");
}

#[test]
fn statuses_are_sorted() {
    assert_eq!(classify_status("INSYNC"), ChangeStatus::InSync);
    assert_eq!(classify_status("PENDING"), ChangeStatus::Pending);
    assert_eq!(classify_status("insync"), ChangeStatus::Other);
    assert_eq!(classify_status(""), ChangeStatus::Other);
}

#[test]
fn target_is_first_exact_a_record() {
    let sets = vec![
        record("example.com.", "AAAA", "2001:db8::1"),
        record("example.com", "A", "192.0.2.1"),
        record("example.com.", "A", "192.0.2.2"),
        record("example.com.", "A", "192.0.2.3"),
    ];
    assert_eq!(find_target(&sets, &"example.com.".to_string()), Some(2));
    assert_eq!(find_target(&sets, &"other.com.".to_string()), None);
    assert_eq!(find_target(&Vec::new(), &"example.com.".to_string()), None);
}

#[test]
fn upsert_request_fields() {
    let req = upsert_request(&"Z1".to_string(), &"example.com.".to_string(), &"203.0.113.7".to_string());
    assert_eq!(req.hosted_zone_id, "Z1");
    assert_eq!(req.action, "UPSERT");
    assert_eq!(req.name, "example.com.");
    assert_eq!(req.record_type, "A");
    assert_eq!(req.values, vec!["203.0.113.7".to_string()]);
    assert_eq!(req.ttl, 900);
    assert_eq!(req.comment, "route53-dyndns A IP Update");
}

#[test]
fn elapsed_never_negative() {
    assert_eq!(elapsed_between(1000, 61000), 60000);
    assert_eq!(elapsed_between(5000, 4000), 0);
    assert_eq!(elapsed_between(7, 7), 0);
}

#[test]
fn same_address_needs_no_update() {
    let mut r = at_records("203.0.113.7");
    let sets = vec![a_record("example.com.", Some(vec!["203.0.113.7"]))];
    let a = r.step(Event::RecordsListed { truncated: false, record_sets: sets });
    assert_eq!(outcome(a), Ok(false));
    assert!(r.is_done());
    assert!(!r.accepts(&Event::Failed { kind: ErrorKind::Network }));
}

#[test]
fn other_address_submits_one_upsert() {
    let mut r = at_records("203.0.113.7");
    let sets = vec![
        record("www.example.com.", "A", "192.0.2.9"),
        a_record("example.com.", Some(vec!["198.51.100.1"])),
    ];
    match r.step(Event::RecordsListed { truncated: false, record_sets: sets }) {
        Action::Submit { request } => {
            assert_eq!(request.action, "UPSERT");
            assert_eq!(request.record_type, "A");
            assert_eq!(request.name, "example.com.");
            assert_eq!(request.values, vec!["203.0.113.7".to_string()]);
            assert_eq!(request.ttl, RECORD_TTL);
            assert_eq!(request.hosted_zone_id, "Z123");
        },
        other => panic!("unexpected action {:?}", other),
    }
    assert_eq!(r.phase, Phase::Submitting);
}

#[test]
fn absent_value_list_submits_upsert() {
    let mut r = at_records("203.0.113.7");
    let sets = vec![a_record("example.com.", None)];
    match r.step(Event::RecordsListed { truncated: false, record_sets: sets }) {
        Action::Submit { request } => assert_eq!(request.values, vec!["203.0.113.7".to_string()]),
        other => panic!("unexpected action {:?}", other),
    }
}

#[test]
fn empty_or_many_values_is_configuration_error() {
    let mut r = at_records("203.0.113.7");
    let sets = vec![a_record("example.com.", Some(vec![]))];
    let a = r.step(Event::RecordsListed { truncated: false, record_sets: sets });
    assert_eq!(outcome(a), Err(ErrorKind::Configuration));

    let mut r = at_records("203.0.113.7");
    let sets = vec![a_record("example.com.", Some(vec!["203.0.113.7", "192.0.2.1"]))];
    let a = r.step(Event::RecordsListed { truncated: false, record_sets: sets });
    assert_eq!(outcome(a), Err(ErrorKind::Configuration));
}

#[test]
fn truncated_zones_is_configuration_error() {
    let mut r = Reconciler::new("example.com.");
    r.step(Event::IpResolved { ip: "203.0.113.7".to_string() });
    let zones = Event::ZonesListed {
        truncated: true,
        zone_ids: vec!["/hostedzone/Z1".to_string()],
    };
    assert_eq!(outcome(r.step(zones)), Err(ErrorKind::Configuration));
    assert!(r.is_done());
}

#[test]
fn no_zone_is_configuration_error() {
    let mut r = Reconciler::new("example.com.");
    r.step(Event::IpResolved { ip: "203.0.113.7".to_string() });
    let zones = Event::ZonesListed { truncated: false, zone_ids: vec![] };
    assert_eq!(outcome(r.step(zones)), Err(ErrorKind::Configuration));
}

#[test]
fn truncated_records_is_configuration_error() {
    let mut r = at_records("203.0.113.7");
    let sets = vec![a_record("example.com.", Some(vec!["203.0.113.7"]))];
    let a = r.step(Event::RecordsListed { truncated: true, record_sets: sets });
    assert_eq!(outcome(a), Err(ErrorKind::Configuration));
}

#[test]
fn missing_record_is_not_found() {
    let mut r = at_records("203.0.113.7");
    let sets = vec![
        record("example.com.", "AAAA", "2001:db8::1"),
        record("example.com", "A", "203.0.113.7"),
        record("www.example.com.", "A", "203.0.113.7"),
    ];
    let a = r.step(Event::RecordsListed { truncated: false, record_sets: sets });
    assert_eq!(outcome(a), Err(ErrorKind::NotFound));
}

#[test]
fn immediate_insync_is_updated_without_polling() {
    let mut r = at_submission();
    let ev = Event::ChangeSubmitted {
        change_id: "/change/C1".to_string(),
        status: "INSYNC".to_string(),
        now_ms: 0,
    };
    assert_eq!(outcome(r.step(ev)), Ok(true));
    assert!(r.is_done());
}

#[test]
fn pending_then_insync_is_updated() {
    let mut r = at_submission();
    let ev = Event::ChangeSubmitted {
        change_id: "/change/C1".to_string(),
        status: "PENDING".to_string(),
        now_ms: 500,
    };
    match r.step(ev) {
        Action::Poll { change_id } => assert_eq!(change_id, "C1"),
        other => panic!("unexpected action {:?}", other),
    }
    match r.step(Event::ChangePolled { status: "PENDING".to_string() }) {
        Action::Wait { seconds } => assert_eq!(seconds, 1),
        other => panic!("unexpected action {:?}", other),
    }
    match r.step(Event::Woke { now_ms: 1500 }) {
        Action::Poll { change_id } => assert_eq!(change_id, "C1"),
        other => panic!("unexpected action {:?}", other),
    }
    assert_eq!(outcome(r.step(Event::ChangePolled { status: "INSYNC".to_string() })), Ok(true));
}

#[test]
fn pending_forever_times_out_after_sixty_polls() {
    let mut r = at_submission();
    let start: u64 = 10_000;
    let ev = Event::ChangeSubmitted {
        change_id: "/change/C7".to_string(),
        status: "PENDING".to_string(),
        now_ms: start,
    };
    let mut action = r.step(ev);
    let mut polls = 0;
    let mut clock = start;
    let result = loop {
        match action {
            Action::Poll { change_id } => {
                assert_eq!(change_id, "C7");
                polls += 1;
                action = r.step(Event::ChangePolled { status: "PENDING".to_string() });
            },
            Action::Wait { seconds } => {
                clock += seconds * 1000;
                action = r.step(Event::Woke { now_ms: clock });
            },
            Action::Finish { outcome } => break outcome,
            other => panic!("unexpected action {:?}", other),
        }
    };
    assert_eq!(result, Err(ErrorKind::Timeout));
    assert_eq!(polls, 60);
    assert_eq!(clock - start, POLL_BUDGET_MS);
}

#[test]
fn unexpected_status_is_protocol_error() {
    let mut r = at_submission();
    let ev = Event::ChangeSubmitted {
        change_id: "/change/C1".to_string(),
        status: "FAILED".to_string(),
        now_ms: 0,
    };
    assert_eq!(outcome(r.step(ev)), Err(ErrorKind::Protocol));

    let mut r = at_submission();
    let ev = Event::ChangeSubmitted {
        change_id: "/change/C1".to_string(),
        status: "PENDING".to_string(),
        now_ms: 0,
    };
    r.step(ev);
    let a = r.step(Event::ChangePolled { status: "UNKNOWN".to_string() });
    assert_eq!(outcome(a), Err(ErrorKind::Protocol));
    assert!(r.is_done());
}

#[test]
fn failures_end_the_cycle_with_their_kind() {
    let mut r = Reconciler::new("example.com");
    assert_eq!(outcome(r.step(Event::Failed { kind: ErrorKind::Network })), Err(ErrorKind::Network));
    let mut r = at_records("203.0.113.7");
    assert_eq!(outcome(r.step(Event::Failed { kind: ErrorKind::Provider })), Err(ErrorKind::Provider));
}

#[test]
fn names_with_and_without_dot_match_alike() {
    for name in ["example.com", "example.com."] {
        let mut r = Reconciler::new(name);
        assert_eq!(r.dns_name, "example.com.");
        r.step(Event::IpResolved { ip: "203.0.113.7".to_string() });
        r.step(Event::ZonesListed { truncated: false, zone_ids: vec!["Z1".to_string()] });
        let sets = vec![a_record("example.com.", Some(vec!["203.0.113.7"]))];
        let a = r.step(Event::RecordsListed { truncated: false, record_sets: sets });
        assert_eq!(outcome(a), Ok(false));
    }
}

#[test]
fn events_out_of_turn_are_refused() {
    let r = Reconciler::new("example.com");
    assert!(r.accepts(&Event::IpResolved { ip: "203.0.113.7".to_string() }));
    assert!(!r.accepts(&Event::Woke { now_ms: 0 }));
    assert!(!r.accepts(&Event::ChangePolled { status: "INSYNC".to_string() }));
}
