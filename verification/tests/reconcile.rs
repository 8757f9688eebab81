use gandi_ddns::error::Error;
use gandi_ddns::gandi::{upsert_body, DnsRecord, GandiClient, GANDI_BASE_URL};
use gandi_ddns::http::{Header, HttpRequest, Method};
use gandi_ddns::reconcile::{Action, Event, Outcome, Phase, Reconciler};
use gandi_ddns::settings::Settings;

const RECORD_URL: &str = "https://api.gandi.net/v5/livedns/domains/example.com/records/home";

fn settings(ip: Option<&str>) -> Settings {
    Settings {
        api_key: "key".to_string(),
        domain: "example.com".to_string(),
        record: "home".to_string(),
        ip: ip.map(|ip| ip.to_string()),
    }
}

fn record(rrset_type: &str, values: &[&str]) -> DnsRecord {
    DnsRecord {
        rrset_href: format!("{}/{}", RECORD_URL, rrset_type),
        rrset_name: "home".to_string(),
        rrset_type: rrset_type.to_string(),
        rrset_values: values.iter().map(|v| v.to_string()).collect(),
        rrset_ttl: 300,
    }
}

fn api_headers() -> Vec<Header> {
    vec![
        Header { name: "Authorization".to_string(), value: "Apikey key".to_string() },
        Header { name: "Content-Type".to_string(), value: "application/json".to_string() },
    ]
}

fn read_request() -> HttpRequest {
    HttpRequest {
        method: Method::Get,
        url: RECORD_URL.to_string(),
        headers: api_headers(),
        body: None,
    }
}

fn write_request(ip: &str) -> HttpRequest {
    HttpRequest {
        method: Method::Put,
        url: RECORD_URL.to_string(),
        headers: api_headers(),
        body: Some(upsert_body(ip)),
    }
}

/// The values that a write declares, read back from its body.
fn written_values(request: &HttpRequest) -> Vec<String> {
    let body = request.body.as_ref().unwrap();
    let document: serde_json::Value = serde_json::from_str(body).unwrap();
    let items = document["items"].as_array().unwrap();
    assert_eq!(items.len(), 1);
    assert_eq!(items[0]["rrset_ttl"].as_u64(), Some(300));
    assert_eq!(items[0]["rrset_type"].as_str(), Some("A"));
    items[0]["rrset_values"]
        .as_array()
        .unwrap()
        .iter()
        .map(|v| v.as_str().unwrap().to_string())
        .collect()
}

/// What a whole run did against a scripted world.
struct Trace {
    resolver_calls: usize,
    reads: Vec<HttpRequest>,
    writes: Vec<HttpRequest>,
    end: Result<Outcome, Error>,
}

/// Drives a run to its end. `public_ip` is the body of the address
/// service, `read` the reply to a read, `write_status` the status of a
/// write; `None` lets the request fail.
fn drive(
    settings: Settings,
    public_ip: Option<&str>,
    read: Option<(u16, Option<Vec<DnsRecord>>)>,
    write_status: Option<u16>,
) -> Trace {
    let run = Reconciler::new(settings);
    let mut trace = Trace { resolver_calls: 0, reads: vec![], writes: vec![], end: Err(Error::Network) };
    let (mut phase, mut action) = run.start();
    for _ in 0..4 {
        let event = match action {
            Action::ResolveIp { request } => {
                assert_eq!(request.method, Method::Get);
                assert_eq!(request.url, "https://www.icanhazip.com/");
                assert_eq!(request.headers, vec![]);
                assert_eq!(request.body, None);
                trace.resolver_calls += 1;
                match public_ip {
                    Some(body) => Event::PublicIp { body: body.to_string() },
                    None => Event::Failed,
                }
            }
            Action::ReadRecord { request } => {
                trace.reads.push(request);
                match read.clone() {
                    Some((status, records)) => Event::Record { status, records },
                    None => Event::Failed,
                }
            }
            Action::WriteRecord { request, .. } => {
                trace.writes.push(request);
                match write_status {
                    Some(status) => Event::Written { status },
                    None => Event::Failed,
                }
            }
            Action::Finish { outcome } => {
                assert_eq!(phase, Phase::Done);
                trace.end = Ok(outcome);
                return trace;
            }
            Action::Fail { error } => {
                assert_eq!(phase, Phase::Done);
                trace.end = Err(error);
                return trace;
            }
        };
        assert!(phase.awaits(&event));
        let (next_phase, next_action) = run.step(phase, event).unwrap();
        phase = next_phase;
        action = next_action;
    }
    panic!("a run sends three requests at most");
}

#[test]
fn new_takes_the_public_api_and_the_settings() {
    let run = Reconciler::new(settings(Some("10.0.0.5")));
    assert_eq!(run.client, GandiClient::new(GANDI_BASE_URL, "key"));
    assert_eq!(run.domain, "example.com");
    assert_eq!(run.record, "home");
    assert_eq!(run.ip, Some("10.0.0.5".to_string()));
}

#[test]
fn scenario_create() {
    let trace = drive(settings(None), Some("203.0.113.9\n"), Some((200, Some(vec![]))), Some(201));
    assert_eq!(trace.resolver_calls, 1);
    assert_eq!(trace.reads, vec![read_request()]);
    assert_eq!(trace.writes.len(), 1);
    assert_eq!(written_values(&trace.writes[0]), vec!["203.0.113.9".to_string()]);
    assert_eq!(trace.writes[0], write_request("203.0.113.9"));
    assert_eq!(trace.end, Ok(Outcome::Created));
    assert_ne!(trace.end, Ok(Outcome::InSync));
}

#[test]
fn scenario_already_in_sync() {
    let found = vec![record("A", &["203.0.113.9"])];
    let trace = drive(settings(None), Some("203.0.113.9\n"), Some((200, Some(found))), Some(201));
    assert_eq!(trace.resolver_calls, 1);
    assert_eq!(trace.reads.len(), 1);
    assert_eq!(trace.writes.len(), 0);
    assert_eq!(trace.end, Ok(Outcome::InSync));
}

#[test]
fn scenario_update() {
    let found = vec![record("A", &["198.51.100.2"])];
    let trace = drive(settings(None), Some("203.0.113.9\n"), Some((200, Some(found))), Some(201));
    assert_eq!(trace.reads.len(), 1);
    assert_eq!(trace.writes.len(), 1);
    assert_eq!(written_values(&trace.writes[0]), vec!["203.0.113.9".to_string()]);
    assert_eq!(trace.writes[0], write_request("203.0.113.9"));
    assert_eq!(trace.end, Ok(Outcome::Updated));
}

#[test]
fn scenario_override_ip() {
    let trace = drive(settings(Some("10.0.0.5")), None, Some((200, Some(vec![]))), Some(201));
    assert_eq!(trace.resolver_calls, 0);
    assert_eq!(trace.reads, vec![read_request()]);
    assert_eq!(trace.writes, vec![write_request("10.0.0.5")]);
    assert_eq!(trace.end, Ok(Outcome::Created));
}

#[test]
fn scenario_override_ip_in_sync() {
    let found = vec![record("A", &["10.0.0.5"])];
    let trace = drive(settings(Some("10.0.0.5")), None, Some((200, Some(found))), None);
    assert_eq!(trace.resolver_calls, 0);
    assert_eq!(trace.writes.len(), 0);
    assert_eq!(trace.end, Ok(Outcome::InSync));
}

#[test]
fn scenario_fatal_shape_violation() {
    let found = vec![record("A", &["203.0.113.9"]), record("A", &["198.51.100.2"])];
    let trace = drive(settings(None), Some("203.0.113.9\n"), Some((200, Some(found))), Some(201));
    assert_eq!(trace.reads.len(), 1);
    assert_eq!(trace.writes.len(), 0);
    assert_eq!(trace.end, Err(Error::AmbiguousRecord));
}

#[test]
fn start_without_address_asks_the_echo_service() {
    let (phase, action) = Reconciler::new(settings(None)).start();
    assert_eq!(phase, Phase::ResolvingIp);
    assert_eq!(
        action,
        Action::ResolveIp {
            request: HttpRequest {
                method: Method::Get,
                url: "https://www.icanhazip.com/".to_string(),
                headers: vec![],
                body: None,
            }
        }
    );
}

#[test]
fn start_with_address_reads_the_record() {
    let (phase, action) = Reconciler::new(settings(Some("10.0.0.5"))).start();
    assert_eq!(phase, Phase::ReadingRecord { ip: "10.0.0.5".to_string() });
    assert_eq!(action, Action::ReadRecord { request: read_request() });
}

#[test]
fn resolved_address_is_trimmed_and_not_checked() {
    let run = Reconciler::new(settings(None));
    let event = Event::PublicIp { body: "\nwhatever\n\n".to_string() };
    let (phase, action) = run.step(Phase::ResolvingIp, event).unwrap();
    assert_eq!(phase, Phase::ReadingRecord { ip: "whatever".to_string() });
    assert_eq!(action, Action::ReadRecord { request: read_request() });
}

#[test]
fn update_reports_what_the_record_held() {
    let run = Reconciler::new(settings(None));
    let phase = Phase::ReadingRecord { ip: "203.0.113.9".to_string() };
    let event = Event::Record { status: 200, records: Some(vec![record("A", &["198.51.100.2"])]) };
    assert_eq!(
        run.step(phase, event),
        Some((
            Phase::UpdatingRecord,
            Action::WriteRecord {
                request: write_request("203.0.113.9"),
                previous: Some("198.51.100.2".to_string()),
            }
        ))
    );
}

#[test]
fn create_reports_no_previous_address() {
    let run = Reconciler::new(settings(None));
    let phase = Phase::ReadingRecord { ip: "203.0.113.9".to_string() };
    let event = Event::Record { status: 200, records: Some(vec![]) };
    assert_eq!(
        run.step(phase, event),
        Some((
            Phase::CreatingRecord,
            Action::WriteRecord { request: write_request("203.0.113.9"), previous: None }
        ))
    );
}

#[test]
fn addresses_are_compared_as_texts() {
    let found = vec![record("A", &["203.0.113.09"])];
    let trace = drive(settings(Some("203.0.113.9")), None, Some((200, Some(found))), Some(201));
    assert_eq!(trace.writes.len(), 1);
    assert_eq!(trace.end, Ok(Outcome::Updated));
}

#[test]
fn failed_resolution_ends_the_run() {
    let trace = drive(settings(None), None, Some((200, Some(vec![]))), Some(201));
    assert_eq!(trace.resolver_calls, 1);
    assert_eq!(trace.reads.len(), 0);
    assert_eq!(trace.writes.len(), 0);
    assert_eq!(trace.end, Err(Error::Network));
}

#[test]
fn failed_read_ends_the_run() {
    let trace = drive(settings(None), Some("203.0.113.9"), None, Some(201));
    assert_eq!(trace.reads.len(), 1);
    assert_eq!(trace.writes.len(), 0);
    assert_eq!(trace.end, Err(Error::Network));
}

#[test]
fn failed_write_ends_the_run() {
    let trace = drive(settings(None), Some("203.0.113.9"), Some((200, Some(vec![]))), None);
    assert_eq!(trace.writes.len(), 1);
    assert_eq!(trace.end, Err(Error::Network));
}

#[test]
fn read_errors_end_the_run_without_a_write() {
    let cases: Vec<(u16, Option<Vec<DnsRecord>>, Error)> = vec![
        (404, Some(vec![]), Error::UnexpectedStatus { status: 404 }),
        (500, None, Error::UnexpectedStatus { status: 500 }),
        (200, None, Error::MalformedResponse),
        (200, Some(vec![record("AAAA", &["::1"])]), Error::WrongRecordType),
        (200, Some(vec![record("A", &[])]), Error::MultipleValues),
        (200, Some(vec![record("A", &["1.1.1.1", "2.2.2.2"])]), Error::MultipleValues),
    ];
    for (status, records, error) in cases {
        let trace = drive(settings(None), Some("203.0.113.9"), Some((status, records)), Some(201));
        assert_eq!(trace.writes.len(), 0);
        assert_eq!(trace.end, Err(error));
    }
}

#[test]
fn write_must_be_answered_with_201() {
    for status in [200u16, 204, 403, 500] {
        let trace =
            drive(settings(None), Some("203.0.113.9"), Some((200, Some(vec![]))), Some(status));
        assert_eq!(trace.writes.len(), 1);
        assert_eq!(trace.end, Err(Error::UnexpectedStatus { status }));
    }
}

#[test]
fn update_is_confirmed_by_201() {
    let run = Reconciler::new(settings(None));
    assert_eq!(
        run.step(Phase::UpdatingRecord, Event::Written { status: 201 }),
        Some((Phase::Done, Action::Finish { outcome: Outcome::Updated }))
    );
    assert_eq!(
        run.step(Phase::CreatingRecord, Event::Written { status: 201 }),
        Some((Phase::Done, Action::Finish { outcome: Outcome::Created }))
    );
}

#[test]
fn events_out_of_turn_decide_nothing() {
    let run = Reconciler::new(settings(None));
    let reading = Phase::ReadingRecord { ip: "203.0.113.9".to_string() };
    let public_ip = Event::PublicIp { body: "203.0.113.9".to_string() };
    let read = Event::Record { status: 200, records: Some(vec![]) };
    let written = Event::Written { status: 201 };
    assert_eq!(run.step(Phase::ResolvingIp, read.clone()), None);
    assert_eq!(run.step(Phase::ResolvingIp, written.clone()), None);
    assert_eq!(run.step(reading.clone(), public_ip.clone()), None);
    assert_eq!(run.step(reading.clone(), written.clone()), None);
    assert_eq!(run.step(Phase::CreatingRecord, public_ip.clone()), None);
    assert_eq!(run.step(Phase::CreatingRecord, read.clone()), None);
    assert_eq!(run.step(Phase::UpdatingRecord, public_ip.clone()), None);
    assert_eq!(run.step(Phase::UpdatingRecord, read.clone()), None);
    for event in [Event::Failed, public_ip, read, written] {
        assert!(!Phase::Done.awaits(&event));
        assert_eq!(run.step(Phase::Done, event), None);
    }
}

#[test]
fn phases_wait_for_their_own_events() {
    let reading = Phase::ReadingRecord { ip: "203.0.113.9".to_string() };
    assert!(Phase::ResolvingIp.awaits(&Event::Failed));
    assert!(Phase::ResolvingIp.awaits(&Event::PublicIp { body: String::new() }));
    assert!(reading.awaits(&Event::Failed));
    assert!(reading.awaits(&Event::Record { status: 500, records: None }));
    assert!(Phase::CreatingRecord.awaits(&Event::Written { status: 0 }));
    assert!(Phase::UpdatingRecord.awaits(&Event::Written { status: 0 }));
    assert!(!Phase::ResolvingIp.awaits(&Event::Written { status: 201 }));
    assert!(!reading.awaits(&Event::PublicIp { body: String::new() }));
}

#[test]
fn only_the_last_phase_is_done() {
    assert!(Phase::Done.is_done());
    assert!(!Phase::ResolvingIp.is_done());
    assert!(!Phase::ReadingRecord { ip: String::new() }.is_done());
    assert!(!Phase::CreatingRecord.is_done());
    assert!(!Phase::UpdatingRecord.is_done());
}
