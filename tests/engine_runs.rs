use oai_harvest::engine::{backoff_seconds, Action, Event, HarvestError, Harvester, Outcome, Phase};
use oai_harvest::extract::ExtractError;
use oai_harvest::request::HarvestSpec;

const BASE: &str = "https://example.org/oai";

fn spec() -> HarvestSpec {
    HarvestSpec {
        repository: BASE.to_string(),
        metadata_prefix: "oai_dc".to_string(),
        set: Some("math".to_string()),
        from: None,
        until: None,
    }
}

fn page(dates: &[&str], token: Option<&str>) -> String {
    let mut body = String::from(
        "<?xml version=\"1.0\"?>\n<OAI-PMH xmlns=\"http://www.openarchives.org/OAI/2.0/\"><ListRecords>",
    );
    for (i, d) in dates.iter().enumerate() {
        body.push_str(&format!(
            "<record><header><identifier>id{}</identifier><datestamp>{}</datestamp></header></record>",
            i, d
        ));
    }
    match token {
        Some(t) => body.push_str(&format!("<resumptionToken>{}</resumptionToken>", t)),
        None => body.push_str("<resumptionToken/>"),
    }
    body.push_str("</ListRecords></OAI-PMH>");
    body
}

fn fetched(action: &Action) -> String {
    match action {
        Action::Fetch(url) => url.clone(),
        other => panic!("expected a fetch, got {:?}", other),
    }
}

fn respond(h: &mut Harvester, success: bool, body: String) -> Action {
    let event = Event::Response { success, body };
    assert!(h.accepts(&event));
    h.handle(event)
}

#[test]
fn three_pages_then_completed() {
    let mut h = Harvester::new(spec(), false, None);
    let mut requests = vec![fetched(&h.start())];
    let a = respond(&mut h, true, page(&["2020-01-01", "2020-01-02"], Some("T1")));
    requests.push(fetched(&a));
    let b = respond(&mut h, true, page(&["2020-01-03"], Some("T2")));
    requests.push(fetched(&b));
    let c = respond(&mut h, true, page(&[], None));
    assert!(matches!(c, Action::Stop(Outcome::Completed)));
    assert_eq!(
        requests,
        vec![
            format!("{}?verb=ListRecords&metadataPrefix=oai_dc&set=math", BASE),
            format!("{}?verb=ListRecords&resumptionToken=T1", BASE),
            format!("{}?verb=ListRecords&resumptionToken=T2", BASE),
        ]
    );
    assert_eq!(h.phase, Phase::Finished(Outcome::Completed));
    assert_eq!(h.state.last_record_date, Some("2020-01-03".to_string()));
}

#[test]
fn failure_after_progress_restarts_from_last_datestamp() {
    let mut h = Harvester::new(spec(), false, None);
    h.start();
    let a = respond(&mut h, true, page(&["2020-01-01", "2020-01-02"], Some("T1")));
    assert_eq!(fetched(&a), format!("{}?verb=ListRecords&resumptionToken=T1", BASE));
    let retry = respond(&mut h, false, "Internal Server Error".to_string());
    assert_eq!(
        fetched(&retry),
        format!("{}?verb=ListRecords&metadataPrefix=oai_dc&set=math&from=2020-01-02", BASE)
    );
    assert_eq!(h.phase, Phase::AwaitingPage);
    assert_eq!(h.restarts, 1);
    assert_eq!(h.state.spec.from, Some("2020-01-02".to_string()));
    assert_eq!(h.state.resumption_token, None);
}

#[test]
fn restart_keeps_failing_server_in_the_loop() {
    let mut h = Harvester::new(spec(), false, None);
    h.start();
    respond(&mut h, true, page(&["2020-01-05"], Some("T1")));
    for attempt in 1..=5u64 {
        let retry = respond(&mut h, false, String::new());
        assert!(matches!(retry, Action::Fetch(_)));
        assert_eq!(h.restarts, attempt);
    }
}

#[test]
fn restart_limit_ends_the_harvest() {
    let mut h = Harvester::new(spec(), false, Some(1));
    h.start();
    respond(&mut h, true, page(&["2020-01-05"], Some("T1")));
    assert!(matches!(respond(&mut h, false, String::new()), Action::Fetch(_)));
    let last = respond(&mut h, false, String::new());
    assert!(matches!(last, Action::Stop(Outcome::Failed(HarvestError::HttpStatus))));
}

#[test]
fn first_page_failure_is_fatal() {
    let mut h = Harvester::new(spec(), false, None);
    h.start();
    let r = respond(&mut h, false, "Internal Server Error".to_string());
    assert!(matches!(r, Action::Stop(Outcome::Failed(HarvestError::HttpStatus))));
    assert_eq!(h.phase, Phase::Finished(Outcome::Failed(HarvestError::HttpStatus)));
    assert!(!h.accepts(&Event::Response { success: true, body: page(&[], None) }));
    assert!(!h.accepts(&Event::TransportFailed));
}

#[test]
fn persisted_page_is_raw_body() {
    let mut h = Harvester::new(spec(), true, None);
    h.start();
    let body = page(&["2020-01-01"], Some("T1"));
    let r = respond(&mut h, true, body.clone());
    match r {
        Action::Persist { file_name, body: written } => {
            assert_eq!(file_name, "oai_dc-math-0.xml");
            assert_eq!(written.as_bytes(), body.as_bytes());
        },
        other => panic!("expected a write, got {:?}", other),
    }
    assert_eq!(h.phase, Phase::AwaitingPersist);
    let next = h.handle(Event::Persisted);
    assert_eq!(fetched(&next), format!("{}?verb=ListRecords&resumptionToken=T1", BASE));
    let r2 = respond(&mut h, true, page(&["2020-01-02"], None));
    assert!(matches!(r2, Action::Persist { ref file_name, .. } if file_name == "oai_dc-math-1.xml"));
    assert!(matches!(h.handle(Event::Persisted), Action::Stop(Outcome::Completed)));
}

#[test]
fn persist_failure_is_reported() {
    let mut h = Harvester::new(spec(), true, None);
    h.start();
    respond(&mut h, true, page(&["2020-01-01"], Some("T1")));
    let r = h.handle(Event::PersistFailed);
    assert!(matches!(r, Action::Stop(Outcome::Failed(HarvestError::Persistence))));
}

#[test]
fn no_records_completes_despite_token() {
    let mut h = Harvester::new(spec(), false, None);
    h.start();
    let r = respond(&mut h, true, page(&[], Some("T9")));
    assert!(matches!(r, Action::Stop(Outcome::Completed)));
}

#[test]
fn empty_token_completes() {
    let mut h = Harvester::new(spec(), false, None);
    h.start();
    let r = respond(&mut h, true, page(&["2020-01-01"], None));
    assert!(matches!(r, Action::Stop(Outcome::Completed)));
    assert_eq!(h.state.last_record_date, Some("2020-01-01".to_string()));
}

#[test]
fn transport_failure_is_fatal() {
    let mut h = Harvester::new(spec(), false, None);
    h.start();
    assert!(h.accepts(&Event::TransportFailed));
    let r = h.handle(Event::TransportFailed);
    assert!(matches!(r, Action::Stop(Outcome::Failed(HarvestError::Transport))));
}

#[test]
fn malformed_response_is_an_extract_failure() {
    let mut h = Harvester::new(spec(), false, None);
    h.start();
    let r = respond(&mut h, true, "<OAI-PMH><ListRecords>".to_string());
    assert!(matches!(r, Action::Stop(Outcome::Failed(HarvestError::Extract))));
}

#[test]
fn invalid_repository_fails_at_start() {
    let mut s = spec();
    s.repository = "no scheme here".to_string();
    let mut h = Harvester::new(s, false, None);
    let r = h.start();
    assert!(matches!(r, Action::Stop(Outcome::Failed(HarvestError::InvalidConfiguration))));
}

#[test]
fn page_decision_from_given_fields() {
    let mut h = Harvester::new(spec(), false, None);
    h.start();
    let r = h.handle_page(String::new(), Ok(Some("2021-05-05".to_string())), Ok(Some("a b".to_string())));
    assert_eq!(fetched(&r), format!("{}?verb=ListRecords&resumptionToken=a%20b", BASE));
    let mut h2 = Harvester::new(spec(), false, None);
    h2.start();
    let r2 = h2.handle_page(String::new(), Ok(Some("2021-05-05".to_string())), Err(ExtractError));
    assert!(matches!(r2, Action::Stop(Outcome::Failed(HarvestError::Extract))));
    let mut h3 = Harvester::new(spec(), false, None);
    h3.start();
    let r3 = h3.handle_page(String::new(), Err(ExtractError), Ok(Some("T".to_string())));
    assert!(matches!(r3, Action::Stop(Outcome::Failed(HarvestError::Extract))));
}

#[test]
fn backoff_doubles_up_to_the_cap() {
    assert_eq!(backoff_seconds(0, 60), 1);
    assert_eq!(backoff_seconds(1, 60), 2);
    assert_eq!(backoff_seconds(3, 60), 8);
    assert_eq!(backoff_seconds(6, 60), 60);
    assert_eq!(backoff_seconds(1000, 60), 60);
    assert_eq!(backoff_seconds(5, 0), 0);
    assert_eq!(backoff_seconds(63, u64::MAX), 1u64 << 63);
    assert_eq!(backoff_seconds(64, u64::MAX), u64::MAX);
}

#[test]
fn restarted_run_completes() {
    let mut h = Harvester::new(spec(), false, None);
    h.start();
    respond(&mut h, true, page(&["2020-01-01", "2020-01-02"], Some("T1")));
    let retry = respond(&mut h, false, String::new());
    assert_eq!(
        fetched(&retry),
        format!("{}?verb=ListRecords&metadataPrefix=oai_dc&set=math&from=2020-01-02", BASE)
    );
    let done = respond(&mut h, true, page(&["2020-01-03"], None));
    assert!(matches!(done, Action::Stop(Outcome::Completed)));
    assert_eq!(h.state.last_record_date, Some("2020-01-03".to_string()));
}

#[test]
fn several_tokens_are_an_extract_failure() {
    let mut h = Harvester::new(spec(), false, None);
    h.start();
    let body = page(&["2020-01-01"], Some("T1")).replace(
        "</ListRecords>",
        "<resumptionToken>T2</resumptionToken></ListRecords>",
    );
    let r = respond(&mut h, true, body);
    assert!(matches!(r, Action::Stop(Outcome::Failed(HarvestError::Extract))));
}
