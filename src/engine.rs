//! The harvest engine: a state machine that runs a ListRecords harvest page
//! by page.
//!
//! The caller performs each `Action` the engine returns (fetch a URL, write
//! a page) and hands the outcome back as an `Event`; the engine decides the
//! next action. A failed response after at least one good page restarts the
//! harvest from its first page, with `from` set to the datestamp of the last
//! record seen, so that the harvest resumes at its last known-good boundary.
use vstd::prelude::*;
use crate::request::{
    HarvestSpec, SpecModel, build_url, list_records_url, is_iri, opt_view, opt_str_view,
    validate_repository,
};
use crate::extract::{Field, ExtractError, extract, extracted, field_result_view};
use crate::naming::{page_file_name, page_file_text};

verus! {

/// Why a harvest stopped without completing.
#[derive(Clone, Copy, Debug, PartialEq, Eq, Structural)]
pub enum HarvestError {
    /// The repository's base URL is malformed.
    InvalidConfiguration,
    /// A request failed below HTTP: connection, timeout, name lookup.
    Transport,
    /// The repository answered with a non-success status, and the harvest
    /// could not restart.
    HttpStatus,
    /// A response could not be parsed or queried.
    Extract,
    /// A page could not be written.
    Persistence,
}

/// How a harvest ended.
#[derive(Clone, Copy, Debug, PartialEq, Eq, Structural)]
pub enum Outcome {
    Completed,
    Failed(HarvestError),
}

/// Where the engine stands.
#[derive(Clone, Copy, Debug, PartialEq, Eq, Structural)]
pub enum Phase {
    /// Nothing requested yet.
    Ready,
    /// A ListRecords request is out; its response is awaited.
    AwaitingPage,
    /// A page is being written; the outcome of the write is awaited.
    AwaitingPersist,
    /// The harvest is over.
    Finished(Outcome),
}

/// The state a harvest carries from page to page.
#[derive(Clone, Debug)]
pub struct HarvestState {
    /// What the current attempt asks for; a restart overwrites `from`.
    pub spec: HarvestSpec,
    /// The datestamp of the last record of the last good page.
    pub last_record_date: Option<String>,
    /// The token of the last good page, until the request that uses it.
    pub resumption_token: Option<String>,
    /// The index of the next page to be written; never sent to the server.
    pub page_index: u64,
}

/// The harvest engine.
#[derive(Clone, Debug)]
pub struct Harvester {
    pub state: HarvestState,
    /// Whether each good page is written out.
    pub persist: bool,
    /// How many restarts are allowed; `None` for no limit.
    pub max_restarts: Option<u64>,
    /// How many restarts have happened.
    pub restarts: u64,
    pub phase: Phase,
}

/// What the caller reports back.
#[derive(Clone, Debug)]
pub enum Event {
    /// A response arrived, with or without a success status.
    Response { success: bool, body: String },
    /// The request failed below HTTP.
    TransportFailed,
    /// The page was written.
    Persisted,
    /// The page could not be written.
    PersistFailed,
}

/// What the engine asks the caller to do next.
#[derive(Clone, Debug)]
pub enum Action {
    /// Send a GET request to this URL and report the response.
    Fetch(String),
    /// Write the body, unchanged, to the named file and report the result.
    Persist { file_name: String, body: String },
    /// The harvest is over.
    Stop(Outcome),
}

pub struct StateModel {
    pub spec: SpecModel,
    pub last_record_date: Option<Seq<char>>,
    pub resumption_token: Option<Seq<char>>,
    pub page_index: u64,
}

pub struct HarvesterModel {
    pub state: StateModel,
    pub persist: bool,
    pub max_restarts: Option<u64>,
    pub restarts: u64,
    pub phase: Phase,
}

pub enum EventModel {
    Response(bool, Seq<char>),
    TransportFailed,
    Persisted,
    PersistFailed,
}

pub enum ActionModel {
    Fetch(Seq<char>),
    Persist(Seq<char>, Seq<char>),
    Stop(Outcome),
}

impl View for HarvestState {
    type V = StateModel;

    open spec fn view(&self) -> StateModel {
        StateModel {
            spec: self.spec@,
            last_record_date: opt_view(self.last_record_date),
            resumption_token: opt_view(self.resumption_token),
            page_index: self.page_index,
        }
    }
}

impl View for Harvester {
    type V = HarvesterModel;

    open spec fn view(&self) -> HarvesterModel {
        HarvesterModel {
            state: self.state@,
            persist: self.persist,
            max_restarts: self.max_restarts,
            restarts: self.restarts,
            phase: self.phase,
        }
    }
}

impl View for Event {
    type V = EventModel;

    open spec fn view(&self) -> EventModel {
        match self {
            Event::Response { success, body } => EventModel::Response(*success, body@),
            Event::TransportFailed => EventModel::TransportFailed,
            Event::Persisted => EventModel::Persisted,
            Event::PersistFailed => EventModel::PersistFailed,
        }
    }
}

impl View for Action {
    type V = ActionModel;

    open spec fn view(&self) -> ActionModel {
        match self {
            Action::Fetch(url) => ActionModel::Fetch(url@),
            Action::Persist { file_name, body } => ActionModel::Persist(file_name@, body@),
            Action::Stop(o) => ActionModel::Stop(*o),
        }
    }
}

/// The events that the engine takes in a phase.
pub open spec fn accepts_event(phase: Phase, e: EventModel) -> bool {
    match phase {
        Phase::AwaitingPage => e is Response || e is TransportFailed,
        Phase::AwaitingPersist => e is Persisted || e is PersistFailed,
        _ => false,
    }
}

/// The harvest ends with the given outcome.
pub open spec fn finish(h: HarvesterModel, o: Outcome) -> (HarvesterModel, ActionModel) {
    (HarvesterModel { phase: Phase::Finished(o), ..h }, ActionModel::Stop(o))
}

/// Requests a ListRecords page.
pub open spec fn request_page(h: HarvesterModel, token: Option<Seq<char>>) -> (HarvesterModel, ActionModel) {
    (
        HarvesterModel { phase: Phase::AwaitingPage, ..h },
        ActionModel::Fetch(list_records_url(h.state.spec, token)),
    )
}

/// The first step: request the first page, or fail if the repository's base
/// URL is malformed.
pub open spec fn start_step(h: HarvesterModel) -> (HarvesterModel, ActionModel) {
    if is_iri(h.state.spec.repository) {
        request_page(h, None)
    } else {
        finish(h, Outcome::Failed(HarvestError::InvalidConfiguration))
    }
}

/// After a good page: follow the token, which is used once and dropped, or
/// complete where there is none.
pub open spec fn continue_step(h: HarvesterModel) -> (HarvesterModel, ActionModel) {
    match h.state.resumption_token {
        None => finish(h, Outcome::Completed),
        Some(t) => request_page(
            HarvesterModel { state: StateModel { resumption_token: None, ..h.state }, ..h },
            Some(t),
        ),
    }
}

/// Whether one more restart is allowed.
pub open spec fn may_restart(h: HarvesterModel) -> bool {
    match h.max_restarts {
        None => true,
        Some(m) => h.restarts < m,
    }
}

pub open spec fn saturating_inc(n: u64) -> u64 {
    if n < u64::MAX {
        (n + 1) as u64
    } else {
        n
    }
}

/// The attempt that restarts a harvest from its first page, with `from` set
/// to the given datestamp.
pub open spec fn restarted(h: HarvesterModel, date: Seq<char>) -> HarvesterModel {
    HarvesterModel {
        state: StateModel {
            spec: SpecModel { from: Some(date), ..h.state.spec },
            resumption_token: None,
            ..h.state
        },
        restarts: saturating_inc(h.restarts),
        ..h
    }
}

/// After a non-success status: restart from the last record's datestamp if a
/// page succeeded before and the limit allows, else fail.
pub open spec fn failure_step(h: HarvesterModel) -> (HarvesterModel, ActionModel) {
    match h.state.last_record_date {
        Some(d) => if may_restart(h) {
            request_page(restarted(h, d), None)
        } else {
            finish(h, Outcome::Failed(HarvestError::HttpStatus))
        },
        None => finish(h, Outcome::Failed(HarvestError::HttpStatus)),
    }
}

/// After a good response, given the two fields read out of its body.
pub open spec fn page_step(
    h: HarvesterModel,
    body: Seq<char>,
    date: Result<Option<Seq<char>>, ExtractError>,
    token: Result<Option<Seq<char>>, ExtractError>,
) -> (HarvesterModel, ActionModel) {
    match date {
        Err(_) => finish(h, Outcome::Failed(HarvestError::Extract)),
        Ok(None) => finish(h, Outcome::Completed),
        Ok(Some(d)) => {
            let dated = HarvesterModel {
                state: StateModel { last_record_date: Some(d), ..h.state },
                ..h
            };
            match token {
                Err(_) => finish(dated, Outcome::Failed(HarvestError::Extract)),
                Ok(t) => {
                    let next = HarvesterModel {
                        state: StateModel {
                            resumption_token: t,
                            page_index: saturating_inc(h.state.page_index),
                            ..dated.state
                        },
                        ..dated
                    };
                    if h.persist {
                        (
                            HarvesterModel { phase: Phase::AwaitingPersist, ..next },
                            ActionModel::Persist(
                                page_file_text(
                                    h.state.spec.metadata_prefix,
                                    h.state.spec.set,
                                    h.state.page_index as nat,
                                ),
                                body,
                            ),
                        )
                    } else {
                        continue_step(next)
                    }
                },
            }
        },
    }
}

/// One step of the engine on an event it accepts.
pub open spec fn step(h: HarvesterModel, e: EventModel) -> (HarvesterModel, ActionModel) {
    match e {
        EventModel::Response(success, body) => if success {
            page_step(
                h,
                body,
                extracted(body, Field::LastRecordDatestamp),
                extracted(body, Field::ResumptionToken),
            )
        } else {
            failure_step(h)
        },
        EventModel::TransportFailed => finish(h, Outcome::Failed(HarvestError::Transport)),
        EventModel::Persisted => continue_step(h),
        EventModel::PersistFailed => finish(h, Outcome::Failed(HarvestError::Persistence)),
    }
}


impl Harvester {
    /// A harvest of `spec` that has not begun.
    pub fn new(spec: HarvestSpec, persist: bool, max_restarts: Option<u64>) -> (r: Harvester)
        ensures
            r@ == (HarvesterModel {
                state: StateModel {
                    spec: spec@,
                    last_record_date: None,
                    resumption_token: None,
                    page_index: 0,
                },
                persist,
                max_restarts,
                restarts: 0,
                phase: Phase::Ready,
            }),
    {
        Harvester {
            state: HarvestState { spec, last_record_date: None, resumption_token: None, page_index: 0 },
            persist,
            max_restarts,
            restarts: 0,
            phase: Phase::Ready,
        }
    }

    /// Whether the engine takes this event in its present phase.
    pub fn accepts(&self, event: &Event) -> (r: bool)
        ensures
            r == accepts_event(self.phase, event@),
    {
        match self.phase {
            Phase::AwaitingPage => match event {
                Event::Response { .. } | Event::TransportFailed => true,
                _ => false,
            },
            Phase::AwaitingPersist => match event {
                Event::Persisted | Event::PersistFailed => true,
                _ => false,
            },
            _ => false,
        }
    }

    fn finish(&mut self, o: Outcome) -> (r: Action)
        ensures
            (final(self)@, r@) == finish(old(self)@, o),
    {
        self.phase = Phase::Finished(o);
        Action::Stop(o)
    }

    fn request_page(&mut self, token: Option<&str>) -> (r: Action)
        ensures
            (final(self)@, r@) == request_page(old(self)@, opt_str_view(token)),
    {
        let url = build_url(&self.state.spec, token);
        self.phase = Phase::AwaitingPage;
        Action::Fetch(url)
    }

    /// Begins the harvest: requests the first page.
    pub fn start(&mut self) -> (r: Action)
        requires
            old(self).phase == Phase::Ready,
        ensures
            (final(self)@, r@) == start_step(old(self)@),
    {
        match validate_repository(self.state.spec.repository.as_str()) {
            Ok(()) => self.request_page(None),
            Err(_) => self.finish(Outcome::Failed(HarvestError::InvalidConfiguration)),
        }
    }

    fn continue_harvest(&mut self) -> (r: Action)
        ensures
            (final(self)@, r@) == continue_step(old(self)@),
    {
        let token = self.state.resumption_token.take();
        match token {
            None => self.finish(Outcome::Completed),
            Some(t) => self.request_page(Some(t.as_str())),
        }
    }

    fn may_restart(&self) -> (r: bool)
        ensures
            r == may_restart(self@),
    {
        match self.max_restarts {
            None => true,
            Some(m) => self.restarts < m,
        }
    }

    fn handle_failure(&mut self) -> (r: Action)
        ensures
            (final(self)@, r@) == failure_step(old(self)@),
    {
        if self.state.last_record_date.is_some() && self.may_restart() {
            let date = self.state.last_record_date.clone();
            self.state.spec.from = date;
            self.state.resumption_token = None;
            if self.restarts < u64::MAX {
                self.restarts = self.restarts + 1;
            }
            self.request_page(None)
        } else {
            self.finish(Outcome::Failed(HarvestError::HttpStatus))
        }
    }

    /// Decides after a good response, given the datestamp of its last record
    /// and its resumption token as read from its body: a page without records
    /// completes the harvest whatever its token; a page with records moves the
    /// checkpoint to its last datestamp, is written out unchanged if pages are
    /// persisted, and its token is followed.
    pub fn handle_page(
        &mut self,
        body: String,
        date: Result<Option<String>, ExtractError>,
        token: Result<Option<String>, ExtractError>,
    ) -> (r: Action)
        ensures
            (final(self)@, r@) == page_step(
                old(self)@,
                body@,
                field_result_view(date),
                field_result_view(token),
            ),
    {
        match date {
            Err(_) => self.finish(Outcome::Failed(HarvestError::Extract)),
            Ok(None) => self.finish(Outcome::Completed),
            Ok(Some(d)) => {
                self.state.last_record_date = Some(d);
                match token {
                    Err(_) => self.finish(Outcome::Failed(HarvestError::Extract)),
                    Ok(t) => {
                        let index = self.state.page_index;
                        self.state.resumption_token = t;
                        if index < u64::MAX {
                            self.state.page_index = index + 1;
                        }
                        if self.persist {
                            let set = match &self.state.spec.set {
                                Some(s) => Some(s.as_str()),
                                None => None,
                            };
                            let file_name = page_file_name(
                                self.state.spec.metadata_prefix.as_str(),
                                set,
                                index,
                            );
                            self.phase = Phase::AwaitingPersist;
                            Action::Persist { file_name, body }
                        } else {
                            self.continue_harvest()
                        }
                    },
                }
            },
        }
    }

    /// Takes the outcome of the last action and returns the next one.
    pub fn handle(&mut self, event: Event) -> (r: Action)
        requires
            accepts_event(old(self).phase, event@),
        ensures
            (final(self)@, r@) == step(old(self)@, event@),
    {
        match event {
            Event::Response { success, body } => {
                if success {
                    let date = extract(body.as_str(), Field::LastRecordDatestamp);
                    let token = extract(body.as_str(), Field::ResumptionToken);
                    self.handle_page(body, date, token)
                } else {
                    self.handle_failure()
                }
            },
            Event::TransportFailed => self.finish(Outcome::Failed(HarvestError::Transport)),
            Event::Persisted => self.continue_harvest(),
            Event::PersistFailed => self.finish(Outcome::Failed(HarvestError::Persistence)),
        }
    }
}


/// A harvest that has ended takes no further event, so it issues no further
/// request.
pub proof fn lemma_finished_is_final(o: Outcome, e: EventModel)
    ensures
        !accepts_event(Phase::Finished(o), e),
{
}

/// A non-success status on the first page of a harvest, before any page
/// succeeded, ends the harvest as failed.
pub proof fn lemma_first_failure_is_fatal(h: HarvesterModel, body: Seq<char>)
    requires
        h.state.last_record_date is None,
    ensures
        step(h, EventModel::Response(false, body)).0.phase
            == Phase::Finished(Outcome::Failed(HarvestError::HttpStatus)),
        step(h, EventModel::Response(false, body)).1
            == ActionModel::Stop(Outcome::Failed(HarvestError::HttpStatus)),
{
}

/// A non-success status after a good page restarts the harvest from its
/// first page, with `from` set to the datestamp of the last record seen, and
/// does not end the harvest.
pub proof fn lemma_failure_after_progress_restarts(h: HarvesterModel, body: Seq<char>, date: Seq<char>)
    requires
        h.state.last_record_date == Some(date),
        may_restart(h),
    ensures
        step(h, EventModel::Response(false, body)).1 == ActionModel::Fetch(
            list_records_url(SpecModel { from: Some(date), ..h.state.spec }, None),
        ),
        step(h, EventModel::Response(false, body)).0.phase == Phase::AwaitingPage,
        step(h, EventModel::Response(false, body)).0.state.spec == (SpecModel {
            from: Some(date),
            ..h.state.spec
        }),
        step(h, EventModel::Response(false, body)).0.state.last_record_date == Some(date),
{
}

/// A good response whose body has no record completes the harvest, whatever
/// resumption token it carries.
pub proof fn lemma_no_records_completes(
    h: HarvesterModel,
    body: Seq<char>,
    token: Result<Option<Seq<char>>, ExtractError>,
)
    ensures
        page_step(h, body, Ok(None), token).0.phase == Phase::Finished(Outcome::Completed),
        page_step(h, body, Ok(None), token).1 == ActionModel::Stop(Outcome::Completed),
{
}

/// Where pages are persisted, a good page with records is written out as the
/// response body itself, unchanged, under the name of its index.
pub proof fn lemma_persisted_page_is_raw_body(
    h: HarvesterModel,
    body: Seq<char>,
    date: Seq<char>,
    token: Option<Seq<char>>,
)
    requires
        h.persist,
    ensures
        page_step(h, body, Ok(Some(date)), Ok(token)).1 == ActionModel::Persist(
            page_file_text(h.state.spec.metadata_prefix, h.state.spec.set, h.state.page_index as nat),
            body,
        ),
{
}

/// A good page with records and a token moves the checkpoint to the page's
/// last datestamp, and the next request carries that token alone; the token
/// is consumed by it.
pub proof fn lemma_token_followed(h: HarvesterModel, body: Seq<char>, date: Seq<char>, token: Seq<char>)
    requires
        !h.persist,
    ensures
        page_step(h, body, Ok(Some(date)), Ok(Some(token))).1 == ActionModel::Fetch(
            list_records_url(h.state.spec, Some(token)),
        ),
        page_step(h, body, Ok(Some(date)), Ok(Some(token))).0.phase == Phase::AwaitingPage,
        page_step(h, body, Ok(Some(date)), Ok(Some(token))).0.state.last_record_date == Some(date),
        page_step(h, body, Ok(Some(date)), Ok(Some(token))).0.state.resumption_token is None,
{
}

/// Page indices and the restart count never go down, so no page index is
/// handed out twice.
pub proof fn lemma_counters_never_decrease(h: HarvesterModel, e: EventModel)
    ensures
        step(h, e).0.state.page_index >= h.state.page_index,
        step(h, e).0.restarts >= h.restarts,
        step(h, e).1 matches ActionModel::Persist(_, _) ==> step(h, e).0.state.page_index
            > h.state.page_index || h.state.page_index == u64::MAX,
{
}

/// The model of a harvest that has not begun.
pub open spec fn fresh(spec: SpecModel, max_restarts: Option<u64>) -> HarvesterModel {
    HarvesterModel {
        state: StateModel { spec, last_record_date: None, resumption_token: None, page_index: 0 },
        persist: false,
        max_restarts,
        restarts: 0,
        phase: Phase::Ready,
    }
}

/// A run over three good responses, the first two with records and tokens
/// `t1` and `t2`, the third without records, issues three requests in order,
/// the first page, then `t1`, then `t2`, and then completes; each response
/// arrives in a phase that takes it.
pub proof fn lemma_three_page_run(
    spec: SpecModel,
    max_restarts: Option<u64>,
    a: Seq<char>,
    b: Seq<char>,
    c: Seq<char>,
    t1: Seq<char>,
    t2: Seq<char>,
)
    requires
        is_iri(spec.repository),
        extracted(a, Field::LastRecordDatestamp) matches Ok(Some(_)),
        extracted(a, Field::ResumptionToken) == Ok::<Option<Seq<char>>, ExtractError>(Some(t1)),
        extracted(b, Field::LastRecordDatestamp) matches Ok(Some(_)),
        extracted(b, Field::ResumptionToken) == Ok::<Option<Seq<char>>, ExtractError>(Some(t2)),
        extracted(c, Field::LastRecordDatestamp) == Ok::<Option<Seq<char>>, ExtractError>(None),
    ensures
        ({
            let (h1, r1) = start_step(fresh(spec, max_restarts));
            let (h2, r2) = step(h1, EventModel::Response(true, a));
            let (h3, r3) = step(h2, EventModel::Response(true, b));
            let (h4, r4) = step(h3, EventModel::Response(true, c));
            &&& accepts_event(h1.phase, EventModel::Response(true, a))
            &&& accepts_event(h2.phase, EventModel::Response(true, b))
            &&& accepts_event(h3.phase, EventModel::Response(true, c))
            &&& r1 == ActionModel::Fetch(list_records_url(spec, None))
            &&& r2 == ActionModel::Fetch(list_records_url(spec, Some(t1)))
            &&& r3 == ActionModel::Fetch(list_records_url(spec, Some(t2)))
            &&& r4 == ActionModel::Stop(Outcome::Completed)
            &&& h4.phase == Phase::Finished(Outcome::Completed)
        }),
{
}


/// The delay before the restart that follows `restarts` earlier ones: one
/// second, doubled at each restart, and never more than `cap`.
pub open spec fn backoff(restarts: nat, cap: nat) -> nat
    decreases restarts,
{
    if restarts == 0 {
        if 1 < cap { 1 } else { cap }
    } else {
        let doubled = 2 * backoff((restarts - 1) as nat, cap);
        if doubled < cap { doubled } else { cap }
    }
}

proof fn lemma_backoff_stays_at_cap(i: nat, n: nat, cap: nat)
    requires
        i <= n,
        backoff(i, cap) == cap,
    ensures
        backoff(n, cap) == cap,
    decreases n - i,
{
    if i < n {
        lemma_backoff_stays_at_cap(i + 1, n, cap);
    }
}

/// The number of seconds to wait before a restart, after `restarts` earlier
/// restarts, with the wait capped at `cap` seconds.
pub fn backoff_seconds(restarts: u64, cap: u64) -> (r: u64)
    ensures
        r == backoff(restarts as nat, cap as nat),
{
    let mut delay: u64 = if 1 < cap { 1 } else { cap };
    let mut i: u64 = 0;
    while i < restarts && delay < cap
        invariant
            i <= restarts,
            delay <= cap,
            delay == backoff(i as nat, cap as nat),
        decreases restarts - i,
    {
        if delay >= cap - delay {
            delay = cap;
        } else {
            delay = delay + delay;
        }
        i = i + 1;
    }
    proof {
        if i < restarts {
            lemma_backoff_stays_at_cap(i as nat, restarts as nat, cap as nat);
        }
    }
    delay
}

/// A run whose first request fails with a non-success status issues that one
/// request and ends as failed, taking no further event.
pub proof fn lemma_first_page_failure_run(
    spec: SpecModel,
    max_restarts: Option<u64>,
    body: Seq<char>,
    later: EventModel,
)
    requires
        is_iri(spec.repository),
    ensures
        ({
            let (h1, r1) = start_step(fresh(spec, max_restarts));
            let (h2, r2) = step(h1, EventModel::Response(false, body));
            &&& r1 == ActionModel::Fetch(list_records_url(spec, None))
            &&& accepts_event(h1.phase, EventModel::Response(false, body))
            &&& r2 == ActionModel::Stop(Outcome::Failed(HarvestError::HttpStatus))
            &&& h2.phase == Phase::Finished(Outcome::Failed(HarvestError::HttpStatus))
            &&& !accepts_event(h2.phase, later)
        }),
{
}

/// A run whose first page has no record completes after that one request,
/// whatever token the page carries, and takes no further event.
pub proof fn lemma_no_records_run(
    spec: SpecModel,
    max_restarts: Option<u64>,
    body: Seq<char>,
    later: EventModel,
)
    requires
        is_iri(spec.repository),
        extracted(body, Field::LastRecordDatestamp) == Ok::<Option<Seq<char>>, ExtractError>(None),
    ensures
        ({
            let (h1, r1) = start_step(fresh(spec, max_restarts));
            let (h2, r2) = step(h1, EventModel::Response(true, body));
            &&& r1 == ActionModel::Fetch(list_records_url(spec, None))
            &&& accepts_event(h1.phase, EventModel::Response(true, body))
            &&& r2 == ActionModel::Stop(Outcome::Completed)
            &&& h2.phase == Phase::Finished(Outcome::Completed)
            &&& !accepts_event(h2.phase, later)
        }),
{
}

/// A run whose first page has records up to datestamp `da` and token `t1`,
/// and whose next request fails with a non-success status, restarts from the
/// first page with `from` set to `da`, keeping prefix, set and until; the
/// failure does not end the run, and a restarted page with records and no
/// token completes it.
pub proof fn lemma_restart_run(
    spec: SpecModel,
    max_restarts: Option<u64>,
    a: Seq<char>,
    da: Seq<char>,
    t1: Seq<char>,
    failure: Seq<char>,
    b: Seq<char>,
)
    requires
        is_iri(spec.repository),
        max_restarts matches Some(m) ==> m > 0,
        extracted(a, Field::LastRecordDatestamp) == Ok::<Option<Seq<char>>, ExtractError>(Some(da)),
        extracted(a, Field::ResumptionToken) == Ok::<Option<Seq<char>>, ExtractError>(Some(t1)),
        extracted(b, Field::LastRecordDatestamp) matches Ok(Some(_)),
        extracted(b, Field::ResumptionToken) == Ok::<Option<Seq<char>>, ExtractError>(None),
    ensures
        ({
            let (h1, r1) = start_step(fresh(spec, max_restarts));
            let (h2, r2) = step(h1, EventModel::Response(true, a));
            let (h3, r3) = step(h2, EventModel::Response(false, failure));
            let (h4, r4) = step(h3, EventModel::Response(true, b));
            &&& r1 == ActionModel::Fetch(list_records_url(spec, None))
            &&& r2 == ActionModel::Fetch(list_records_url(spec, Some(t1)))
            &&& accepts_event(h2.phase, EventModel::Response(false, failure))
            &&& r3 == ActionModel::Fetch(list_records_url(SpecModel { from: Some(da), ..spec }, None))
            &&& h3.phase == Phase::AwaitingPage
            &&& accepts_event(h3.phase, EventModel::Response(true, b))
            &&& r4 == ActionModel::Stop(Outcome::Completed)
            &&& h4.phase == Phase::Finished(Outcome::Completed)
        }),
{
}

} // verus!
