//! One run of the updater, as a machine that is driven from outside.
//!
//! A run asks for at most three things, in this order: the public address
//! of this host, the record as the provider holds it, and a write of the
//! record. The machine names the next request; the caller sends it and
//! reports what happened; the machine decides what follows. Nothing is
//! retried: the first failure ends the run.

use crate::error::Error;
use crate::gandi::{
    api_headers, decoded_view, ip_result_view, json_string_text, record_ip, record_url_text,
    upsert_body_text, upsert_outcome, DnsRecord, DnsRecordView, GandiClient, GANDI_BASE_URL,
    STATUS_CREATED,
};
use crate::http::{HttpRequest, HttpRequestView, Method};
use crate::resolver::{public_ip_from_body, trim_newlines, PUBLIC_IP_URL};
use crate::settings::{Settings, SettingsView};
use vstd::prelude::*;
use vstd::string::*;

verus! {

/// How a run ended well.
#[derive(Debug, Clone, Copy, PartialEq, Eq, Structural)]
pub enum Outcome {
    /// The record already held the address; nothing was written.
    InSync,
    /// No record was declared; one was written.
    Created,
    /// The record held another address; it was replaced.
    Updated,
}

/// Where a run stands: what it waits for.
#[derive(Debug, Clone, PartialEq, Eq)]
pub enum Phase {
    /// The public address was asked for.
    ResolvingIp,
    /// The record was asked for; `ip` is the address it should hold.
    ReadingRecord { ip: String },
    /// A write was sent for a name that held no record.
    CreatingRecord,
    /// A write was sent for a record that held another address.
    UpdatingRecord,
    /// The run is over.
    Done,
}

/// What `Phase` stands for.
pub enum PhaseView {
    ResolvingIp,
    ReadingRecord { ip: Seq<char> },
    CreatingRecord,
    UpdatingRecord,
    Done,
}

impl View for Phase {
    type V = PhaseView;

    open spec fn view(&self) -> PhaseView {
        match self {
            Phase::ResolvingIp => PhaseView::ResolvingIp,
            Phase::ReadingRecord { ip } => PhaseView::ReadingRecord { ip: ip@ },
            Phase::CreatingRecord => PhaseView::CreatingRecord,
            Phase::UpdatingRecord => PhaseView::UpdatingRecord,
            Phase::Done => PhaseView::Done,
        }
    }
}

/// What happened to the request that was sent last.
#[derive(Debug, Clone, PartialEq, Eq)]
pub enum Event {
    /// It could not be completed.
    Failed,
    /// The address service answered with `body`, whatever the status.
    PublicIp { body: String },
    /// The provider answered a read with `status`; `records` is its body
    /// where that is a list of records.
    Record { status: u16, records: Option<Vec<DnsRecord>> },
    /// The provider answered a write with `status`.
    Written { status: u16 },
}

/// What `Event` stands for.
pub enum EventView {
    Failed,
    PublicIp { body: Seq<char> },
    Record { status: u16, records: Option<Seq<DnsRecordView>> },
    Written { status: u16 },
}

impl View for Event {
    type V = EventView;

    open spec fn view(&self) -> EventView {
        match self {
            Event::Failed => EventView::Failed,
            Event::PublicIp { body } => EventView::PublicIp { body: body@ },
            Event::Record { status, records } => EventView::Record {
                status: *status,
                records: decoded_view(*records),
            },
            Event::Written { status } => EventView::Written { status: *status },
        }
    }
}

/// What the caller is to do next.
#[derive(Debug, Clone, PartialEq, Eq)]
pub enum Action {
    /// Send `request` and report its body as `Event::PublicIp`.
    ResolveIp { request: HttpRequest },
    /// Send `request` and report the reply as `Event::Record`.
    ReadRecord { request: HttpRequest },
    /// Send `request` and report the status as `Event::Written`.
    /// `previous` is the address that the record held, if it was declared.
    WriteRecord { request: HttpRequest, previous: Option<String> },
    /// Stop: the record is right.
    Finish { outcome: Outcome },
    /// Stop: the run failed.
    Fail { error: Error },
}

/// What `Action` stands for.
pub enum ActionView {
    ResolveIp { request: HttpRequestView },
    ReadRecord { request: HttpRequestView },
    WriteRecord { request: HttpRequestView, previous: Option<Seq<char>> },
    Finish { outcome: Outcome },
    Fail { error: Error },
}

impl View for Action {
    type V = ActionView;

    open spec fn view(&self) -> ActionView {
        match self {
            Action::ResolveIp { request } => ActionView::ResolveIp { request: request@ },
            Action::ReadRecord { request } => ActionView::ReadRecord { request: request@ },
            Action::WriteRecord { request, previous } => ActionView::WriteRecord {
                request: request@,
                previous: match previous {
                    Some(ip) => Some(ip@),
                    None => None,
                },
            },
            Action::Finish { outcome } => ActionView::Finish { outcome: *outcome },
            Action::Fail { error } => ActionView::Fail { error: *error },
        }
    }
}

/// What a run works on: the provider, the one record, and the address to
/// publish where the configuration gives one.
#[derive(Debug, Clone, PartialEq, Eq)]
pub struct Reconciler {
    pub client: GandiClient,
    pub domain: String,
    pub record: String,
    pub ip: Option<String>,
}

/// What `Reconciler` stands for.
pub struct ReconcilerView {
    pub base_url: Seq<char>,
    pub token: Seq<char>,
    pub domain: Seq<char>,
    pub record: Seq<char>,
    pub ip: Option<Seq<char>>,
}

impl View for Reconciler {
    type V = ReconcilerView;

    open spec fn view(&self) -> ReconcilerView {
        ReconcilerView {
            base_url: self.client.base_url@,
            token: self.client.token@,
            domain: self.domain@,
            record: self.record@,
            ip: match self.ip {
                Some(ip) => Some(ip@),
                None => None,
            },
        }
    }
}

/// The request for the public address: a plain GET of the address service.
pub open spec fn resolve_request() -> HttpRequestView {
    HttpRequestView { method: Method::Get, url: PUBLIC_IP_URL@, headers: Seq::empty(), body: None }
}

/// The request that reads the record.
pub open spec fn read_request(run: ReconcilerView) -> HttpRequestView {
    HttpRequestView {
        method: Method::Get,
        url: record_url_text(run.base_url, run.domain, run.record),
        headers: api_headers(run.token),
        body: None,
    }
}

/// The request that writes `ip` to the record.
pub open spec fn write_request(run: ReconcilerView, ip: Seq<char>) -> HttpRequestView {
    HttpRequestView {
        method: Method::Put,
        url: record_url_text(run.base_url, run.domain, run.record),
        headers: api_headers(run.token),
        body: Some(upsert_body_text(json_string_text(ip))),
    }
}

/// Once the address to publish is known, the record is read.
pub open spec fn read_next(run: ReconcilerView, ip: Seq<char>) -> (PhaseView, ActionView) {
    (PhaseView::ReadingRecord { ip }, ActionView::ReadRecord { request: read_request(run) })
}

/// A failure ends the run.
pub open spec fn fail_with(error: Error) -> (PhaseView, ActionView) {
    (PhaseView::Done, ActionView::Fail { error })
}

/// How a run begins. A configured address stands: the address service is
/// not asked, and the record is read at once. Without one the public
/// address is asked for first.
pub open spec fn start(run: ReconcilerView) -> (PhaseView, ActionView) {
    match run.ip {
        Some(ip) => read_next(run, ip),
        None => (PhaseView::ResolvingIp, ActionView::ResolveIp { request: resolve_request() }),
    }
}

/// What follows a read that found `found`, when the record should hold
/// `ip`. No record: it is written. The same address: nothing is written.
/// Another address: it is replaced. A read that failed ends the run.
pub open spec fn after_read(
    run: ReconcilerView,
    ip: Seq<char>,
    found: Result<Option<Seq<char>>, Error>,
) -> (PhaseView, ActionView) {
    match found {
        Err(error) => fail_with(error),
        Ok(None) => (
            PhaseView::CreatingRecord,
            ActionView::WriteRecord { request: write_request(run, ip), previous: None },
        ),
        Ok(Some(current)) => if current == ip {
            (PhaseView::Done, ActionView::Finish { outcome: Outcome::InSync })
        } else {
            (
                PhaseView::UpdatingRecord,
                ActionView::WriteRecord { request: write_request(run, ip), previous: Some(current) },
            )
        },
    }
}

/// What follows a write that was answered with `status`, where `outcome`
/// is what its success means.
pub open spec fn after_write(outcome: Outcome, status: u16) -> (PhaseView, ActionView) {
    match upsert_outcome(status) {
        Ok(_) => (PhaseView::Done, ActionView::Finish { outcome }),
        Err(error) => fail_with(error),
    }
}

/// Whether `event` can be the fate of the request that `phase` waits for.
pub open spec fn awaits(phase: PhaseView, event: EventView) -> bool {
    match phase {
        PhaseView::ResolvingIp => event is Failed || event is PublicIp,
        PhaseView::ReadingRecord { .. } => event is Failed || event is Record,
        PhaseView::CreatingRecord => event is Failed || event is Written,
        PhaseView::UpdatingRecord => event is Failed || event is Written,
        PhaseView::Done => false,
    }
}

/// The phase and the action that follow `event`, for a phase that waits
/// for such an event.
pub open spec fn next(run: ReconcilerView, phase: PhaseView, event: EventView) -> (
    PhaseView,
    ActionView,
) {
    match event {
        EventView::Failed => fail_with(Error::Network),
        EventView::PublicIp { body } => read_next(run, trim_newlines(body)),
        EventView::Record { status, records } => after_read(
            run,
            phase->ip,
            record_ip(status, records),
        ),
        EventView::Written { status } => after_write(
            if phase is CreatingRecord {
                Outcome::Created
            } else {
                Outcome::Updated
            },
            status,
        ),
    }
}

/// The phase and the action that follow `event` in `phase`; `None` where
/// the phase does not wait for such an event.
pub open spec fn step(run: ReconcilerView, phase: PhaseView, event: EventView) -> Option<
    (PhaseView, ActionView),
> {
    if awaits(phase, event) {
        Some(next(run, phase, event))
    } else {
        None
    }
}

/// The most requests that a run in `phase` may still send, the one that it
/// waits for included.
pub open spec fn requests_left(phase: PhaseView) -> nat {
    match phase {
        PhaseView::ResolvingIp => 3,
        PhaseView::ReadingRecord { .. } => 2,
        PhaseView::CreatingRecord => 1,
        PhaseView::UpdatingRecord => 1,
        PhaseView::Done => 0,
    }
}

/// Whether `action` is what a caller is told on entering `phase`: each
/// phase but the last waits for the request of its own kind, and the last
/// is entered with the word to stop.
pub open spec fn enters(action: ActionView, phase: PhaseView) -> bool {
    match phase {
        PhaseView::ResolvingIp => action is ResolveIp,
        PhaseView::ReadingRecord { .. } => action is ReadRecord,
        PhaseView::CreatingRecord => action is WriteRecord && action->previous is None,
        PhaseView::UpdatingRecord => action is WriteRecord && action->previous is Some,
        PhaseView::Done => action is Finish || action is Fail,
    }
}

/// A run begins with a request, and a configured address keeps the address
/// service out of it: the record is read at once, for that address.
pub proof fn lemma_start(run: ReconcilerView)
    ensures
        enters(start(run).1, start(run).0),
        run.ip is Some ==> start(run) == read_next(run, run.ip->0),
        run.ip is None ==> start(run).0 is ResolvingIp,
{
}

/// Every step brings a run nearer its end, so a run sends three requests
/// at most, in the order address, read, write; and the address service is
/// never asked by a step: only a run that starts without an address asks
/// it, once.
pub proof fn lemma_step_advances(run: ReconcilerView, phase: PhaseView, event: EventView)
    requires
        awaits(phase, event),
    ensures
        step(run, phase, event) == Some(next(run, phase, event)),
        requests_left(next(run, phase, event).0) < requests_left(phase),
        enters(next(run, phase, event).1, next(run, phase, event).0),
        !(next(run, phase, event).1 is ResolveIp),
{
}

/// A request that could not be completed ends the run, and no write
/// follows it.
pub proof fn lemma_failure_is_final(run: ReconcilerView, phase: PhaseView)
    requires
        !(phase is Done),
    ensures
        step(run, phase, EventView::Failed) == Some(fail_with(Error::Network)),
{
}

/// A write is asked for only on a read that succeeded and found either no
/// record or another address than the one to publish; it then carries that
/// address as its one value, and what the record held before.
pub proof fn lemma_write_only_when_needed(run: ReconcilerView, phase: PhaseView, event: EventView)
    requires
        awaits(phase, event),
        next(run, phase, event).1 is WriteRecord,
    ensures
        phase is ReadingRecord,
        event is Record,
        record_ip(event->Record_status, event->records) is Ok,
        record_ip(event->Record_status, event->records)->Ok_0 != Some(phase->ip),
        next(run, phase, event).1 == (ActionView::WriteRecord {
            request: write_request(run, phase->ip),
            previous: record_ip(event->Record_status, event->records)->Ok_0,
        }),
{
}

/// A record that already holds the address ends the run in sync, with
/// nothing written.
pub proof fn lemma_in_sync_writes_nothing(
    run: ReconcilerView,
    ip: Seq<char>,
    status: u16,
    records: Option<Seq<DnsRecordView>>,
)
    requires
        record_ip(status, records) == Ok::<Option<Seq<char>>, Error>(Some(ip)),
    ensures
        step(run, PhaseView::ReadingRecord { ip }, EventView::Record { status, records }) == Some(
            (PhaseView::Done, ActionView::Finish { outcome: Outcome::InSync }),
        ),
{
}

/// A read that fails ends the run with the error of the read, and nothing
/// is written: so it goes with more than one record under the name.
pub proof fn lemma_failed_read_writes_nothing(
    run: ReconcilerView,
    ip: Seq<char>,
    status: u16,
    records: Option<Seq<DnsRecordView>>,
)
    requires
        record_ip(status, records) is Err,
    ensures
        step(run, PhaseView::ReadingRecord { ip }, EventView::Record { status, records }) == Some(
            fail_with(record_ip(status, records)->Err_0),
        ),
{
}

/// A write that is answered with 201 ends the run well, as a creation or
/// as an update according to what the read had found; any other status
/// fails it.
pub proof fn lemma_write_outcome(run: ReconcilerView, phase: PhaseView, status: u16)
    requires
        phase is CreatingRecord || phase is UpdatingRecord,
    ensures
        status == STATUS_CREATED ==> step(
            run,
            phase,
            EventView::Written { status },
        ) == Some(
            (
                PhaseView::Done,
                ActionView::Finish {
                    outcome: if phase is CreatingRecord {
                        Outcome::Created
                    } else {
                        Outcome::Updated
                    },
                },
            ),
        ),
        status != STATUS_CREATED ==> step(
            run,
            phase,
            EventView::Written { status },
        ) == Some(fail_with(Error::UnexpectedStatus { status })),
{
}

/// Where an action stands in the order of a run: the request for the
/// public address comes before the read, the read before the write, and
/// the word to stop comes last.
pub open spec fn action_rank(action: ActionView) -> nat {
    match action {
        ActionView::ResolveIp { .. } => 3,
        ActionView::ReadRecord { .. } => 2,
        ActionView::WriteRecord { .. } => 1,
        ActionView::Finish { .. } => 0,
        ActionView::Fail { .. } => 0,
    }
}

/// The actions that a run in `phase` takes as `events` arrive in turn. The
/// run takes no notice of what arrives once an event is out of turn.
pub open spec fn actions_from(run: ReconcilerView, phase: PhaseView, events: Seq<EventView>) -> Seq<
    ActionView,
>
    decreases events.len(),
{
    if events.len() == 0 || !awaits(phase, events.first()) {
        Seq::empty()
    } else {
        seq![next(run, phase, events.first()).1] + actions_from(
            run,
            next(run, phase, events.first()).0,
            events.drop_first(),
        )
    }
}

/// All the actions of a run to which `events` happen: the first one, then
/// one for each event.
pub open spec fn run_actions(run: ReconcilerView, events: Seq<EventView>) -> Seq<ActionView> {
    seq![start(run).1] + actions_from(run, start(run).0, events)
}

/// From any phase on, each action comes earlier in the order of a run than
/// all that follow it, and all of them come after the request that the
/// phase waits for.
pub proof fn lemma_actions_from_in_order(
    run: ReconcilerView,
    phase: PhaseView,
    events: Seq<EventView>,
)
    ensures
        forall|k: int|
            0 <= k < actions_from(run, phase, events).len() ==> action_rank(
                #[trigger] actions_from(run, phase, events)[k],
            ) < requests_left(phase),
        forall|i: int, j: int|
            0 <= i < j < actions_from(run, phase, events).len() ==> action_rank(
                #[trigger] actions_from(run, phase, events)[i],
            ) > action_rank(#[trigger] actions_from(run, phase, events)[j]),
    decreases events.len(),
{
    if events.len() > 0 && awaits(phase, events.first()) {
        let after = next(run, phase, events.first());
        lemma_step_advances(run, phase, events.first());
        lemma_actions_from_in_order(run, after.0, events.drop_first());
        let rest = actions_from(run, after.0, events.drop_first());
        let all = actions_from(run, phase, events);
        assert(all =~= seq![after.1] + rest);
        assert(action_rank(after.1) == requests_left(after.0));
        assert forall|k: int| 0 <= k < all.len() implies action_rank(#[trigger] all[k])
            < requests_left(phase) by {
            if k > 0 {
                assert(all[k] == rest[k - 1]);
            }
        }
        assert forall|i: int, j: int| 0 <= i < j < all.len() implies action_rank(#[trigger] all[i])
            > action_rank(#[trigger] all[j]) by {
            assert(all[j] == rest[j - 1]);
            if i > 0 {
                assert(all[i] == rest[i - 1]);
            }
        }
    }
}

/// Whatever happens to its requests, a run acts in order: the address is
/// asked for before the record is read, the record is read before it is
/// written, and nothing follows the word to stop. So each request is sent
/// once at most, and a run is over after four actions.
pub proof fn lemma_run_in_order(run: ReconcilerView, events: Seq<EventView>, i: int, j: int)
    requires
        0 <= i < j < run_actions(run, events).len(),
    ensures
        action_rank(run_actions(run, events)[i]) > action_rank(run_actions(run, events)[j]),
        run_actions(run, events).len() <= 4,
{
    lemma_start(run);
    lemma_actions_from_in_order(run, start(run).0, events);
    let rest = actions_from(run, start(run).0, events);
    let all = run_actions(run, events);
    assert(all[j] == rest[j - 1]);
    if i > 0 {
        assert(all[i] == rest[i - 1]);
    }
    if all.len() > 4 {
        assert(action_rank(rest[0]) > action_rank(rest[1]));
        assert(action_rank(rest[1]) > action_rank(rest[2]));
        assert(action_rank(rest[2]) > action_rank(rest[3]));
    }
}

/// With a configured address the address service is asked at no point of a
/// run, whatever happens.
pub proof fn lemma_configured_ip_is_never_resolved(
    run: ReconcilerView,
    events: Seq<EventView>,
    i: int,
)
    requires
        run.ip is Some,
        0 <= i < run_actions(run, events).len(),
    ensures
        !(run_actions(run, events)[i] is ResolveIp),
{
    lemma_start(run);
    lemma_actions_from_in_order(run, start(run).0, events);
    if i > 0 {
        assert(run_actions(run, events)[i] == actions_from(run, start(run).0, events)[i - 1]);
    }
}

/// A phase and an action as the contracts see them.
pub open spec fn pair_view(pair: (Phase, Action)) -> (PhaseView, ActionView) {
    (pair.0@, pair.1@)
}

/// The result of a step as the contracts see it.
pub open spec fn step_view(result: Option<(Phase, Action)>) -> Option<(PhaseView, ActionView)> {
    match result {
        Some(pair) => Some(pair_view(pair)),
        None => None,
    }
}

impl Phase {
    /// Whether `event` can be the fate of the request that this phase waits
    /// for.
    pub fn awaits(&self, event: &Event) -> (yes: bool)
        ensures
            yes == awaits(self@, event@),
    {
        match self {
            Phase::ResolvingIp => match event {
                Event::Failed => true,
                Event::PublicIp { .. } => true,
                _ => false,
            },
            Phase::ReadingRecord { .. } => match event {
                Event::Failed => true,
                Event::Record { .. } => true,
                _ => false,
            },
            Phase::CreatingRecord => match event {
                Event::Failed => true,
                Event::Written { .. } => true,
                _ => false,
            },
            Phase::UpdatingRecord => match event {
                Event::Failed => true,
                Event::Written { .. } => true,
                _ => false,
            },
            Phase::Done => false,
        }
    }

    /// Whether the run is over.
    pub fn is_done(&self) -> (yes: bool)
        ensures
            yes == (self@ is Done),
    {
        match self {
            Phase::Done => true,
            _ => false,
        }
    }
}

impl Reconciler {
    /// A run for `settings`, against the provider's public API.
    pub fn new(settings: Settings) -> (run: Reconciler)
        ensures
            run@ == (ReconcilerView {
                base_url: GANDI_BASE_URL@,
                token: settings@.api_key,
                domain: settings@.domain,
                record: settings@.record,
                ip: settings@.ip,
            }),
    {
        let client = GandiClient::new(GANDI_BASE_URL, settings.api_key.as_str());
        Reconciler { client, domain: settings.domain, record: settings.record, ip: settings.ip }
    }

    /// The phase that reads the record for `ip`, and the request to send.
    fn read_next(&self, ip: String) -> (next: (Phase, Action))
        ensures
            pair_view(next) == read_next(self@, ip@),
    {
        let request = self.client.get_record_request(self.domain.as_str(), self.record.as_str());
        (Phase::ReadingRecord { ip }, Action::ReadRecord { request })
    }

    /// The first phase of a run, and the first thing to do.
    pub fn start(&self) -> (first: (Phase, Action))
        ensures
            pair_view(first) == start(self@),
    {
        match &self.ip {
            Some(ip) => self.read_next(ip.clone()),
            None => {
                let request = HttpRequest {
                    method: Method::Get,
                    url: String::from_str(PUBLIC_IP_URL),
                    headers: Vec::new(),
                    body: None,
                };
                assert(request@.headers =~= Seq::empty());
                (Phase::ResolvingIp, Action::ResolveIp { request })
            },
        }
    }

    /// What follows a read of the record, judged to have found `found`,
    /// when the record should hold `ip`.
    fn after_read(&self, ip: String, found: Result<Option<String>, Error>) -> (next: (
        Phase,
        Action,
    ))
        ensures
            pair_view(next) == after_read(self@, ip@, ip_result_view(found)),
    {
        match found {
            Err(error) => (Phase::Done, Action::Fail { error }),
            Ok(None) => {
                let request = self.client.upsert_request(
                    self.domain.as_str(),
                    self.record.as_str(),
                    ip.as_str(),
                );
                (Phase::CreatingRecord, Action::WriteRecord { request, previous: None })
            },
            Ok(Some(current)) => {
                if current == ip {
                    (Phase::Done, Action::Finish { outcome: Outcome::InSync })
                } else {
                    let request = self.client.upsert_request(
                        self.domain.as_str(),
                        self.record.as_str(),
                        ip.as_str(),
                    );
                    (Phase::UpdatingRecord, Action::WriteRecord { request, previous: Some(current) })
                }
            },
        }
    }

    /// What follows a write that was answered with `status`, where
    /// `outcome` is what its success means.
    fn after_write(&self, outcome: Outcome, status: u16) -> (next: (Phase, Action))
        ensures
            pair_view(next) == after_write(outcome, status),
    {
        match self.client.upsert_record(status) {
            Ok(_) => (Phase::Done, Action::Finish { outcome }),
            Err(error) => (Phase::Done, Action::Fail { error }),
        }
    }

    /// The phase and the action that follow `event` in `phase`. `None`
    /// tells that `phase` does not wait for such an event: then nothing was
    /// decided.
    pub fn step(&self, phase: Phase, event: Event) -> (result: Option<(Phase, Action)>)
        ensures
            step_view(result) == step(self@, phase@, event@),
    {
        if !phase.awaits(&event) {
            return None;
        }
        match event {
            Event::Failed => Some((Phase::Done, Action::Fail { error: Error::Network })),
            Event::PublicIp { body } => {
                let ip = public_ip_from_body(body.as_str());
                Some(self.read_next(ip))
            },
            Event::Record { status, records } => {
                match phase {
                    Phase::ReadingRecord { ip } => {
                        let found = self.client.get_record_ip(status, records);
                        Some(self.after_read(ip, found))
                    },
                    _ => None,
                }
            },
            Event::Written { status } => {
                match phase {
                    Phase::CreatingRecord => Some(self.after_write(Outcome::Created, status)),
                    _ => Some(self.after_write(Outcome::Updated, status)),
                }
            },
        }
    }
}

} // verus!
