//! One reconciliation cycle as a state machine.
//!
//! The machine never talks to the network. Each call of [`Reconciler::step`]
//! takes what came of the previous request (an [`Event`]) and returns the next
//! thing to do (an [`Action`]): a provider request, a wait, or the cycle's
//! outcome. Time reaches the machine only as clock readings inside events.

use vstd::prelude::*;

use crate::text::{
    normalize_dns_name, normalized_name, strip_prefix_repeated, strip_repeated,
};

verus! {

/// Time-to-live, in seconds, of the record written by an update.
pub const RECORD_TTL: u64 = 900;

/// How long a pending change is polled before the cycle gives up, in milliseconds.
pub const POLL_BUDGET_MS: u64 = 60000;

/// Pause between two polls of a pending change, in seconds.
pub const POLL_INTERVAL_SECS: u64 = 1;

/// Why a cycle failed. Each kind stays distinct for the caller.
#[derive(PartialEq, Eq, Structural, Clone, Copy, Debug)]
pub enum ErrorKind {
    /// The address source or the provider's transport could not be reached.
    Network,
    /// The provider answered a request with an error.
    Provider,
    /// The provider's data is outside what one cycle handles: no single zone,
    /// a truncated listing, or a record that does not hold exactly one value.
    Configuration,
    /// The zone holds no A record of the name.
    NotFound,
    /// A change reported a status other than `PENDING` or `INSYNC`.
    Protocol,
    /// A pending change did not reach `INSYNC` within the polling budget.
    Timeout,
}

/// Where a cycle stands: which answer it waits for.
#[derive(PartialEq, Eq, Structural, Clone, Copy, Debug)]
pub enum Phase {
    ResolvingIp,
    FindingZone,
    FindingRecord,
    Submitting,
    Polling,
    Waiting,
    Done,
}

/// The provider's status of a submitted change, sorted into what the cycle
/// tells apart.
#[derive(PartialEq, Eq, Structural, Clone, Copy, Debug)]
pub enum ChangeStatus {
    InSync,
    Pending,
    Other,
}

/// An existing resource record set, as the provider lists it.
#[derive(Clone, Debug)]
pub struct RecordSet {
    pub name: String,
    pub record_type: String,
    pub values: Option<Vec<String>>,
}

/// A change to submit to the provider.
#[derive(Clone, Debug)]
pub struct ChangeRequest {
    pub hosted_zone_id: String,
    pub comment: String,
    pub action: String,
    pub name: String,
    pub record_type: String,
    pub values: Vec<String>,
    pub ttl: u64,
}

/// What came of the request that the machine asked for last.
#[derive(Clone, Debug)]
pub enum Event {
    /// The caller's public address, as the address source returned it.
    IpResolved { ip: String },
    /// Identifiers of the zones found for the name, and whether the listing
    /// was cut short.
    ZonesListed { truncated: bool, zone_ids: Vec<String> },
    /// The zone's record sets, and whether the listing was cut short.
    RecordsListed { truncated: bool, record_sets: Vec<RecordSet> },
    /// A change was accepted; `now_ms` is the clock reading on its return.
    ChangeSubmitted { change_id: String, status: String, now_ms: u64 },
    /// The current status of the change being polled.
    ChangePolled { status: String },
    /// The pause between polls is over; `now_ms` is the clock reading.
    Woke { now_ms: u64 },
    /// The last request failed outright.
    Failed { kind: ErrorKind },
}

/// What the driver is to do next.
#[derive(Debug)]
pub enum Action {
    /// Look up the hosted zone of the name, asking for one result.
    ListZones { dns_name: String },
    /// List the record sets of the zone (one page).
    ListRecords { hosted_zone_id: String },
    /// Submit the change.
    Submit { request: ChangeRequest },
    /// Ask for the change's current status.
    Poll { change_id: String },
    /// Pause before the next poll.
    Wait { seconds: u64 },
    /// The cycle is over: `Ok(true)` when the record was updated,
    /// `Ok(false)` when no update was needed.
    Finish { outcome: Result<bool, ErrorKind> },
}

/// The state of one cycle.
#[derive(Clone, Debug)]
pub struct Reconciler {
    pub phase: Phase,
    pub dns_name: String,
    pub ip: String,
    pub hosted_zone_id: String,
    pub change_id: String,
    pub poll_start_ms: u64,
}

// ---------------------------------------------------------------------------
// Mathematical models

pub struct RecordSetModel {
    pub name: Seq<char>,
    pub record_type: Seq<char>,
    pub values: Option<Seq<Seq<char>>>,
}

pub struct ChangeRequestModel {
    pub hosted_zone_id: Seq<char>,
    pub comment: Seq<char>,
    pub action: Seq<char>,
    pub name: Seq<char>,
    pub record_type: Seq<char>,
    pub values: Seq<Seq<char>>,
    pub ttl: nat,
}

pub enum EventModel {
    IpResolved { ip: Seq<char> },
    ZonesListed { truncated: bool, zone_ids: Seq<Seq<char>> },
    RecordsListed { truncated: bool, record_sets: Seq<RecordSetModel> },
    ChangeSubmitted { change_id: Seq<char>, status: Seq<char>, now_ms: nat },
    ChangePolled { status: Seq<char> },
    Woke { now_ms: nat },
    Failed { kind: ErrorKind },
}

pub enum ActionModel {
    ListZones { dns_name: Seq<char> },
    ListRecords { hosted_zone_id: Seq<char> },
    Submit { request: ChangeRequestModel },
    Poll { change_id: Seq<char> },
    Wait { seconds: nat },
    Finish { outcome: Result<bool, ErrorKind> },
}

pub struct ReconcilerModel {
    pub phase: Phase,
    pub dns_name: Seq<char>,
    pub ip: Seq<char>,
    pub hosted_zone_id: Seq<char>,
    pub change_id: Seq<char>,
    pub poll_start_ms: nat,
}

pub open spec fn strings_view(v: Seq<String>) -> Seq<Seq<char>> {
    v.map_values(|s: String| s@)
}

pub open spec fn sets_view(v: Seq<RecordSet>) -> Seq<RecordSetModel> {
    v.map_values(|r: RecordSet| r@)
}

impl View for RecordSet {
    type V = RecordSetModel;

    open spec fn view(&self) -> RecordSetModel {
        RecordSetModel {
            name: self.name@,
            record_type: self.record_type@,
            values: match self.values {
                Some(v) => Some(strings_view(v@)),
                None => None,
            },
        }
    }
}

impl View for ChangeRequest {
    type V = ChangeRequestModel;

    open spec fn view(&self) -> ChangeRequestModel {
        ChangeRequestModel {
            hosted_zone_id: self.hosted_zone_id@,
            comment: self.comment@,
            action: self.action@,
            name: self.name@,
            record_type: self.record_type@,
            values: strings_view(self.values@),
            ttl: self.ttl as nat,
        }
    }
}

impl View for Event {
    type V = EventModel;

    open spec fn view(&self) -> EventModel {
        match self {
            Event::IpResolved { ip } => EventModel::IpResolved { ip: ip@ },
            Event::ZonesListed { truncated, zone_ids } => EventModel::ZonesListed {
                truncated: *truncated,
                zone_ids: strings_view(zone_ids@),
            },
            Event::RecordsListed { truncated, record_sets } => EventModel::RecordsListed {
                truncated: *truncated,
                record_sets: sets_view(record_sets@),
            },
            Event::ChangeSubmitted { change_id, status, now_ms } => EventModel::ChangeSubmitted {
                change_id: change_id@,
                status: status@,
                now_ms: *now_ms as nat,
            },
            Event::ChangePolled { status } => EventModel::ChangePolled { status: status@ },
            Event::Woke { now_ms } => EventModel::Woke { now_ms: *now_ms as nat },
            Event::Failed { kind } => EventModel::Failed { kind: *kind },
        }
    }
}

impl View for Action {
    type V = ActionModel;

    open spec fn view(&self) -> ActionModel {
        match self {
            Action::ListZones { dns_name } => ActionModel::ListZones { dns_name: dns_name@ },
            Action::ListRecords { hosted_zone_id } => ActionModel::ListRecords {
                hosted_zone_id: hosted_zone_id@,
            },
            Action::Submit { request } => ActionModel::Submit { request: request@ },
            Action::Poll { change_id } => ActionModel::Poll { change_id: change_id@ },
            Action::Wait { seconds } => ActionModel::Wait { seconds: *seconds as nat },
            Action::Finish { outcome } => ActionModel::Finish { outcome: *outcome },
        }
    }
}

impl View for Reconciler {
    type V = ReconcilerModel;

    open spec fn view(&self) -> ReconcilerModel {
        ReconcilerModel {
            phase: self.phase,
            dns_name: self.dns_name@,
            ip: self.ip@,
            hosted_zone_id: self.hosted_zone_id@,
            change_id: self.change_id@,
            poll_start_ms: self.poll_start_ms as nat,
        }
    }
}

// ---------------------------------------------------------------------------
// The rules of a cycle

pub open spec fn zone_prefix() -> Seq<char> {
    "/hostedzone/"@
}

pub open spec fn change_prefix() -> Seq<char> {
    "/change/"@
}

pub open spec fn a_type() -> Seq<char> {
    "A"@
}

pub open spec fn upsert_action() -> Seq<char> {
    "UPSERT"@
}

pub open spec fn change_comment() -> Seq<char> {
    "route53-dyndns A IP Update"@
}

pub open spec fn status_of(s: Seq<char>) -> ChangeStatus {
    if s == "INSYNC"@ {
        ChangeStatus::InSync
    } else if s == "PENDING"@ {
        ChangeStatus::Pending
    } else {
        ChangeStatus::Other
    }
}

/// The record set that a cycle is about: an A record of exactly this name.
pub open spec fn is_target(r: RecordSetModel, name: Seq<char>) -> bool {
    r.record_type == a_type() && r.name == name
}

/// The position of the first target record set at or after `i`.
pub open spec fn first_target_from(sets: Seq<RecordSetModel>, name: Seq<char>, i: int) -> Option<
    int,
>
    decreases sets.len() - i,
{
    if i < 0 || i >= sets.len() {
        None
    } else if is_target(sets[i], name) {
        Some(i)
    } else {
        first_target_from(sets, name, i + 1)
    }
}

pub open spec fn first_target(sets: Seq<RecordSetModel>, name: Seq<char>) -> Option<int> {
    first_target_from(sets, name, 0)
}

/// The change that puts `ip` into the A record of `name`.
pub open spec fn upsert_of(zone: Seq<char>, name: Seq<char>, ip: Seq<char>) -> ChangeRequestModel {
    ChangeRequestModel {
        hosted_zone_id: zone,
        comment: change_comment(),
        action: upsert_action(),
        name,
        record_type: a_type(),
        values: seq![ip],
        ttl: RECORD_TTL as nat,
    }
}

/// Milliseconds from `start` to `now`; a clock that seems to run backwards
/// counts as no time passed.
pub open spec fn elapsed_ms(start: nat, now: nat) -> nat {
    if now >= start {
        (now - start) as nat
    } else {
        0
    }
}

pub open spec fn finish(r: ReconcilerModel, outcome: Result<bool, ErrorKind>) -> (
    ReconcilerModel,
    ActionModel,
) {
    (ReconcilerModel { phase: Phase::Done, ..r }, ActionModel::Finish { outcome })
}

/// Whether the machine, in phase `p`, waits for an event of this shape.
pub open spec fn accepts(p: Phase, e: EventModel) -> bool {
    match e {
        EventModel::Failed { .. } => p != Phase::Done,
        EventModel::IpResolved { .. } => p == Phase::ResolvingIp,
        EventModel::ZonesListed { .. } => p == Phase::FindingZone,
        EventModel::RecordsListed { .. } => p == Phase::FindingRecord,
        EventModel::ChangeSubmitted { .. } => p == Phase::Submitting,
        EventModel::ChangePolled { .. } => p == Phase::Polling,
        EventModel::Woke { .. } => p == Phase::Waiting,
    }
}

/// How a change status decides the cycle: done, or one more poll.
pub open spec fn on_status(r: ReconcilerModel, status: Seq<char>) -> (ReconcilerModel, ActionModel) {
    match status_of(status) {
        ChangeStatus::InSync => finish(r, Ok(true)),
        ChangeStatus::Pending => (
            ReconcilerModel { phase: Phase::Waiting, ..r },
            ActionModel::Wait { seconds: POLL_INTERVAL_SECS as nat },
        ),
        ChangeStatus::Other => finish(r, Err(ErrorKind::Protocol)),
    }
}

/// What the record sets decide: no update, an update, or a failure.
pub open spec fn on_records(r: ReconcilerModel, truncated: bool, sets: Seq<RecordSetModel>) -> (
    ReconcilerModel,
    ActionModel,
) {
    if truncated {
        finish(r, Err(ErrorKind::Configuration))
    } else {
        match first_target(sets, r.dns_name) {
            None => finish(r, Err(ErrorKind::NotFound)),
            Some(i) => match sets[i].values {
                Some(vs) => if vs.len() != 1 {
                    finish(r, Err(ErrorKind::Configuration))
                } else if vs[0] == r.ip {
                    finish(r, Ok(false))
                } else {
                    (
                        ReconcilerModel { phase: Phase::Submitting, ..r },
                        ActionModel::Submit { request: upsert_of(r.hosted_zone_id, r.dns_name, r.ip) },
                    )
                },
                None => (
                    ReconcilerModel { phase: Phase::Submitting, ..r },
                    ActionModel::Submit { request: upsert_of(r.hosted_zone_id, r.dns_name, r.ip) },
                ),
            },
        }
    }
}

/// One transition: the next state and action, given the state and an event
/// that it accepts.
pub open spec fn next(r: ReconcilerModel, e: EventModel) -> (ReconcilerModel, ActionModel) {
    match e {
        EventModel::Failed { kind } => finish(r, Err(kind)),
        EventModel::IpResolved { ip } => (
            ReconcilerModel { phase: Phase::FindingZone, ip, ..r },
            ActionModel::ListZones { dns_name: r.dns_name },
        ),
        EventModel::ZonesListed { truncated, zone_ids } => if truncated || zone_ids.len() == 0 {
            finish(r, Err(ErrorKind::Configuration))
        } else {
            let zone = strip_repeated(zone_ids[0], zone_prefix());
            (
                ReconcilerModel { phase: Phase::FindingRecord, hosted_zone_id: zone, ..r },
                ActionModel::ListRecords { hosted_zone_id: zone },
            )
        },
        EventModel::RecordsListed { truncated, record_sets } => on_records(
            r,
            truncated,
            record_sets,
        ),
        EventModel::ChangeSubmitted { change_id, status, now_ms } => match status_of(status) {
            ChangeStatus::InSync => finish(r, Ok(true)),
            ChangeStatus::Pending => {
                let id = strip_repeated(change_id, change_prefix());
                (
                    ReconcilerModel {
                        phase: Phase::Polling,
                        change_id: id,
                        poll_start_ms: now_ms,
                        ..r
                    },
                    ActionModel::Poll { change_id: id },
                )
            },
            ChangeStatus::Other => finish(r, Err(ErrorKind::Protocol)),
        },
        EventModel::ChangePolled { status } => on_status(r, status),
        EventModel::Woke { now_ms } => if elapsed_ms(r.poll_start_ms, now_ms)
            < POLL_BUDGET_MS as nat {
            (ReconcilerModel { phase: Phase::Polling, ..r }, ActionModel::Poll { change_id: r.change_id })
        } else {
            finish(r, Err(ErrorKind::Timeout))
        },
    }
}

/// The state in which a cycle for `name` begins.
pub open spec fn initial(name: Seq<char>) -> ReconcilerModel {
    ReconcilerModel {
        phase: Phase::ResolvingIp,
        dns_name: normalized_name(name),
        ip: Seq::empty(),
        hosted_zone_id: Seq::empty(),
        change_id: Seq::empty(),
        poll_start_ms: 0,
    }
}

// ---------------------------------------------------------------------------
// Executable rules

/// Sorts a change status reported by the provider.
pub fn classify_status(status: &str) -> (r: ChangeStatus)
    ensures
        r == status_of(status@),
{
    let s = status.to_owned();
    let insync = "INSYNC".to_owned();
    let pending = "PENDING".to_owned();
    if s == insync {
        ChangeStatus::InSync
    } else if s == pending {
        ChangeStatus::Pending
    } else {
        ChangeStatus::Other
    }
}

/// The position of the first A record set named exactly `name`.
pub fn find_target(sets: &Vec<RecordSet>, name: &String) -> (r: Option<usize>)
    ensures
        match r {
            Some(i) => first_target(sets_view(sets@), name@) == Some(i as int),
            None => first_target(sets_view(sets@), name@) is None,
        },
        r is Some ==> r->0 < sets@.len(),
{
    let ghost model = sets_view(sets@);
    let a = "A".to_owned();
    let mut i: usize = 0;
    while i < sets.len()
        invariant
            i <= sets@.len(),
            model == sets_view(sets@),
            a@ == a_type(),
            first_target_from(model, name@, i as int) == first_target(model, name@),
        decreases sets@.len() - i,
    {
        assert(model[i as int] == sets@[i as int]@);
        if sets[i].record_type == a && sets[i].name == *name {
            return Some(i);
        }
        i += 1;
    }
    None
}

/// The change that puts `ip` into the A record of `name`.
pub fn upsert_request(hosted_zone_id: &String, name: &String, ip: &String) -> (r: ChangeRequest)
    ensures
        r@ == upsert_of(hosted_zone_id@, name@, ip@),
{
    let values = vec![ip.clone()];
    let r = ChangeRequest {
        hosted_zone_id: hosted_zone_id.clone(),
        comment: "route53-dyndns A IP Update".to_owned(),
        action: "UPSERT".to_owned(),
        name: name.clone(),
        record_type: "A".to_owned(),
        values,
        ttl: RECORD_TTL,
    };
    assert(strings_view(r.values@) =~= seq![ip@]);
    r
}

/// Milliseconds from `start` to `now`, never below zero.
pub fn elapsed_between(start: u64, now: u64) -> (r: u64)
    ensures
        r as nat == elapsed_ms(start as nat, now as nat),
{
    if now >= start {
        now - start
    } else {
        0
    }
}

impl Reconciler {
    /// A cycle for `dns_name`, which is given its trailing `.` if it lacks one.
    pub fn new(dns_name: &str) -> (r: Reconciler)
        ensures
            r@ == initial(dns_name@),
    {
        Reconciler {
            phase: Phase::ResolvingIp,
            dns_name: normalize_dns_name(dns_name),
            ip: String::new(),
            hosted_zone_id: String::new(),
            change_id: String::new(),
            poll_start_ms: 0,
        }
    }

    /// Whether the machine waits for an event of this shape.
    pub fn accepts(&self, event: &Event) -> (r: bool)
        ensures
            r == accepts(self@.phase, event@),
    {
        match event {
            Event::Failed { .. } => self.phase != Phase::Done,
            Event::IpResolved { .. } => self.phase == Phase::ResolvingIp,
            Event::ZonesListed { .. } => self.phase == Phase::FindingZone,
            Event::RecordsListed { .. } => self.phase == Phase::FindingRecord,
            Event::ChangeSubmitted { .. } => self.phase == Phase::Submitting,
            Event::ChangePolled { .. } => self.phase == Phase::Polling,
            Event::Woke { .. } => self.phase == Phase::Waiting,
        }
    }

    /// Whether the cycle is over.
    pub fn is_done(&self) -> (r: bool)
        ensures
            r == (self@.phase == Phase::Done),
    {
        self.phase == Phase::Done
    }

    fn finish(&mut self, outcome: Result<bool, ErrorKind>) -> (a: Action)
        ensures
            (final(self)@, a@) == finish(old(self)@, outcome),
    {
        self.phase = Phase::Done;
        Action::Finish { outcome }
    }

    fn on_status(&mut self, status: &str) -> (a: Action)
        ensures
            (final(self)@, a@) == on_status(old(self)@, status@),
    {
        match classify_status(status) {
            ChangeStatus::InSync => self.finish(Ok(true)),
            ChangeStatus::Pending => {
                self.phase = Phase::Waiting;
                Action::Wait { seconds: POLL_INTERVAL_SECS }
            },
            ChangeStatus::Other => self.finish(Err(ErrorKind::Protocol)),
        }
    }

    fn on_records(&mut self, truncated: bool, sets: &Vec<RecordSet>) -> (a: Action)
        ensures
            (final(self)@, a@) == on_records(
                old(self)@,
                truncated,
                sets_view(sets@),
            ),
    {
        let ghost model = sets_view(sets@);
        if truncated {
            return self.finish(Err(ErrorKind::Configuration));
        }
        match find_target(sets, &self.dns_name) {
            None => self.finish(Err(ErrorKind::NotFound)),
            Some(i) => {
                assert(model[i as int] == sets@[i as int]@);
                match &sets[i].values {
                    Some(vs) => {
                        assert(model[i as int].values == Some(strings_view(vs@)));
                        assert(strings_view(vs@).len() == vs@.len());
                        if vs.len() != 1 {
                            return self.finish(Err(ErrorKind::Configuration));
                        }
                        assert(strings_view(vs@)[0] == vs@[0]@);
                        if vs[0] == self.ip {
                            return self.finish(Ok(false));
                        }
                    },
                    None => {
                        assert(model[i as int].values is None);
                    },
                }
                self.phase = Phase::Submitting;
                let request = upsert_request(&self.hosted_zone_id, &self.dns_name, &self.ip);
                Action::Submit { request }
            },
        }
    }

    /// Takes what came of the last request and returns what to do next.
    pub fn step(&mut self, event: Event) -> (a: Action)
        requires
            accepts(old(self)@.phase, event@),
        ensures
            (final(self)@, a@) == next(old(self)@, event@),
    {
        match event {
            Event::Failed { kind } => self.finish(Err(kind)),
            Event::IpResolved { ip } => {
                self.phase = Phase::FindingZone;
                self.ip = ip;
                Action::ListZones { dns_name: self.dns_name.clone() }
            },
            Event::ZonesListed { truncated, zone_ids } => {
                if truncated || zone_ids.len() == 0 {
                    return self.finish(Err(ErrorKind::Configuration));
                }
                assert(strings_view(zone_ids@)[0] == zone_ids@[0]@);
                proof {
                    reveal_strlit("/hostedzone/");
                }
                let zone = strip_prefix_repeated(zone_ids[0].as_str(), "/hostedzone/");
                self.phase = Phase::FindingRecord;
                self.hosted_zone_id = zone.clone();
                Action::ListRecords { hosted_zone_id: zone }
            },
            Event::RecordsListed { truncated, record_sets } => self.on_records(
                truncated,
                &record_sets,
            ),
            Event::ChangeSubmitted { change_id, status, now_ms } => {
                match classify_status(status.as_str()) {
                    ChangeStatus::InSync => self.finish(Ok(true)),
                    ChangeStatus::Pending => {
                        proof {
                            reveal_strlit("/change/");
                        }
                        let id = strip_prefix_repeated(change_id.as_str(), "/change/");
                        self.phase = Phase::Polling;
                        self.change_id = id.clone();
                        self.poll_start_ms = now_ms;
                        Action::Poll { change_id: id }
                    },
                    ChangeStatus::Other => self.finish(Err(ErrorKind::Protocol)),
                }
            },
            Event::ChangePolled { status } => self.on_status(status.as_str()),
            Event::Woke { now_ms } => {
                if elapsed_between(self.poll_start_ms, now_ms) < POLL_BUDGET_MS {
                    self.phase = Phase::Polling;
                    Action::Poll { change_id: self.change_id.clone() }
                } else {
                    self.finish(Err(ErrorKind::Timeout))
                }
            },
        }
    }
}

} // verus!
