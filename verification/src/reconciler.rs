//! The run as a sequence of decisions: discover the address, list each zone,
//! rewrite what the selector picks, report each outcome. The reconciler
//! decides; its caller performs each request and hands back what came of it.

use vstd::prelude::*;
use vstd::string::*;
use reqwest::header::{HeaderMap, HeaderValue};
use crate::config::{Config, ConfigView};
use crate::headers::{auth_fields, auth_headers, header_fields, header_text_ok, Fields, RequestError};
use crate::record::{
    decision, managed, record_views, rewritten, select, settled, should_update, survivors, CfResponse,
    CfResponseView, Decision, Record, RecordView,
};
use crate::report::{
    error_line, line_views, listing_line, outcome_line, outcome_views, public_ip_line, up_to_date_outcome,
    write_outcome, StatusLine, StatusLineView, UpdateOutcome, UpdateOutcomeView,
};
use crate::request::{
    discovery_url, discovery_url_text, record_url, record_url_text, records_url, records_url_text,
};

verus! {

/// Where a run stands.
#[derive(Debug, Clone, Copy, PartialEq, Eq, Structural)]
pub enum Phase {
    /// The public address is being asked for.
    Discovering,
    /// The records of the current zone are being asked for.
    Listing,
    /// A record of the current zone is being rewritten.
    Updating,
    /// Every zone has been gone through.
    Finished,
    /// The public address could not be had; nothing was listed or rewritten.
    Aborted,
}

/// What the provider answered for one zone: its listing, or `None` where the
/// listing failed, and for each rewrite sent so far the cause of its failure,
/// or `None` where the provider answered.
pub struct ZoneTrace {
    pub listing: Option<Seq<RecordView>>,
    pub failures: Seq<Option<Seq<char>>>,
}

/// A zone whose listing failed.
pub open spec fn failed_zone() -> ZoneTrace {
    ZoneTrace { listing: None, failures: Seq::empty() }
}

/// The outcomes of the records that needed no rewrite.
pub open spec fn current_outcomes(records: Seq<RecordView>) -> Seq<UpdateOutcomeView> {
    Seq::new(records.len(), |i: int| up_to_date_outcome(records[i].name))
}

/// The outcomes of the rewrites answered so far: one for each of the first
/// records of the queue.
pub open spec fn write_outcomes(queue: Seq<RecordView>, failures: Seq<Option<Seq<char>>>) -> Seq<
    UpdateOutcomeView,
> {
    Seq::new(failures.len(), |i: int| write_outcome(queue[i].name, failures[i]))
}

/// The lines that report a list of outcomes.
pub open spec fn outcome_lines(outcomes: Seq<UpdateOutcomeView>) -> Seq<StatusLineView> {
    Seq::new(outcomes.len(), |i: int| outcome_line(outcomes[i]))
}

/// The outcomes that one zone adds to a run: none where its listing failed;
/// otherwise one for each record that needed no rewrite, then one for each
/// rewrite answered.
pub open spec fn zone_outcomes(config: ConfigView, desired_ip: Seq<char>, zone: ZoneTrace) -> Seq<
    UpdateOutcomeView,
> {
    match zone.listing {
        None => Seq::empty(),
        Some(records) => current_outcomes(settled(config, records, desired_ip)) + write_outcomes(
            survivors(config, records, desired_ip),
            zone.failures,
        ),
    }
}

/// The outcomes of a run: those of its zones, one zone after the other.
pub open spec fn run_outcomes(config: ConfigView, desired_ip: Seq<char>, trace: Seq<ZoneTrace>) -> Seq<
    UpdateOutcomeView,
>
    decreases trace.len(),
{
    if trace.len() == 0 {
        Seq::empty()
    } else {
        run_outcomes(config, desired_ip, trace.drop_last()) + zone_outcomes(config, desired_ip, trace.last())
    }
}

/// Whether every rewrite of the zone has been answered.
pub open spec fn zone_complete(config: ConfigView, desired_ip: Seq<char>, zone: ZoneTrace) -> bool {
    match zone.listing {
        None => zone.failures.len() == 0,
        Some(records) => zone.failures.len() == survivors(config, records, desired_ip).len(),
    }
}

/// Whether every zone of the trace is complete.
pub open spec fn trace_complete(config: ConfigView, desired_ip: Seq<char>, trace: Seq<ZoneTrace>) -> bool {
    forall|j: int| 0 <= j < trace.len() ==> zone_complete(config, desired_ip, #[trigger] trace[j])
}

/// The state of a run, as plain values.
pub struct ReconcilerView {
    /// The configuration, which a run never changes.
    pub config: ConfigView,
    pub phase: Phase,
    /// The discovered address; empty until it is known.
    pub desired_ip: Seq<char>,
    /// The index of the current zone; the zones before it are done.
    pub zone: int,
    /// The records of the current zone that must be rewritten.
    pub queue: Seq<RecordView>,
    /// How many records of the queue have been dealt with.
    pub next: int,
    /// The outcomes reported so far.
    pub outcomes: Seq<UpdateOutcomeView>,
    /// What the provider answered so far, zone by zone.
    pub trace: Seq<ZoneTrace>,
}

/// The state in which a run starts.
pub open spec fn initial(config: ConfigView) -> ReconcilerView {
    ReconcilerView {
        config,
        phase: Phase::Discovering,
        desired_ip: Seq::empty(),
        zone: 0,
        queue: Seq::empty(),
        next: 0,
        outcomes: Seq::empty(),
        trace: Seq::empty(),
    }
}

/// The state of a run that has ended before it began: nothing configured,
/// nothing discovered, nothing listed and nothing reported.
pub open spec fn idle_state() -> ReconcilerView {
    ReconcilerView {
        phase: Phase::Aborted,
        ..initial(ConfigView { cf_api_key: Seq::empty(), records_to_update: Seq::empty() })
    }
}

/// What holds of every state of a run. The credential can be sent. The
/// outcomes are those of the answers received, zone by zone. Every zone
/// before the current one is complete; while a zone is being rewritten, its
/// listing is the last of the trace, the queue holds its survivors, and one
/// rewrite has been answered for each record of the queue already dealt with.
pub open spec fn inv(s: ReconcilerView) -> bool {
    &&& header_text_ok(s.config.cf_api_key)
    &&& s.outcomes == run_outcomes(s.config, s.desired_ip, s.trace)
    &&& match s.phase {
        Phase::Discovering | Phase::Aborted => {
            &&& s.zone == 0
            &&& s.trace.len() == 0
            &&& s.queue.len() == 0
            &&& s.next == 0
        },
        Phase::Listing => {
            &&& 0 <= s.zone < s.config.records_to_update.len()
            &&& s.trace.len() == s.zone
            &&& trace_complete(s.config, s.desired_ip, s.trace)
            &&& s.queue.len() == 0
            &&& s.next == 0
        },
        Phase::Updating => {
            &&& 0 <= s.zone < s.config.records_to_update.len()
            &&& s.trace.len() == s.zone + 1
            &&& trace_complete(s.config, s.desired_ip, s.trace.drop_last())
            &&& s.trace.last().listing is Some
            &&& s.queue == survivors(s.config, s.trace.last().listing->Some_0, s.desired_ip)
            &&& s.next == s.trace.last().failures.len()
            &&& 0 <= s.next < s.queue.len()
        },
        Phase::Finished => {
            &&& s.zone == s.config.records_to_update.len()
            &&& s.trace.len() == s.zone
            &&& trace_complete(s.config, s.desired_ip, s.trace)
            &&& s.queue.len() == 0
            &&& s.next == 0
        },
    }
}

/// What a request brought, as plain values.
pub enum EventView {
    Address(Result<Seq<char>, Seq<char>>),
    Listed(Result<CfResponseView, Seq<char>>),
    Written(Result<(), Seq<char>>),
}

/// What the caller is to do next, as plain values.
pub enum ActionView {
    Discover { url: Seq<char> },
    List { url: Seq<char>, fields: Fields },
    Put { url: Seq<char>, fields: Fields, body: RecordView },
    Finish { success: bool },
}

/// The cause of a failed rewrite, or `None` where the provider answered.
pub open spec fn failure_of(reply: Result<(), Seq<char>>) -> Option<Seq<char>> {
    match reply {
        Ok(_) => None,
        Err(cause) => Some(cause),
    }
}

/// The state on entering the zone at `zone`, or on finishing where there is
/// no such zone.
pub open spec fn enter_zone(s: ReconcilerView, zone: int) -> ReconcilerView {
    ReconcilerView {
        phase: if zone < s.config.records_to_update.len() {
            Phase::Listing
        } else {
            Phase::Finished
        },
        zone,
        queue: Seq::empty(),
        next: 0,
        ..s
    }
}

/// The line that announces the zone at `zone`, where there is such a zone.
pub open spec fn entry_lines(config: ConfigView, zone: int) -> Seq<StatusLineView> {
    if 0 <= zone < config.records_to_update.len() {
        seq![listing_line(config.records_to_update[zone].1.zone_id)]
    } else {
        Seq::empty()
    }
}

/// The state after a listing has come in.
pub open spec fn after_listing(s: ReconcilerView, records: Seq<RecordView>) -> ReconcilerView {
    let queue = survivors(s.config, records, s.desired_ip);
    let listed = ReconcilerView {
        outcomes: s.outcomes + current_outcomes(settled(s.config, records, s.desired_ip)),
        trace: s.trace.push(ZoneTrace { listing: Some(records), failures: Seq::empty() }),
        queue,
        next: 0,
        ..s
    };
    if queue.len() > 0 {
        ReconcilerView { phase: Phase::Updating, ..listed }
    } else {
        enter_zone(listed, s.zone + 1)
    }
}

/// The state after a rewrite has been answered.
pub open spec fn after_write(s: ReconcilerView, failure: Option<Seq<char>>) -> ReconcilerView {
    let zone = s.trace.last();
    let written = ReconcilerView {
        outcomes: s.outcomes.push(write_outcome(s.queue[s.next].name, failure)),
        trace: s.trace.drop_last().push(ZoneTrace { failures: zone.failures.push(failure), ..zone }),
        next: s.next + 1,
        ..s
    };
    if s.next + 1 < s.queue.len() {
        written
    } else {
        enter_zone(written, s.zone + 1)
    }
}

/// The state that follows `s` when `event` comes in. An event that does not
/// answer the pending request changes nothing.
pub open spec fn next_state(s: ReconcilerView, event: EventView) -> ReconcilerView {
    match (s.phase, event) {
        (Phase::Discovering, EventView::Address(Ok(ip))) => enter_zone(
            ReconcilerView { desired_ip: ip, ..s },
            0,
        ),
        (Phase::Discovering, EventView::Address(Err(_))) => ReconcilerView { phase: Phase::Aborted, ..s },
        (Phase::Listing, EventView::Listed(Ok(response))) => after_listing(s, response.result),
        (Phase::Listing, EventView::Listed(Err(_))) => enter_zone(
            ReconcilerView { trace: s.trace.push(failed_zone()), ..s },
            s.zone + 1,
        ),
        (Phase::Updating, EventView::Written(reply)) => after_write(s, failure_of(reply)),
        _ => s,
    }
}

/// The lines to report when `event` comes in at `s`.
pub open spec fn emitted(s: ReconcilerView, event: EventView) -> Seq<StatusLineView> {
    match (s.phase, event) {
        (Phase::Discovering, EventView::Address(Ok(ip))) => seq![public_ip_line(ip)] + entry_lines(
            s.config,
            0,
        ),
        (Phase::Discovering, EventView::Address(Err(cause))) => seq![error_line(cause)],
        (Phase::Listing, EventView::Listed(Ok(response))) => outcome_lines(
            current_outcomes(settled(s.config, response.result, s.desired_ip)),
        ) + if survivors(s.config, response.result, s.desired_ip).len() > 0 {
            Seq::empty()
        } else {
            entry_lines(s.config, s.zone + 1)
        },
        (Phase::Listing, EventView::Listed(Err(cause))) => seq![error_line(cause)] + entry_lines(
            s.config,
            s.zone + 1,
        ),
        (Phase::Updating, EventView::Written(reply)) => seq![
            outcome_line(write_outcome(s.queue[s.next].name, failure_of(reply))),
        ] + if s.next + 1 < s.queue.len() {
            Seq::empty()
        } else {
            entry_lines(s.config, s.zone + 1)
        },
        _ => Seq::empty(),
    }
}

/// The request that is pending at `s`, or how the run ended.
pub open spec fn pending_action(s: ReconcilerView) -> ActionView {
    match s.phase {
        Phase::Discovering => ActionView::Discover { url: discovery_url_text() },
        Phase::Listing => ActionView::List {
            url: records_url_text(s.config.records_to_update[s.zone].1.zone_id),
            fields: auth_fields(s.config.cf_api_key),
        },
        Phase::Updating => ActionView::Put {
            url: record_url_text(s.queue[s.next].zone_id, s.queue[s.next].id),
            fields: auth_fields(s.config.cf_api_key),
            body: rewritten(s.queue[s.next], s.desired_ip),
        },
        Phase::Finished => ActionView::Finish { success: true },
        Phase::Aborted => ActionView::Finish { success: false },
    }
}

/// The outcomes of a trace with one more zone are those of the trace, then
/// those of the zone.
pub proof fn lemma_run_outcomes_push(
    config: ConfigView,
    desired_ip: Seq<char>,
    trace: Seq<ZoneTrace>,
    zone: ZoneTrace,
)
    ensures
        run_outcomes(config, desired_ip, trace.push(zone)) == run_outcomes(config, desired_ip, trace)
            + zone_outcomes(config, desired_ip, zone),
{
    assert(trace.push(zone).drop_last() =~= trace);
}

/// Every state that a run starts in meets the invariant, given a credential
/// that can be sent.
pub proof fn lemma_initial_inv(config: ConfigView)
    requires
        header_text_ok(config.cf_api_key),
    ensures
        inv(initial(config)),
{
}

/// Whatever comes in, the state that follows meets the invariant.
pub proof fn lemma_next_state_inv(s: ReconcilerView, event: EventView)
    requires
        inv(s),
    ensures
        inv(next_state(s, event)),
{
    match (s.phase, event) {
        (Phase::Listing, EventView::Listed(Ok(response))) => {
            let zone = ZoneTrace { listing: Some(response.result), failures: Seq::empty() };
            lemma_run_outcomes_push(s.config, s.desired_ip, s.trace, zone);
        },
        (Phase::Listing, EventView::Listed(Err(_))) => {
            lemma_run_outcomes_push(s.config, s.desired_ip, s.trace, failed_zone());
        },
        (Phase::Updating, EventView::Written(reply)) => {
            let before = s.trace.last();
            let after = ZoneTrace { failures: before.failures.push(failure_of(reply)), ..before };
            let done = s.trace.drop_last();
            lemma_run_outcomes_push(s.config, s.desired_ip, done, after);
            assert(next_state(s, event).outcomes =~= run_outcomes(s.config, s.desired_ip, done.push(after)));
        },
        _ => {},
    }
}

/// What a request brought: `Ok` with what came back, `Err` with the cause
/// where it failed.
#[derive(Debug)]
pub enum Event {
    /// The answer to the discovery of the public address.
    Address(Result<String, String>),
    /// The answer to the listing of the current zone.
    Listed(Result<CfResponse, String>),
    /// What became of the rewrite of the current record.
    Written(Result<(), String>),
}

impl View for Event {
    type V = EventView;

    open spec fn view(&self) -> EventView {
        match self {
            Event::Address(Ok(ip)) => EventView::Address(Ok(ip@)),
            Event::Address(Err(cause)) => EventView::Address(Err(cause@)),
            Event::Listed(Ok(response)) => EventView::Listed(Ok(response@)),
            Event::Listed(Err(cause)) => EventView::Listed(Err(cause@)),
            Event::Written(Ok(_)) => EventView::Written(Ok(())),
            Event::Written(Err(cause)) => EventView::Written(Err(cause@)),
        }
    }
}

/// What the caller is to do next.
#[derive(Debug)]
pub enum Action {
    /// Ask the echo service at `url` for the public address.
    Discover { url: String },
    /// Ask the provider at `url` for the records of the current zone.
    List { url: String, headers: HeaderMap<HeaderValue> },
    /// Send `body` to the provider at `url` in place of the record it lists.
    Put { url: String, headers: HeaderMap<HeaderValue>, body: Record },
    /// Nothing more; `success` tells whether the run went through.
    Finish { success: bool },
}

impl View for Action {
    type V = ActionView;

    open spec fn view(&self) -> ActionView {
        match self {
            Action::Discover { url } => ActionView::Discover { url: url@ },
            Action::List { url, headers } => ActionView::List { url: url@, fields: header_fields(*headers) },
            Action::Put { url, headers, body } => ActionView::Put {
                url: url@,
                fields: header_fields(*headers),
                body: body@,
            },
            Action::Finish { success } => ActionView::Finish { success: *success },
        }
    }
}

/// What one event leads to: the lines to report and the next thing to do.
#[derive(Debug)]
pub struct Step {
    pub lines: Vec<StatusLine>,
    pub action: Action,
}

/// One run of the reconciliation.
pub struct Reconciler {
    config: Config,
    phase: Phase,
    desired_ip: String,
    zone: usize,
    queue: Vec<Record>,
    next: usize,
    outcomes: Vec<UpdateOutcome>,
    trace: Ghost<Seq<ZoneTrace>>,
}

impl View for Reconciler {
    type V = ReconcilerView;

    closed spec fn view(&self) -> ReconcilerView {
        ReconcilerView {
            config: self.config@,
            phase: self.phase,
            desired_ip: self.desired_ip@,
            zone: self.zone as int,
            queue: record_views(self.queue@),
            next: self.next as int,
            outcomes: outcome_views(self.outcomes@),
            trace: self.trace@,
        }
    }
}

/// Reports the zone at `zone` and tells the phase in which it is entered.
fn announce_zone(config: &Config, zone: usize, lines: &mut Vec<StatusLine>) -> (phase: Phase)
    ensures
        phase == (if zone < config@.records_to_update.len() {
            Phase::Listing
        } else {
            Phase::Finished
        }),
        line_views(final(lines)@) == line_views(old(lines)@) + entry_lines(config@, zone as int),
{
    if zone < config.records_to_update.len() {
        let line = StatusLine::listing(config.records_to_update.zone_at(zone).zone_id.as_str());
        lines.push(line);
        Phase::Listing
    } else {
        Phase::Finished
    }
}

/// Reports each record that needed no rewrite and adds its outcome.
fn report_current(current: &Vec<Record>, outcomes: &mut Vec<UpdateOutcome>, lines: &mut Vec<StatusLine>)
    ensures
        outcome_views(final(outcomes)@) == outcome_views(old(outcomes)@) + current_outcomes(
            record_views(current@),
        ),
        line_views(final(lines)@) == line_views(old(lines)@) + outcome_lines(
            current_outcomes(record_views(current@)),
        ),
{
    let ghost outcomes_before = outcome_views(outcomes@);
    let ghost lines_before = line_views(lines@);
    let ghost all = current_outcomes(record_views(current@));
    let mut i: usize = 0;
    while i < current.len()
        invariant
            i <= current.len(),
            all == current_outcomes(record_views(current@)),
            outcome_views(outcomes@) == outcomes_before + all.take(i as int),
            line_views(lines@) == lines_before + outcome_lines(all.take(i as int)),
        decreases current.len() - i,
    {
        let outcome = UpdateOutcome::up_to_date(current[i].name.as_str());
        let line = StatusLine::outcome(&outcome);
        let ghost outcomes_so_far = outcome_views(outcomes@);
        let ghost lines_so_far = line_views(lines@);
        lines.push(line);
        outcomes.push(outcome);
        assert(outcome_views(outcomes@) =~= outcomes_so_far.push(all[i as int]));
        assert(line_views(lines@) =~= lines_so_far.push(outcome_line(all[i as int])));
        i += 1;
    }
}

impl Reconciler {
    #[verifier::type_invariant]
    spec fn sound(self) -> bool {
        inv(self@)
    }

    /// A run that is about to discover the public address. It can be had
    /// exactly when the credential of the configuration can be sent.
    pub fn new(config: Config) -> (made: Result<Reconciler, RequestError>)
        ensures
            made is Ok <==> header_text_ok(config@.cf_api_key),
            made is Ok ==> made->Ok_0@ == initial(config@),
            made is Err ==> made->Err_0 == RequestError::Credential,
    {
        if !crate::headers::credential_sendable(config.cf_api_key.as_str()) {
            return Err(RequestError::Credential);
        }
        let queue: Vec<Record> = Vec::new();
        let outcomes: Vec<UpdateOutcome> = Vec::new();
        assert(record_views(queue@) =~= Seq::<RecordView>::empty());
        assert(outcome_views(outcomes@) =~= Seq::<UpdateOutcomeView>::empty());
        Ok(
            Reconciler {
                config,
                phase: Phase::Discovering,
                desired_ip: String::new(),
                zone: 0,
                queue,
                next: 0,
                outcomes,
                trace: Ghost(Seq::empty()),
            },
        )
    }

    /// Where the run stands.
    pub fn phase(&self) -> (phase: Phase)
        ensures
            phase == self@.phase,
            inv(self@),
    {
        proof {
            use_type_invariant(self);
        }
        self.phase
    }

    /// Whether the run has ended, in success or not.
    pub fn is_over(&self) -> (over: bool)
        ensures
            over == (self@.phase == Phase::Finished || self@.phase == Phase::Aborted),
    {
        match self.phase {
            Phase::Finished | Phase::Aborted => true,
            _ => false,
        }
    }

    /// The configuration of the run.
    pub fn config(&self) -> (config: &Config)
        ensures
            config@ == self@.config,
    {
        &self.config
    }

    /// The discovered address; empty until it is known.
    pub fn desired_ip(&self) -> (ip: &String)
        ensures
            ip@ == self@.desired_ip,
    {
        &self.desired_ip
    }

    /// The outcomes reported so far: those of the answers received, zone by
    /// zone.
    pub fn outcomes(&self) -> (outcomes: &Vec<UpdateOutcome>)
        ensures
            outcome_views(outcomes@) == self@.outcomes,
            self@.outcomes == run_outcomes(self@.config, self@.desired_ip, self@.trace),
    {
        proof {
            use_type_invariant(self);
        }
        &self.outcomes
    }

    /// The request that is pending, or how the run ended.
    pub fn pending(&self) -> (action: Action)
        ensures
            action@ == pending_action(self@),
            inv(self@),
    {
        proof {
            use_type_invariant(self);
        }
        match self.phase {
            Phase::Discovering => Action::Discover { url: discovery_url() },
            Phase::Listing => {
                let zone = self.config.records_to_update.zone_at(self.zone);
                Action::List { url: records_url(zone.zone_id.as_str()), headers: self.headers() }
            },
            Phase::Updating => {
                let record = self.queue[self.next].clone();
                Action::Put {
                    url: record_url(record.zone_id.as_str(), record.id.as_str()),
                    headers: self.headers(),
                    body: record.with_content(self.desired_ip.as_str()),
                }
            },
            Phase::Finished => Action::Finish { success: true },
            Phase::Aborted => Action::Finish { success: false },
        }
    }

    /// The header fields of the run's authenticated requests.
    fn headers(&self) -> (headers: HeaderMap<HeaderValue>)
        ensures
            header_fields(headers) == auth_fields(self@.config.cf_api_key),
    {
        proof {
            use_type_invariant(self);
        }
        match auth_headers(self.config.cf_api_key.as_str()) {
            Ok(headers) => headers,
            Err(_) => vstd::pervasive::unreached(),
        }
    }

    /// Takes in what a request brought: moves to the state that follows,
    /// and tells the lines to report and the next thing to do. An event that
    /// does not answer the pending request changes nothing, reports nothing,
    /// and has the pending request handed out again.
    pub fn step(&mut self, event: Event) -> (step: Step)
        ensures
            final(self)@ == next_state(old(self)@, event@),
            line_views(step.lines@) == emitted(old(self)@, event@),
            step.action@ == pending_action(final(self)@),
            inv(old(self)@),
            inv(final(self)@),
    {
        let mut taken = Reconciler::idle();
        core::mem::swap(self, &mut taken);
        let (moved, lines) = taken.advance(event);
        *self = moved;
        let action = self.pending();
        Step { lines, action }
    }

    /// A run that has ended before it began, to stand in a place whose run
    /// is being moved on.
    fn idle() -> (run: Reconciler)
        ensures
            run@ == idle_state(),
    {
        let queue: Vec<Record> = Vec::new();
        let outcomes: Vec<UpdateOutcome> = Vec::new();
        let table = crate::config::ZoneTable::new();
        let config = Config { cf_api_key: String::new(), records_to_update: table };
        proof {
            assert(record_views(queue@) =~= Seq::<RecordView>::empty());
            assert(outcome_views(outcomes@) =~= Seq::<UpdateOutcomeView>::empty());
        }
        Reconciler {
            config,
            phase: Phase::Aborted,
            desired_ip: String::new(),
            zone: 0,
            queue,
            next: 0,
            outcomes,
            trace: Ghost(Seq::empty()),
        }
    }

    /// The run moved on by one event, and the lines to report.
    fn advance(self, event: Event) -> (moved: (Reconciler, Vec<StatusLine>))
        ensures
            moved.0@ == next_state(self@, event@),
            line_views(moved.1@) == emitted(self@, event@),
            inv(self@),
    {
        proof {
            use_type_invariant(&self);
            lemma_next_state_inv(self@, event@);
        }
        let ghost before = self@;
        let mut lines: Vec<StatusLine> = Vec::new();
        let Reconciler { config, phase, desired_ip, zone, queue, next, outcomes, trace } = self;
        let queued = queue.len();
        proof {
            config.records_to_update.lemma_count_fits();
        }
        match phase {
            Phase::Discovering => match event {
                Event::Address(Ok(ip)) => {
                    lines.push(StatusLine::public_ip(ip.as_str()));
                    let phase = announce_zone(&config, 0, &mut lines);
                    let empty: Vec<Record> = Vec::new();
                    assert(record_views(empty@) =~= Seq::<RecordView>::empty());
                    let moved = Reconciler {
                        config,
                        phase,
                        desired_ip: ip,
                        zone: 0,
                        queue: empty,
                        next: 0,
                        outcomes,
                        trace,
                    };
                    (moved, lines)
                },
                Event::Address(Err(cause)) => {
                    lines.push(StatusLine::error(cause.as_str()));
                    let moved = Reconciler {
                        config,
                        phase: Phase::Aborted,
                        desired_ip,
                        zone,
                        queue,
                        next,
                        outcomes,
                        trace,
                    };
                    (moved, lines)
                },
                _ => {
                    (Reconciler { config, phase, desired_ip, zone, queue, next, outcomes, trace }, lines)
                },
            },
            Phase::Listing => match event {
                Event::Listed(Ok(response)) => {
                    let ghost records = response@.result;
                    let parts = select(&config, response.into_records(), &desired_ip);
                    let mut outcomes = outcomes;
                    report_current(&parts.current, &mut outcomes, &mut lines);
                    let ghost trace_after = trace@.push(
                        ZoneTrace { listing: Some(records), failures: Seq::empty() },
                    );
                    if parts.rewrite.len() > 0 {
                        let moved = Reconciler {
                            config,
                            phase: Phase::Updating,
                            desired_ip,
                            zone,
                            queue: parts.rewrite,
                            next: 0,
                            outcomes,
                            trace: Ghost(trace_after),
                        };
                        (moved, lines)
                    } else {
                        let phase = announce_zone(&config, zone + 1, &mut lines);
                        let empty: Vec<Record> = Vec::new();
                        assert(record_views(empty@) =~= Seq::<RecordView>::empty());
                        let moved = Reconciler {
                            config,
                            phase,
                            desired_ip,
                            zone: zone + 1,
                            queue: empty,
                            next: 0,
                            outcomes,
                            trace: Ghost(trace_after),
                        };
                        (moved, lines)
                    }
                },
                Event::Listed(Err(cause)) => {
                    lines.push(StatusLine::error(cause.as_str()));
                    let phase = announce_zone(&config, zone + 1, &mut lines);
                    let empty: Vec<Record> = Vec::new();
                    assert(record_views(empty@) =~= Seq::<RecordView>::empty());
                    let moved = Reconciler {
                        config,
                        phase,
                        desired_ip,
                        zone: zone + 1,
                        queue: empty,
                        next: 0,
                        outcomes,
                        trace: Ghost(trace@.push(failed_zone())),
                    };
                    (moved, lines)
                },
                _ => {
                    (Reconciler { config, phase, desired_ip, zone, queue, next, outcomes, trace }, lines)
                },
            },
            Phase::Updating => match event {
                Event::Written(reply) => {
                    let ghost failure = failure_of(event@->Written_0);
                    let outcome = UpdateOutcome::of_write(queue[next].name.as_str(), reply);
                    lines.push(StatusLine::outcome(&outcome));
                    let mut outcomes = outcomes;
                    let ghost outcomes_before = outcome_views(outcomes@);
                    outcomes.push(outcome);
                    assert(outcome_views(outcomes@) =~= outcomes_before.push(
                        write_outcome(before.queue[before.next].name, failure),
                    ));
                    let ghost zone_before = trace@.last();
                    let ghost trace_after = trace@.drop_last().push(
                        ZoneTrace { failures: zone_before.failures.push(failure), ..zone_before },
                    );
                    if next + 1 < queued {
                        let moved = Reconciler {
                            config,
                            phase,
                            desired_ip,
                            zone,
                            queue,
                            next: next + 1,
                            outcomes,
                            trace: Ghost(trace_after),
                        };
                        (moved, lines)
                    } else {
                        let phase = announce_zone(&config, zone + 1, &mut lines);
                        let empty: Vec<Record> = Vec::new();
                        assert(record_views(empty@) =~= Seq::<RecordView>::empty());
                        let moved = Reconciler {
                            config,
                            phase,
                            desired_ip,
                            zone: zone + 1,
                            queue: empty,
                            next: 0,
                            outcomes,
                            trace: Ghost(trace_after),
                        };
                        (moved, lines)
                    }
                },
                _ => {
                    (Reconciler { config, phase, desired_ip, zone, queue, next, outcomes, trace }, lines)
                },
            },
            _ => {
                (Reconciler { config, phase, desired_ip, zone, queue, next, outcomes, trace }, lines)
            },
        }
    }
}

/// The records of a listing that the configuration manages.
pub open spec fn managed_records(config: ConfigView, records: Seq<RecordView>) -> Seq<RecordView> {
    records.filter(|record: RecordView| managed(config, record))
}

/// How many records the successful listings of a trace returned.
pub open spec fn listed_count(trace: Seq<ZoneTrace>) -> nat
    decreases trace.len(),
{
    if trace.len() == 0 {
        0
    } else {
        listed_count(trace.drop_last()) + match trace.last().listing {
            None => 0,
            Some(records) => records.len(),
        }
    }
}

/// How many managed records the successful listings of a trace returned.
pub open spec fn managed_count(config: ConfigView, trace: Seq<ZoneTrace>) -> nat
    decreases trace.len(),
{
    if trace.len() == 0 {
        0
    } else {
        managed_count(config, trace.drop_last()) + match trace.last().listing {
            None => 0,
            Some(records) => managed_records(config, records).len(),
        }
    }
}

/// Whether every record that the successful listings of a trace returned is
/// a managed one.
pub open spec fn all_managed(config: ConfigView, trace: Seq<ZoneTrace>) -> bool {
    forall|j: int, k: int|
        0 <= j < trace.len() && trace[j].listing is Some && 0 <= k < trace[j].listing->Some_0.len()
            ==> managed(config, #[trigger] trace[j].listing->Some_0[k])
}

/// Each managed record of a listing is either rewritten or found up to
/// date, and no other record is.
pub proof fn lemma_managed_records_part(config: ConfigView, records: Seq<RecordView>, desired_ip: Seq<char>)
    ensures
        settled(config, records, desired_ip).len() + survivors(config, records, desired_ip).len()
            == managed_records(config, records).len(),
    decreases records.len(),
{
    let kept = |record: RecordView| decision(config, record, desired_ip) == Decision::UpToDate;
    let wanted = |record: RecordView| should_update(config, record, desired_ip);
    let ours = |record: RecordView| managed(config, record);
    if records.len() == 0 {
        reveal(Seq::filter);
    } else {
        let front = records.drop_last();
        let last = records.last();
        lemma_managed_records_part(config, front, desired_ip);
        assert(records =~= front.push(last));
        front.lemma_filter_push(last, kept);
        front.lemma_filter_push(last, wanted);
        front.lemma_filter_push(last, ours);
    }
}

/// A listing whose records are all managed has as many managed records as
/// records.
pub proof fn lemma_all_managed_records(config: ConfigView, records: Seq<RecordView>)
    requires
        forall|k: int| 0 <= k < records.len() ==> managed(config, #[trigger] records[k]),
    ensures
        managed_records(config, records).len() == records.len(),
    decreases records.len(),
{
    let ours = |record: RecordView| managed(config, record);
    if records.len() == 0 {
        reveal(Seq::filter);
    } else {
        let front = records.drop_last();
        let last = records.last();
        lemma_all_managed_records(config, front);
        assert(records =~= front.push(last));
        front.lemma_filter_push(last, ours);
    }
}

/// A complete zone adds one outcome for each managed record of its listing.
pub proof fn lemma_zone_outcome_count(config: ConfigView, desired_ip: Seq<char>, zone: ZoneTrace)
    requires
        zone_complete(config, desired_ip, zone),
    ensures
        zone_outcomes(config, desired_ip, zone).len() == match zone.listing {
            None => 0,
            Some(records) => managed_records(config, records).len(),
        },
{
    if let Some(records) = zone.listing {
        lemma_managed_records_part(config, records, desired_ip);
    }
}

/// A run whose zones are complete has one outcome for each managed record
/// that its successful listings returned.
pub proof fn lemma_outcome_count(config: ConfigView, desired_ip: Seq<char>, trace: Seq<ZoneTrace>)
    requires
        trace_complete(config, desired_ip, trace),
    ensures
        run_outcomes(config, desired_ip, trace).len() == managed_count(config, trace),
    decreases trace.len(),
{
    if trace.len() > 0 {
        lemma_outcome_count(config, desired_ip, trace.drop_last());
        lemma_zone_outcome_count(config, desired_ip, trace.last());
    }
}

/// Where every listed record is a managed one, a run whose zones are
/// complete has one outcome for each record that its successful listings
/// returned.
pub proof fn lemma_outcome_per_listed_record(config: ConfigView, desired_ip: Seq<char>, trace: Seq<ZoneTrace>)
    requires
        trace_complete(config, desired_ip, trace),
        all_managed(config, trace),
    ensures
        run_outcomes(config, desired_ip, trace).len() == listed_count(trace),
    decreases trace.len(),
{
    if trace.len() > 0 {
        lemma_outcome_per_listed_record(config, desired_ip, trace.drop_last());
        lemma_zone_outcome_count(config, desired_ip, trace.last());
        if let Some(records) = trace.last().listing {
            lemma_all_managed_records(config, records);
        }
    }
}

/// When a run has finished, its outcomes are those of the answers it
/// received, one for each managed record of its successful listings.
pub proof fn lemma_finished_outcome_count(s: ReconcilerView)
    requires
        inv(s),
        s.phase == Phase::Finished,
    ensures
        s.trace.len() == s.config.records_to_update.len(),
        s.outcomes == run_outcomes(s.config, s.desired_ip, s.trace),
        s.outcomes.len() == managed_count(s.config, s.trace),
        all_managed(s.config, s.trace) ==> s.outcomes.len() == listed_count(s.trace),
{
    lemma_outcome_count(s.config, s.desired_ip, s.trace);
    if all_managed(s.config, s.trace) {
        lemma_outcome_per_listed_record(s.config, s.desired_ip, s.trace);
    }
}

/// The outcomes of two traces in a row are those of the first, then those
/// of the second.
pub proof fn lemma_run_outcomes_concat(
    config: ConfigView,
    desired_ip: Seq<char>,
    first: Seq<ZoneTrace>,
    second: Seq<ZoneTrace>,
)
    ensures
        run_outcomes(config, desired_ip, first + second) == run_outcomes(config, desired_ip, first)
            + run_outcomes(config, desired_ip, second),
    decreases second.len(),
{
    if second.len() > 0 {
        lemma_run_outcomes_concat(config, desired_ip, first, second.drop_last());
        assert((first + second).drop_last() =~= first + second.drop_last());
    }
}

/// A zone whose listing fails takes nothing from the other zones: the run
/// has the outcomes that it would have without that zone, those of the
/// zones before it and then those of the zones after it.
pub proof fn lemma_failed_listing_spares_others(
    config: ConfigView,
    desired_ip: Seq<char>,
    earlier: Seq<ZoneTrace>,
    later: Seq<ZoneTrace>,
)
    ensures
        run_outcomes(config, desired_ip, earlier.push(failed_zone()) + later) == run_outcomes(
            config,
            desired_ip,
            earlier,
        ) + run_outcomes(config, desired_ip, later),
{
    lemma_run_outcomes_concat(config, desired_ip, earlier.push(failed_zone()), later);
    lemma_run_outcomes_push(config, desired_ip, earlier, failed_zone());
}

/// A listing that fails leaves the outcomes as they are, and the run goes
/// on with the next zone, or finishes in success after the last.
pub proof fn lemma_failed_listing_goes_on(s: ReconcilerView, cause: Seq<char>)
    requires
        inv(s),
        s.phase == Phase::Listing,
    ensures
        next_state(s, EventView::Listed(Err(cause))).outcomes == s.outcomes,
        next_state(s, EventView::Listed(Err(cause))).zone == s.zone + 1,
        next_state(s, EventView::Listed(Err(cause))).phase == (if s.zone + 1
            < s.config.records_to_update.len() {
            Phase::Listing
        } else {
            Phase::Finished
        }),
{
}

/// Every rewrite that a run asks for sends a record of the current zone's
/// listing that the selector picked, with the discovered address as its
/// content and every other field as listed.
pub proof fn lemma_put_sends_listed_record(s: ReconcilerView)
    requires
        inv(s),
        s.phase == Phase::Updating,
    ensures
        pending_action(s) is Put,
        pending_action(s)->Put_body == rewritten(s.queue[s.next], s.desired_ip),
        pending_action(s)->Put_body.content == s.desired_ip,
        pending_action(s)->Put_body.id == s.queue[s.next].id,
        pending_action(s)->Put_body.zone_id == s.queue[s.next].zone_id,
        pending_action(s)->Put_body.name == s.queue[s.next].name,
        pending_action(s)->Put_body.kind == s.queue[s.next].kind,
        s.trace.last().listing->Some_0.contains(s.queue[s.next]),
        should_update(s.config, s.queue[s.next], s.desired_ip),
{
    let records = s.trace.last().listing->Some_0;
    let wanted = |record: RecordView| should_update(s.config, record, s.desired_ip);
    let picked = s.queue[s.next];
    records.lemma_filter_contains_rev(wanted, picked);
}

/// A managed record that already carries the discovered address is
/// reported exactly once when it is listed: one line, one outcome, and no
/// rewrite.
pub proof fn lemma_current_record_reported_once(s: ReconcilerView, response: CfResponseView, record: RecordView)
    requires
        inv(s),
        s.phase == Phase::Listing,
        response.result == seq![record],
        managed(s.config, record),
        record.content == s.desired_ip,
    ensures
        emitted(s, EventView::Listed(Ok(response))) == seq![outcome_line(up_to_date_outcome(record.name))]
            + entry_lines(s.config, s.zone + 1),
        next_state(s, EventView::Listed(Ok(response))).outcomes == s.outcomes.push(
            up_to_date_outcome(record.name),
        ),
        !(pending_action(next_state(s, EventView::Listed(Ok(response)))) is Put),
{
    crate::record::lemma_current_record_is_kept(s.config, record, s.desired_ip);
}

/// Nothing but a failed discovery makes a run end without success: a
/// listing or a rewrite that fails leaves the run on its way.
pub proof fn lemma_only_discovery_aborts(s: ReconcilerView, event: EventView)
    requires
        inv(s),
        s.phase != Phase::Aborted,
    ensures
        next_state(s, event).phase == Phase::Aborted <==> s.phase == Phase::Discovering
            && event is Address && event->Address_0 is Err,
{
}

} // verus!
