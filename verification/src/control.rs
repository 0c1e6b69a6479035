//! The control loop: resolve, compare, update each rule in order, wait.
//!
//! The loop is a state machine. The caller performs the [`Action`] that a
//! step asks for and hands the result back as the next [`Event`]; every
//! decision in between is taken by [`ControlLoop::step`].

use crate::resolver::{address_from_reply, resolved, LookupReply, Reply, ResolveError};
use crate::tracker::{check_ip_changed, AddressRecord, IpAddresses};
use crate::updater::{
    conclude_update, host_range, plan_update, planned, valid_address, valid_rule_name,
    UpdateError, UpdateFailure, UpdateOrder, UpdateRequest,
};
use vstd::prelude::*;

verus! {

/// The wait between the end of one cycle and the start of the next, in
/// seconds.
pub const CYCLE_INTERVAL_SECS: u64 = 180;

/// Where the loop stands. `Idle` is the time between cycles; in every other
/// phase a cycle is running and the loop waits for the outcome of the action
/// it asked for.
#[derive(Debug, Clone, Copy, PartialEq, Eq)]
pub enum Phase {
    /// Between cycles, waiting for the interval to pass.
    Idle,
    /// Waiting for the reply of the lookup service.
    Resolving,
    /// Waiting for the changed record to be stored.
    Storing,
    /// Waiting for the firewall service's answer on the rule at `index`.
    Updating { index: usize },
}

/// The outside work the loop asks its caller to do next.
#[derive(Debug, PartialEq, Eq)]
pub enum Action {
    /// Ask the lookup service for the public address; answer with
    /// [`Event::LookedUp`].
    Lookup,
    /// Store the record durably; answer with [`Event::Stored`].
    Store(IpAddresses),
    /// Send the update to the firewall service; answer with
    /// [`Event::Updated`].
    Update(UpdateRequest),
    /// Wait for this many seconds; answer with [`Event::Wake`].
    Sleep(u64),
}

/// The mathematical value of an [`Action`].
pub enum ActionView {
    Lookup,
    Store(AddressRecord),
    Update(UpdateOrder),
    Sleep(u64),
}

impl View for Action {
    type V = ActionView;

    open spec fn view(&self) -> ActionView {
        match self {
            Action::Lookup => ActionView::Lookup,
            Action::Store(record) => ActionView::Store(record@),
            Action::Update(request) => ActionView::Update(request@),
            Action::Sleep(seconds) => ActionView::Sleep(*seconds),
        }
    }
}

/// What the caller reports back to the loop.
#[derive(Debug, PartialEq, Eq)]
pub enum Event {
    /// The wait is over, or the process has just started.
    Wake,
    /// The lookup request has ended with this reply.
    LookedUp(LookupReply),
    /// The record has been stored (`Ok`) or could not be (`Err`, with the
    /// reason).
    Stored(Result<(), String>),
    /// The firewall service has acknowledged the update (`Ok`) or has not
    /// (`Err`, with its diagnostic).
    Updated(Result<(), String>),
}

/// The mathematical value of an [`Event`].
pub enum EventView {
    Wake,
    LookedUp(Reply),
    Stored(Result<(), Seq<char>>),
    Updated(Result<(), Seq<char>>),
}

/// The characters of the outcome of a piece of outside work.
pub open spec fn outcome_view(outcome: Result<(), String>) -> Result<(), Seq<char>> {
    match outcome {
        Ok(_) => Ok(()),
        Err(text) => Err(text@),
    }
}

impl View for Event {
    type V = EventView;

    open spec fn view(&self) -> EventView {
        match self {
            Event::Wake => EventView::Wake,
            Event::LookedUp(reply) => EventView::LookedUp(reply@),
            Event::Stored(outcome) => EventView::Stored(outcome_view(*outcome)),
            Event::Updated(outcome) => EventView::Updated(outcome_view(*outcome)),
        }
    }
}

/// Something that happened during a step and is worth a line in the log.
#[derive(Debug, PartialEq, Eq)]
pub enum Report {
    /// No address could be resolved in this cycle.
    ResolutionFailed(ResolveError),
    /// The resolved address is the current one: nothing to do.
    AddressUnchanged,
    /// The resolved address differs from the current one and has replaced it.
    AddressChanged,
    /// The changed record could not be stored; the cycle goes on without.
    StoreFailed(String),
    /// The rule at `index` now allows the current address only.
    RuleUpdated { index: usize },
    /// The rule at `index` was not updated in this cycle.
    RuleFailed { index: usize, error: UpdateError },
    /// The event did not answer the action that was asked for; the cycle was
    /// given up.
    UnexpectedEvent,
}

/// The mathematical value of a [`Report`].
pub enum ReportView {
    ResolutionFailed(ResolveError),
    AddressUnchanged,
    AddressChanged,
    StoreFailed(Seq<char>),
    RuleUpdated { index: usize },
    RuleFailed { index: usize, error: UpdateFailure },
    UnexpectedEvent,
}

impl View for Report {
    type V = ReportView;

    open spec fn view(&self) -> ReportView {
        match self {
            Report::ResolutionFailed(error) => ReportView::ResolutionFailed(*error),
            Report::AddressUnchanged => ReportView::AddressUnchanged,
            Report::AddressChanged => ReportView::AddressChanged,
            Report::StoreFailed(reason) => ReportView::StoreFailed(reason@),
            Report::RuleUpdated { index } => ReportView::RuleUpdated { index: *index },
            Report::RuleFailed { index, error } => ReportView::RuleFailed {
                index: *index,
                error: error@,
            },
            Report::UnexpectedEvent => ReportView::UnexpectedEvent,
        }
    }
}

/// The values of a list of reports, in order.
pub open spec fn reports_view(reports: Seq<Report>) -> Seq<ReportView> {
    Seq::new(reports.len(), |i: int| reports[i]@)
}

/// The result of one step: what happened, and what to do next.
#[derive(Debug, PartialEq, Eq)]
pub struct Step {
    pub reports: Vec<Report>,
    pub action: Action,
}

/// The mathematical value of a [`Step`].
pub struct StepView {
    pub reports: Seq<ReportView>,
    pub action: ActionView,
}

impl View for Step {
    type V = StepView;

    open spec fn view(&self) -> StepView {
        StepView { reports: reports_view(self.reports@), action: self.action@ }
    }
}

/// Why the loop cannot start.
#[derive(Debug, Clone, Copy, PartialEq, Eq)]
pub enum StartupError {
    /// No rule name was given.
    NoRuleNames,
}

/// The first position at or after `from` whose rule can be sent an update
/// for `ip`; the number of rules when there is none.
pub open spec fn next_sendable(rule_names: Seq<Seq<char>>, ip: Seq<char>, from: int) -> int
    decreases rule_names.len() - from,
{
    if from < 0 || from >= rule_names.len() {
        rule_names.len() as int
    } else if planned(rule_names[from], ip) is Ok {
        from
    } else {
        next_sendable(rule_names, ip, from + 1)
    }
}

/// One report for each rule from `from` up to, not including, `to`: each of
/// them was refused an update for `ip`, for the reason given.
pub open spec fn rejections(rule_names: Seq<Seq<char>>, ip: Seq<char>, from: int, to: int) -> Seq<
    ReportView,
> {
    Seq::new(
        if from < to {
            (to - from) as nat
        } else {
            0
        },
        |k: int|
            ReportView::RuleFailed {
                index: (from + k) as usize,
                error: planned(rule_names[from + k], ip)->Err_0,
            },
    )
}

/// What is reported once the attempt to store the record has ended: nothing
/// when it was stored, otherwise the failure.
pub open spec fn store_reports(outcome: Result<(), Seq<char>>) -> Seq<ReportView> {
    match outcome {
        Ok(_) => Seq::empty(),
        Err(reason) => seq![ReportView::StoreFailed(reason)],
    }
}

/// What is reported for the rule at `index` once the firewall service has
/// answered.
pub open spec fn rule_report(index: usize, outcome: Result<(), Seq<char>>) -> ReportView {
    match outcome {
        Ok(_) => ReportView::RuleUpdated { index },
        Err(text) => ReportView::RuleFailed {
            index,
            error: UpdateFailure::ExternalUpdateFailed(text),
        },
    }
}

/// The mathematical value of a [`ControlLoop`].
pub struct LoopState {
    /// The configured rule names, in the order in which they are updated.
    pub rule_names: Seq<Seq<char>>,
    /// The addresses remembered.
    pub record: AddressRecord,
    /// Whether a changed record is stored before any rule is updated.
    pub persist: bool,
    pub phase: Phase,
}

impl LoopState {
    /// The state a loop starts in.
    pub open spec fn initial(rule_names: Seq<Seq<char>>, record: AddressRecord, persist: bool)
        -> LoopState {
        LoopState { rule_names, record, persist, phase: Phase::Idle }
    }

    /// Whether a cycle is in progress.
    pub open spec fn running(self) -> bool {
        self.phase != Phase::Idle
    }

    /// The same state in another phase.
    pub open spec fn in_phase(self, phase: Phase) -> LoopState {
        LoopState { phase, ..self }
    }

    /// The end of a cycle: the loop goes idle and asks for the wait.
    pub open spec fn rest(self, reports: Seq<ReportView>) -> (LoopState, StepView) {
        (
            self.in_phase(Phase::Idle),
            StepView { reports, action: ActionView::Sleep(CYCLE_INTERVAL_SECS) },
        )
    }

    /// Goes on with the rules from position `from`: every rule that is
    /// refused an update is reported and passed over, and the first rule that
    /// is not is sent its update. When no rule is left the cycle ends.
    pub open spec fn proceed(self, from: int, reports: Seq<ReportView>) -> (LoopState, StepView) {
        match self.record.current {
            None => self.rest(reports),
            Some(ip) => {
                let next = next_sendable(self.rule_names, ip, from);
                let all = reports + rejections(self.rule_names, ip, from, next);
                if next < self.rule_names.len() {
                    (
                        self.in_phase(Phase::Updating { index: next as usize }),
                        StepView {
                            reports: all,
                            action: ActionView::Update(planned(self.rule_names[next], ip)->Ok_0),
                        },
                    )
                } else {
                    self.rest(all)
                }
            },
        }
    }

    /// What the loop does with the reply of the lookup service. Without an
    /// address, or with the address it already has, the cycle ends. A new
    /// address replaces the current one; then the record is stored, where the
    /// loop persists it, before the first rule is updated; a record that
    /// could not be stored does not hold the updates back.
    pub open spec fn after_lookup(self, reply: Reply) -> (LoopState, StepView) {
        match resolved(reply) {
            Err(error) => self.rest(seq![ReportView::ResolutionFailed(error)]),
            Ok(ip) => {
                if self.record.differs_from(ip) {
                    let changed = LoopState { record: self.record.observe(ip), ..self };
                    if self.persist {
                        (
                            changed.in_phase(Phase::Storing),
                            StepView {
                                reports: seq![ReportView::AddressChanged],
                                action: ActionView::Store(changed.record),
                            },
                        )
                    } else {
                        changed.proceed(0, seq![ReportView::AddressChanged])
                    }
                } else {
                    self.rest(seq![ReportView::AddressUnchanged])
                }
            },
        }
    }

    /// The next state and the step taken on `event`. An event that does not
    /// answer what the phase waits for ends the cycle.
    pub open spec fn transition(self, event: EventView) -> (LoopState, StepView) {
        match (self.phase, event) {
            (Phase::Idle, EventView::Wake) => (
                self.in_phase(Phase::Resolving),
                StepView { reports: Seq::empty(), action: ActionView::Lookup },
            ),
            (Phase::Resolving, EventView::LookedUp(reply)) => self.after_lookup(reply),
            (Phase::Storing, EventView::Stored(outcome)) => self.proceed(
                0,
                store_reports(outcome),
            ),
            (Phase::Updating { index }, EventView::Updated(outcome)) => self.proceed(
                index + 1,
                seq![rule_report(index, outcome)],
            ),
            _ => self.rest(seq![ReportView::UnexpectedEvent]),
        }
    }

    /// The actions the loop asks for, one after another, while the answers
    /// `outcomes` of the firewall service come in: one action for each answer
    /// that reaches the loop while it waits on a rule.
    pub open spec fn answered(self, outcomes: Seq<Result<(), Seq<char>>>) -> Seq<ActionView>
        decreases outcomes.len(),
    {
        if outcomes.len() == 0 || !(self.phase is Updating) {
            Seq::empty()
        } else {
            let (next, step) = self.transition(EventView::Updated(outcomes[0]));
            seq![step.action] + next.answered(outcomes.drop_first())
        }
    }

    /// The actions of a whole cycle, from the reply of the lookup service on,
    /// in a loop that does not persist its record.
    pub open spec fn cycle(self, reply: Reply, outcomes: Seq<Result<(), Seq<char>>>) -> Seq<
        ActionView,
    > {
        let (next, step) = self.transition(EventView::LookedUp(reply));
        seq![step.action] + next.answered(outcomes)
    }
}

/// The update for `rule_name` that allows `ip` and nothing else.
pub open spec fn order_for(rule_name: Seq<char>, ip: Seq<char>) -> UpdateOrder {
    UpdateOrder { rule_name, source_ranges: seq![host_range(ip)] }
}

/// The updater's loop: the configured rule names, the addresses remembered,
/// and the phase the current cycle is in.
pub struct ControlLoop {
    rule_names: Vec<String>,
    record: IpAddresses,
    persist: bool,
    phase: Phase,
}

impl View for ControlLoop {
    type V = LoopState;

    closed spec fn view(&self) -> LoopState {
        LoopState {
            rule_names: self.rule_names.deep_view(),
            record: self.record@,
            persist: self.persist,
            phase: self.phase,
        }
    }
}

/// Walks the rules from position `from`. Each rule that is refused an update
/// for `ip` gets a report appended to `reports`; the walk stops at the first
/// rule that is not refused and gives its position and its update.
fn first_sendable(
    rule_names: &Vec<String>,
    ip: &str,
    from: usize,
    reports: &mut Vec<Report>,
) -> (found: Option<(usize, UpdateRequest)>)
    ensures
        reports_view(final(reports)@) == reports_view(old(reports)@) + rejections(
            rule_names.deep_view(),
            ip@,
            from as int,
            next_sendable(rule_names.deep_view(), ip@, from as int),
        ),
        match found {
            Some((index, request)) => {
                &&& index < rule_names.len()
                &&& index == next_sendable(rule_names.deep_view(), ip@, from as int)
                &&& planned(rule_names.deep_view()[index as int], ip@) == Ok::<
                    UpdateOrder,
                    UpdateFailure,
                >(request@)
            },
            None => next_sendable(rule_names.deep_view(), ip@, from as int) == rule_names.len(),
        },
{
    let ghost names = rule_names.deep_view();
    let ghost before = reports_view(reports@);
    let mut i = from;
    while i < rule_names.len()
        invariant
            from <= i,
            i <= rule_names.len() || i == from,
            names == rule_names.deep_view(),
            before == reports_view(old(reports)@),
            next_sendable(names, ip@, i as int) == next_sendable(names, ip@, from as int),
            reports_view(reports@) == before + rejections(names, ip@, from as int, i as int),
        decreases rule_names.len() - i,
    {
        let ghost so_far = reports_view(reports@);
        assert(names[i as int] == rule_names[i as int]@);
        match plan_update(rule_names[i].as_str(), ip) {
            Ok(request) => {
                return Some((i, request));
            },
            Err(error) => {
                reports.push(Report::RuleFailed { index: i, error });
            },
        }
        assert(reports_view(reports@) =~= so_far.push(
            ReportView::RuleFailed { index: i, error: planned(names[i as int], ip@)->Err_0 },
        ));
        assert(before + rejections(names, ip@, from as int, i + 1) =~= (before + rejections(
            names,
            ip@,
            from as int,
            i as int,
        )).push(ReportView::RuleFailed { index: i, error: planned(names[i as int], ip@)->Err_0 }));
        i += 1;
    }
    assert(rejections(names, ip@, from as int, i as int) =~= rejections(
        names,
        ip@,
        from as int,
        rule_names.len() as int,
    ));
    None
}

impl ControlLoop {
    /// Sets up the loop for `rule_names`, starting from `record` (empty, or
    /// what an earlier run stored). With `persist` set the loop asks for every
    /// changed record to be stored before it updates a rule. A loop without
    /// rule names is refused.
    pub fn new(rule_names: Vec<String>, record: IpAddresses, persist: bool) -> (made: Result<
        ControlLoop,
        StartupError,
    >)
        ensures
            rule_names.len() == 0 ==> made == Err::<ControlLoop, StartupError>(
                StartupError::NoRuleNames,
            ),
            rule_names.len() > 0 ==> made is Ok && made->Ok_0@ == LoopState::initial(
                rule_names.deep_view(),
                record@,
                persist,
            ),
    {
        if rule_names.len() == 0 {
            Err(StartupError::NoRuleNames)
        } else {
            Ok(ControlLoop { rule_names, record, persist, phase: Phase::Idle })
        }
    }

    /// The phase the loop is in.
    pub fn phase(&self) -> (phase: Phase)
        ensures
            phase == self@.phase,
    {
        self.phase
    }

    /// The addresses the loop remembers.
    pub fn record(&self) -> (record: &IpAddresses)
        ensures
            record@ == self@.record,
    {
        &self.record
    }

    /// The configured rule names, in the order in which they are updated.
    pub fn rule_names(&self) -> (rule_names: &Vec<String>)
        ensures
            rule_names.deep_view() == self@.rule_names,
    {
        &self.rule_names
    }

    /// Whether the loop asks for changed records to be stored.
    pub fn persists(&self) -> (persist: bool)
        ensures
            persist == self@.persist,
    {
        self.persist
    }

    /// Ends the cycle: the loop goes idle and asks for the wait.
    fn rest(&mut self, reports: Vec<Report>) -> (step: Step)
        ensures
            (final(self)@, step@) == old(self)@.rest(reports_view(reports@)),
    {
        self.phase = Phase::Idle;
        Step { reports, action: Action::Sleep(CYCLE_INTERVAL_SECS) }
    }

    /// Goes on with the rules from position `from`.
    fn proceed(&mut self, from: usize, reports: Vec<Report>) -> (step: Step)
        ensures
            (final(self)@, step@) == old(self)@.proceed(from as int, reports_view(reports@)),
    {
        let mut reports = reports;
        let found = match &self.record.current_ip {
            None => None,
            Some(ip) => first_sendable(&self.rule_names, ip.as_str(), from, &mut reports),
        };
        match found {
            Some((index, request)) => {
                self.phase = Phase::Updating { index };
                Step { reports, action: Action::Update(request) }
            },
            None => self.rest(reports),
        }
    }

    /// Takes the next decision of the loop. `event` is the outcome of the
    /// action that the previous step asked for ([`Event::Wake`] at the start);
    /// the step says what happened and which action is to be performed next.
    /// No event stops the loop: whatever fails, the cycle ends with the wait
    /// for the next one.
    pub fn step(&mut self, event: Event) -> (step: Step)
        ensures
            (final(self)@, step@) == old(self)@.transition(event@),
    {
        let ghost expected = self@.transition(event@);
        let step = match (self.phase, event) {
            (Phase::Idle, Event::Wake) => {
                self.phase = Phase::Resolving;
                Step { reports: Vec::new(), action: Action::Lookup }
            },
            (Phase::Resolving, Event::LookedUp(reply)) => {
                match address_from_reply(&reply) {
                    Err(error) => {
                        let mut reports: Vec<Report> = Vec::new();
                        reports.push(Report::ResolutionFailed(error));
                        self.rest(reports)
                    },
                    Ok(ip) => {
                        let mut reports: Vec<Report> = Vec::new();
                        if check_ip_changed(ip.as_str(), &mut self.record) {
                            reports.push(Report::AddressChanged);
                            if self.persist {
                                self.phase = Phase::Storing;
                                Step { reports, action: Action::Store(self.record.snapshot()) }
                            } else {
                                self.proceed(0, reports)
                            }
                        } else {
                            reports.push(Report::AddressUnchanged);
                            self.rest(reports)
                        }
                    },
                }
            },
            (Phase::Storing, Event::Stored(outcome)) => {
                let mut reports: Vec<Report> = Vec::new();
                match outcome {
                    Ok(_) => {},
                    Err(reason) => {
                        reports.push(Report::StoreFailed(reason));
                    },
                }
                assert(reports_view(reports@) =~= store_reports(outcome_view(outcome)));
                self.proceed(0, reports)
            },
            (Phase::Updating { index }, Event::Updated(outcome)) => {
                let mut reports: Vec<Report> = Vec::new();
                match conclude_update(outcome) {
                    Ok(_) => {
                        reports.push(Report::RuleUpdated { index });
                    },
                    Err(error) => {
                        reports.push(Report::RuleFailed { index, error });
                    },
                }
                if index < self.rule_names.len() {
                    self.proceed(index + 1, reports)
                } else {
                    self.rest(reports)
                }
            },
            _ => {
                let mut reports: Vec<Report> = Vec::new();
                reports.push(Report::UnexpectedEvent);
                self.rest(reports)
            },
        };
        assert(step@.reports =~= expected.1.reports);
        step
    }
}

/// [`next_sendable`] passes over refused rules only, and stops at a rule
/// that is not refused: every rule between `from` and the position it gives
/// is refused an update for `ip`, and the rule at that position, if there is
/// one, is not.
pub proof fn lemma_next_sendable(rule_names: Seq<Seq<char>>, ip: Seq<char>, from: int)
    requires
        0 <= from <= rule_names.len(),
    ensures
        from <= next_sendable(rule_names, ip, from) <= rule_names.len(),
        forall|k: int|
            from <= k < next_sendable(rule_names, ip, from) ==> planned(
                #[trigger] rule_names[k],
                ip,
            ) is Err,
        next_sendable(rule_names, ip, from) < rule_names.len() ==> planned(
            rule_names[next_sendable(rule_names, ip, from)],
            ip,
        ) is Ok,
    decreases rule_names.len() - from,
{
    if from < rule_names.len() && !(planned(rule_names[from], ip) is Ok) {
        lemma_next_sendable(rule_names, ip, from + 1);
    }
}

/// The action a step asks for is the one the new phase waits on: the loop is
/// idle exactly when it has asked for the wait, and a cycle is running exactly
/// when it has asked for the lookup, the storing of the record or an update.
pub proof fn lemma_action_matches_phase(state: LoopState, event: EventView)
    ensures
        match state.transition(event).0.phase {
            Phase::Idle => state.transition(event).1.action == ActionView::Sleep(
                CYCLE_INTERVAL_SECS,
            ),
            Phase::Resolving => state.transition(event).1.action == ActionView::Lookup,
            Phase::Storing => state.transition(event).1.action == ActionView::Store(
                state.transition(event).0.record,
            ),
            Phase::Updating { .. } => state.transition(event).1.action is Update,
        },
        state.transition(event).0.running() <==> !(state.transition(event).1.action is Sleep),
{
}

/// No step alters the configuration: the rule names, their order and the
/// choice to persist stay as they were given at the start.
pub proof fn lemma_configuration_is_kept(state: LoopState, event: EventView)
    ensures
        state.transition(event).0.rule_names == state.rule_names,
        state.transition(event).0.persist == state.persist,
{
}

/// The record changes in one place only: where the reply of the lookup
/// service brings an address, the record has observed it after the step.
/// Every other step leaves the record as it was.
pub proof fn lemma_record_follows_lookup(state: LoopState, event: EventView)
    ensures
        match (state.phase, event) {
            (Phase::Resolving, EventView::LookedUp(reply)) => match resolved(reply) {
                Ok(ip) => state.transition(event).0.record == state.record.observe(ip),
                Err(_) => state.transition(event).0.record == state.record,
            },
            _ => state.transition(event).0.record == state.record,
        },
{
}

/// The firewall service is sent nothing that did not pass both checks: when
/// a step asks for an update, the loop then waits on a configured rule whose
/// name passes, the current address passes, and the update names that rule
/// and lists the single range of that address.
pub proof fn lemma_update_only_when_valid(state: LoopState, event: EventView)
    requires
        state.rule_names.len() <= usize::MAX,
    ensures
        state.transition(event).1.action matches ActionView::Update(order) ==> {
            let after = state.transition(event).0;
            &&& after.phase matches Phase::Updating { index }
            &&& index < state.rule_names.len()
            &&& after.record.current matches Some(ip)
            &&& valid_rule_name(state.rule_names[index as int])
            &&& valid_address(ip)
            &&& order == (UpdateOrder {
                rule_name: state.rule_names[index as int],
                source_ranges: seq![host_range(ip)],
            })
        },
{
    let after = state.transition(event).0;
    if let Some(ip) = after.record.current {
        lemma_next_sendable(state.rule_names, ip, 0);
        if let Phase::Updating { index } = state.phase {
            if index < state.rule_names.len() {
                lemma_next_sendable(state.rule_names, ip, index + 1);
            }
        }
    }
}

/// In a loop that persists its record, a new address is stored before
/// anything else is done with it: the step that detects the change asks for
/// the changed record to be stored, and for no update.
pub proof fn lemma_changed_record_is_stored_first(state: LoopState, reply: Reply, ip: Seq<char>)
    requires
        state.phase == Phase::Resolving,
        state.persist,
        resolved(reply) == Ok::<Seq<char>, ResolveError>(ip),
        state.record.differs_from(ip),
    ensures
        state.transition(EventView::LookedUp(reply)).0.phase == Phase::Storing,
        state.transition(EventView::LookedUp(reply)).0.record == state.record.observe(ip),
        state.transition(EventView::LookedUp(reply)).1.action == ActionView::Store(
            state.record.observe(ip),
        ),
{
}

/// A cycle that resolves the address the record already holds does no work:
/// the record stays as it is, nothing is stored, no rule is updated, and the
/// loop goes idle for the interval.
pub proof fn lemma_repeated_address_is_no_work(state: LoopState, reply: Reply, ip: Seq<char>)
    requires
        state.phase == Phase::Resolving,
        resolved(reply) == Ok::<Seq<char>, ResolveError>(ip),
        state.record.current == Some(ip),
    ensures
        state.transition(EventView::LookedUp(reply)).0 == state.in_phase(Phase::Idle),
        state.transition(EventView::LookedUp(reply)).1 == (StepView {
            reports: seq![ReportView::AddressUnchanged],
            action: ActionView::Sleep(CYCLE_INTERVAL_SECS),
        }),
{
}

/// A rule that the firewall service fails to update holds nothing back: the
/// loop goes on to the same state and asks for the same action as after a
/// successful update. Only the report differs.
pub proof fn lemma_failed_update_does_not_stop_the_cycle(
    state: LoopState,
    index: usize,
    diagnostic: Seq<char>,
)
    requires
        state.phase == (Phase::Updating { index }),
    ensures
        state.transition(EventView::Updated(Err(diagnostic))).0 == state.transition(
            EventView::Updated(Ok(())),
        ).0,
        state.transition(EventView::Updated(Err(diagnostic))).1.action == state.transition(
            EventView::Updated(Ok(())),
        ).1.action,
{
}

/// The rules are taken in the order given and none is taken twice in a
/// cycle: after the answer on one rule the loop either ends the cycle or
/// waits on a later rule, and every rule in between was refused.
pub proof fn lemma_rules_are_taken_in_order(
    state: LoopState,
    index: usize,
    outcome: Result<(), Seq<char>>,
)
    requires
        state.rule_names.len() <= usize::MAX,
        state.phase == (Phase::Updating { index }),
        index < state.rule_names.len(),
        state.record.current is Some,
    ensures
        match state.transition(EventView::Updated(outcome)).0.phase {
            Phase::Idle => forall|k: int|
                index < k < state.rule_names.len() ==> planned(
                    #[trigger] state.rule_names[k],
                    state.record.current->0,
                ) is Err,
            Phase::Updating { index: next } => {
                &&& index < next < state.rule_names.len()
                &&& forall|k: int|
                    index < k < next ==> planned(
                        #[trigger] state.rule_names[k],
                        state.record.current->0,
                    ) is Err
            },
            _ => false,
        },
{
    lemma_next_sendable(state.rule_names, state.record.current->0, index + 1);
}

/// While the loop waits on the rule at `index` and every rule name and the
/// current address pass their checks, the answers of the firewall service
/// take it through all later rules, one update each and in the given order,
/// and then to the wait. What the answers are makes no difference.
pub proof fn lemma_answers_reach_every_rule(
    state: LoopState,
    ip: Seq<char>,
    index: usize,
    outcomes: Seq<Result<(), Seq<char>>>,
)
    requires
        state.rule_names.len() <= usize::MAX,
        state.phase == (Phase::Updating { index }),
        index < state.rule_names.len(),
        state.record.current == Some(ip),
        valid_address(ip),
        forall|k: int| 0 <= k < state.rule_names.len() ==> valid_rule_name(state.rule_names[k]),
        outcomes.len() == state.rule_names.len() - index,
    ensures
        state.answered(outcomes) == Seq::new(
            outcomes.len(),
            |k: int|
                if index + k + 1 < state.rule_names.len() {
                    ActionView::Update(order_for(state.rule_names[index + k + 1], ip))
                } else {
                    ActionView::Sleep(CYCLE_INTERVAL_SECS)
                },
        ),
    decreases outcomes.len(),
{
    let names = state.rule_names;
    let expected = Seq::new(
        outcomes.len(),
        |k: int|
            if index + k + 1 < names.len() {
                ActionView::Update(order_for(names[index + k + 1], ip))
            } else {
                ActionView::Sleep(CYCLE_INTERVAL_SECS)
            },
    );
    let (next, step) = state.transition(EventView::Updated(outcomes[0]));
    let rest = outcomes.drop_first();
    if index + 1 < names.len() {
        assert(valid_rule_name(names[index + 1]));
        assert(next_sendable(names, ip, index + 1) == index + 1);
        assert(next.phase == (Phase::Updating { index: (index + 1) as usize }));
        lemma_answers_reach_every_rule(next, ip, (index + 1) as usize, rest);
        assert(state.answered(outcomes) =~= expected);
    } else {
        assert(next.phase == Phase::Idle);
        assert(next.answered(rest) =~= Seq::<ActionView>::empty());
        assert(state.answered(outcomes) =~= expected);
    }
}

/// A cycle that resolves a new address updates every configured rule exactly
/// once, in the given order, each to the single range of that address, and
/// then waits: this holds in a loop that does not persist its record, where
/// every rule name and the address pass their checks, and whatever the
/// firewall service answers to each update.
pub proof fn lemma_cycle_updates_every_rule_once(
    state: LoopState,
    reply: Reply,
    ip: Seq<char>,
    outcomes: Seq<Result<(), Seq<char>>>,
)
    requires
        0 < state.rule_names.len() <= usize::MAX,
        state.phase == Phase::Resolving,
        !state.persist,
        resolved(reply) == Ok::<Seq<char>, ResolveError>(ip),
        state.record.differs_from(ip),
        valid_address(ip),
        forall|k: int| 0 <= k < state.rule_names.len() ==> valid_rule_name(state.rule_names[k]),
        outcomes.len() == state.rule_names.len(),
    ensures
        state.cycle(reply, outcomes) == Seq::new(
            outcomes.len() + 1,
            |k: int|
                if k < state.rule_names.len() {
                    ActionView::Update(order_for(state.rule_names[k], ip))
                } else {
                    ActionView::Sleep(CYCLE_INTERVAL_SECS)
                },
        ),
        state.transition(EventView::LookedUp(reply)).0.record == (AddressRecord {
            previous: state.record.current,
            current: Some(ip),
        }),
{
    let names = state.rule_names;
    let (next, step) = state.transition(EventView::LookedUp(reply));
    assert(valid_rule_name(names[0]));
    assert(next_sendable(names, ip, 0) == 0);
    assert(next.phase == (Phase::Updating { index: 0 }));
    lemma_answers_reach_every_rule(next, ip, 0, outcomes);
    assert(state.cycle(reply, outcomes) =~= Seq::new(
        outcomes.len() + 1,
        |k: int|
            if k < names.len() {
                ActionView::Update(order_for(names[k], ip))
            } else {
                ActionView::Sleep(CYCLE_INTERVAL_SECS)
            },
    ));
}

} // verus!
