//! The polling engine: fetch the queue, update every record in the order
//! received, wait out the interval, and start over. The engine is a state
//! machine; its caller sends what it asks for and hands back what happened.

use crate::services::esl_service::{
    esl_service_error_text, fetched, get_print_requests, get_print_requests_request,
    queue_request, EslServiceError, EslServiceErrorView,
};
use crate::services::exchange::{
    Credentials, CredentialsView, Payload, Reply, Request, RequestView,
};
use crate::services::generic_label::{GenericEsl, GenericEslView};
use crate::services::pricer::labels::resolved;
use crate::services::pricer_service::{
    advanced, led_to, lemma_led_to_goes_on, lemma_led_to_is_resolved, lemma_started_is_led_to,
    on_poll, pending_request, pricer_error_text, started, transformed, update_progress_text, PricerError,
    PricerErrorView, PricerEsl, PricerEslView, Progress, ProgressView, Update, UpdateView,
};
use std::collections::VecDeque;
use vstd::prelude::*;
use vstd::string::*;

verus! {

/// Why a polling run ended.
#[derive(Debug, PartialEq, Eq)]
#[allow(inconsistent_fields)]
pub enum PollingError {
    /// The queue could not be fetched.
    EslServiceError { source: EslServiceError },
    /// The update of a record failed.
    PricerError { source: PricerError },
}

/// What a [`PollingError`] holds, as mathematical text.
#[allow(inconsistent_fields)]
pub enum PollingErrorView {
    EslServiceError { source: EslServiceErrorView },
    PricerError { source: PricerErrorView },
}

impl View for PollingError {
    type V = PollingErrorView;

    open spec fn view(&self) -> PollingErrorView {
        match self {
            PollingError::EslServiceError { source } => PollingErrorView::EslServiceError {
                source: source@,
            },
            PollingError::PricerError { source } => PollingErrorView::PricerError {
                source: source@,
            },
        }
    }
}

impl DeepView for PollingError {
    type V = PollingErrorView;

    open spec fn deep_view(&self) -> PollingErrorView {
        self@
    }
}

/// What is logged for a [`PollingError`].
pub open spec fn polling_error_text(error: PollingErrorView) -> Seq<char> {
    match error {
        PollingErrorView::EslServiceError { source } =>
            "An issue occured calling the EslService: "@ + esl_service_error_text(source),
        PollingErrorView::PricerError { source } =>
            "An issue occured calling the PricerService: "@ + pricer_error_text(source),
    }
}

impl PollingError {
    /// The error in words, for the log.
    pub fn message(&self) -> (text: String)
        ensures
            text@ == polling_error_text(self@),
    {
        match self {
            PollingError::EslServiceError { source } => String::from_str(
                "An issue occured calling the EslService: ",
            ).concat(source.message().as_str()),
            PollingError::PricerError { source } => String::from_str(
                "An issue occured calling the PricerService: ",
            ).concat(source.message().as_str()),
        }
    }
}

/// The longest single sleep, in milliseconds: the wait between two cycles is
/// cut into pieces of at most this length, so that an observer can show that
/// the engine is alive.
pub const TICK_MILLIS: u64 = 150;

/// The configuration of a polling run. Nothing else outlives a cycle.
#[derive(Debug, PartialEq, Eq)]
pub struct Poller {
    pub client_serial: String,
    pub hublot_server_url: String,
    pub esl_server_url: String,
    pub credentials: Credentials,
    /// The wait between two cycles, in milliseconds.
    pub interval: u64,
}

/// What a [`Poller`] holds, as mathematical values.
pub struct PollerView {
    pub client_serial: Seq<char>,
    pub hublot_server_url: Seq<char>,
    pub esl_server_url: Seq<char>,
    pub credentials: CredentialsView,
    pub interval: u64,
}

impl View for Poller {
    type V = PollerView;

    open spec fn view(&self) -> PollerView {
        PollerView {
            client_serial: self.client_serial@,
            hublot_server_url: self.hublot_server_url@,
            esl_server_url: self.esl_server_url@,
            credentials: self.credentials@,
            interval: self.interval,
        }
    }
}

/// Where a polling run stands.
#[derive(Debug, PartialEq, Eq)]
pub enum PollState {
    /// The queue is to be fetched.
    Fetching,
    /// A record is being updated. `pending` holds the records that follow
    /// it in this cycle, in the order in which they will be updated.
    Updating { update: Update, pending: VecDeque<PricerEsl> },
    /// The cycle is over; `waited` milliseconds of the interval have passed.
    Waiting { waited: u64 },
    /// The run has ended with an error.
    Failed { error: PollingError },
}

/// What a [`PollState`] holds, as mathematical values. `rest` holds the
/// records that follow the current one, in order.
pub enum PollStateView {
    Fetching,
    Updating { update: UpdateView, rest: Seq<PricerEslView> },
    Waiting { waited: u64 },
    Failed { error: PollingErrorView },
}

impl View for PollState {
    type V = PollStateView;

    open spec fn view(&self) -> PollStateView {
        match self {
            PollState::Fetching => PollStateView::Fetching,
            PollState::Updating { update, pending } => PollStateView::Updating {
                update: update@,
                rest: pending.deep_view(),
            },
            PollState::Waiting { waited } => PollStateView::Waiting { waited: *waited },
            PollState::Failed { error } => PollStateView::Failed { error: error@ },
        }
    }
}

/// What happened since the engine last said what to do.
#[derive(Debug, PartialEq, Eq)]
pub enum PollEvent {
    /// The request that was asked for has been sent; this came back.
    Reply(Reply),
    /// The sleep that was asked for is over.
    Tick,
}

/// What the engine asks its caller to do.
#[derive(Debug, PartialEq, Eq)]
pub enum PollAction {
    Send(Request),
    Sleep { millis: u64 },
    /// The run has ended; its error is in the state.
    Stop,
}

/// What a [`PollAction`] holds, as mathematical values.
pub enum PollActionView {
    Send(RequestView),
    Sleep { millis: u64 },
    Stop,
}

impl View for PollAction {
    type V = PollActionView;

    open spec fn view(&self) -> PollActionView {
        match self {
            PollAction::Send(request) => PollActionView::Send(request@),
            PollAction::Sleep { millis } => PollActionView::Sleep { millis: *millis },
            PollAction::Stop => PollActionView::Stop,
        }
    }
}

/// The target records of a queue, in the order received.
pub open spec fn records(queue: Seq<GenericEslView>) -> Seq<PricerEslView> {
    queue.map_values(|esl: GenericEslView| transformed(esl))
}

/// The length of the next sleep when `waited` milliseconds of `interval`
/// have passed: what is left of the interval, at most one tick.
pub open spec fn next_sleep(interval: u64, waited: u64) -> u64 {
    if waited >= interval {
        0
    } else if interval - waited < TICK_MILLIS {
        (interval - waited) as u64
    } else {
        TICK_MILLIS
    }
}

/// The state after the last record of a cycle: waiting, unless there is no
/// interval to wait out.
pub open spec fn resting(interval: u64) -> PollStateView {
    if interval == 0 {
        PollStateView::Fetching
    } else {
        PollStateView::Waiting { waited: 0 }
    }
}

/// The state in which `records` are still to be updated: the first of them
/// is started, or the cycle is over where there is none.
pub open spec fn updating(interval: u64, records: Seq<PricerEslView>) -> PollStateView {
    if records.len() == 0 {
        resting(interval)
    } else {
        PollStateView::Updating { update: started(records[0]), rest: records.skip(1) }
    }
}

/// What the engine asks for in a state.
pub open spec fn action_of(poller: PollerView, state: PollStateView) -> PollActionView {
    match state {
        PollStateView::Fetching => PollActionView::Send(
            queue_request(poller.hublot_server_url, poller.client_serial),
        ),
        PollStateView::Updating { update, rest } => PollActionView::Send(
            pending_request(update, poller.esl_server_url, poller.credentials),
        ),
        PollStateView::Waiting { waited } => PollActionView::Sleep {
            millis: next_sleep(poller.interval, waited),
        },
        PollStateView::Failed { error } => PollActionView::Stop,
    }
}

/// The state after an event.
///
/// - Fetching, on a reply: an error ends the run; an empty queue ends the
///   cycle; else every record is transformed and the first is started.
/// - Updating, on a reply: an error ends the run, and the records that
///   follow are dropped; a record that is through makes way for the next.
/// - Waiting, on a tick: the sleep is added to the time waited; when the
///   interval is over the next cycle starts.
/// - An event that the state does not wait for changes nothing, and a run
///   that has ended stays ended.
pub open spec fn stepped(poller: PollerView, state: PollStateView, event: PollEvent) -> PollStateView {
    match (state, event) {
        (PollStateView::Fetching, PollEvent::Reply(reply)) => match fetched(reply) {
            Ok(queue) => updating(poller.interval, records(queue)),
            Err(source) => PollStateView::Failed {
                error: PollingErrorView::EslServiceError { source },
            },
        },
        (PollStateView::Updating { update, rest }, PollEvent::Reply(reply)) => match advanced(
            update,
            reply,
        ) {
            Ok(ProgressView::Pending(next)) => PollStateView::Updating { update: next, rest },
            Ok(ProgressView::Complete(esl)) => updating(poller.interval, rest),
            Err(source) => PollStateView::Failed {
                error: PollingErrorView::PricerError { source },
            },
        },
        (PollStateView::Waiting { waited }, PollEvent::Tick) => {
            let now = waited + next_sleep(poller.interval, waited);
            if now >= poller.interval {
                PollStateView::Fetching
            } else {
                PollStateView::Waiting { waited: now as u64 }
            }
        },
        _ => state,
    }
}

/// What an observer is shown in a state.
pub open spec fn progress_text(state: PollStateView) -> Seq<char> {
    match state {
        PollStateView::Fetching => "polling_broker: Getting print requests"@,
        PollStateView::Updating { update, rest } => update_progress_text(update),
        PollStateView::Waiting { waited } => "Waiting for a new update"@,
        PollStateView::Failed { error } => polling_error_text(error),
    }
}

impl PollState {
    /// What to show an observer in this state. Showing it, or not, changes
    /// nothing in the run.
    pub fn progress(&self) -> (text: String)
        ensures
            text@ == progress_text(self@),
    {
        match self {
            PollState::Fetching => String::from_str("polling_broker: Getting print requests"),
            PollState::Updating { update, pending } => update.progress(),
            PollState::Waiting { waited } => String::from_str("Waiting for a new update"),
            PollState::Failed { error } => error.message(),
        }
    }
}

/// Transforms a queue, record by record, in the order received.
fn transform_queue(queue: Vec<GenericEsl>) -> (pricer_requests: VecDeque<PricerEsl>)
    ensures
        pricer_requests.deep_view() == records(queue.deep_view()),
{
    let ghost received: Seq<GenericEsl> = queue@;
    let mut remaining: Vec<GenericEsl> = queue;
    let mut pricer_requests: VecDeque<PricerEsl> = VecDeque::new();
    while remaining.len() > 0
        invariant
            remaining@ == received.take(remaining@.len() as int),
            remaining@.len() <= received.len(),
            pricer_requests@.len() == received.len() - remaining@.len(),
            forall|i: int|
                0 <= i < pricer_requests@.len() ==> (#[trigger] pricer_requests@[i])@
                    == transformed(received[remaining@.len() + i]@),
        decreases remaining@.len(),
    {
        let ghost before: Seq<GenericEsl> = remaining@;
        let ghost done: Seq<PricerEsl> = pricer_requests@;
        let print_request: GenericEsl = remaining.pop().unwrap();
        assert(print_request == received[before.len() - 1]);
        assert(remaining@ == received.take(remaining@.len() as int));
        pricer_requests.push_front(PricerEsl::from(print_request));
        assert forall|i: int| 0 <= i < pricer_requests@.len() implies (
        #[trigger] pricer_requests@[i])@ == transformed(received[remaining@.len() + i]@) by {
            if i > 0 {
                assert(pricer_requests@[i] == done[i - 1]);
            }
        }
    }
    assert(pricer_requests.deep_view() =~= records(queue.deep_view()));
    pricer_requests
}

/// The state after the last record of a cycle.
fn rest(interval: u64) -> (state: PollState)
    ensures
        state@ == resting(interval),
{
    if interval == 0 {
        PollState::Fetching
    } else {
        PollState::Waiting { waited: 0 }
    }
}

/// Starts the first of the records that are still to be updated, or ends
/// the cycle where there is none.
fn begin(interval: u64, pending: VecDeque<PricerEsl>) -> (state: PollState)
    ensures
        state@ == updating(interval, pending.deep_view()),
{
    let ghost records: Seq<PricerEslView> = pending.deep_view();
    let mut pending: VecDeque<PricerEsl> = pending;
    match pending.pop_front() {
        Some(pricer_esl) => {
            assert(pending.deep_view() =~= records.skip(1));
            PollState::Updating { update: Update::new(pricer_esl), pending }
        },
        None => rest(interval),
    }
}

impl Poller {
    /// What the caller is to do in `state`: send a request, sleep, or stop.
    pub fn action(&self, state: &PollState) -> (action: PollAction)
        ensures
            action@ == action_of(self@, state@),
    {
        match state {
            PollState::Fetching => PollAction::Send(
                get_print_requests_request(
                    self.hublot_server_url.as_str(),
                    self.client_serial.as_str(),
                ),
            ),
            PollState::Updating { update, pending } => PollAction::Send(
                update.request(self.esl_server_url.as_str(), &self.credentials),
            ),
            PollState::Waiting { waited } => {
                let millis: u64 = if *waited >= self.interval {
                    0
                } else if self.interval - *waited < TICK_MILLIS {
                    self.interval - *waited
                } else {
                    TICK_MILLIS
                };
                PollAction::Sleep { millis }
            },
            PollState::Failed { error } => PollAction::Stop,
        }
    }
}

/// One step of the polling engine: the state after `event`.
///
/// The caller starts in [`PollState::Fetching`], does what
/// [`Poller::action`] says, and comes back with what happened. The engine
/// never ends a run by itself: it goes on until a step fails.
pub fn poll(poller: &Poller, state: PollState, event: PollEvent) -> (next: PollState)
    ensures
        next@ == stepped(poller@, state@, event),
{
    match state {
        PollState::Fetching => match event {
            PollEvent::Reply(reply) => match get_print_requests(reply) {
                Ok(print_requests) => begin(poller.interval, transform_queue(print_requests)),
                Err(source) => PollState::Failed {
                    error: PollingError::EslServiceError { source },
                },
            },
            PollEvent::Tick => PollState::Fetching,
        },
        PollState::Updating { update, pending } => match event {
            PollEvent::Reply(reply) => match on_poll(update, reply) {
                Ok(Progress::Pending(next)) => PollState::Updating { update: next, pending },
                Ok(Progress::Complete(pricer_esl)) => begin(poller.interval, pending),
                Err(source) => PollState::Failed { error: PollingError::PricerError { source } },
            },
            PollEvent::Tick => PollState::Updating { update, pending },
        },
        PollState::Waiting { waited } => match event {
            PollEvent::Tick => {
                if waited >= poller.interval {
                    PollState::Fetching
                } else if poller.interval - waited <= TICK_MILLIS {
                    PollState::Fetching
                } else {
                    PollState::Waiting { waited: waited + TICK_MILLIS }
                }
            },
            PollEvent::Reply(reply) => PollState::Waiting { waited },
        },
        PollState::Failed { error } => PollState::Failed { error },
    }
}

/// The state after a run of events, from `state` on.
pub open spec fn run(poller: PollerView, state: PollStateView, events: Seq<PollEvent>) -> PollStateView
    decreases events.len(),
{
    if events.len() == 0 {
        state
    } else {
        stepped(poller, run(poller, state, events.drop_last()), events.last())
    }
}

/// The engine's request goes to the label server exactly in the states
/// that update a record.
pub open spec fn asks_label_server(state: PollStateView) -> bool {
    state is Updating
}

/// An empty queue means no call to the label server in that cycle. After
/// the source server has answered with an empty queue, whatever events
/// follow, the engine asks nothing of the label server before it has
/// fetched the queue anew.
pub proof fn lemma_empty_queue_asks_nothing(
    poller: PollerView,
    status: u16,
    queue: Vec<GenericEsl>,
    events: Seq<PollEvent>,
)
    requires
        queue@.len() == 0,
    ensures
        ({
            let answer = PollEvent::Reply(
                Reply::Answered { status, payload: Payload::Queue(queue) },
            );
            let idle = stepped(poller, PollStateView::Fetching, answer);
            &&& idle == resting(poller.interval)
            &&& !asks_label_server(idle)
            &&& asks_label_server(run(poller, idle, events)) ==> exists|n: int|
                0 <= n < events.len() && run(poller, idle, #[trigger] events.take(n))
                    is Fetching
        }),
    decreases events.len(),
{
    let answer = PollEvent::Reply(Reply::Answered { status, payload: Payload::Queue(queue) });
    let idle = stepped(poller, PollStateView::Fetching, answer);
    assert(records(queue.deep_view()).len() == 0);
    if events.len() > 0 {
        let earlier = events.drop_last();
        lemma_empty_queue_asks_nothing(poller, status, queue, earlier);
        let before = run(poller, idle, earlier);
        assert(events.take(earlier.len() as int) =~= earlier);
        if asks_label_server(run(poller, idle, events)) {
            if before is Fetching {
                assert(run(poller, idle, events.take(earlier.len() as int)) is Fetching);
            } else if asks_label_server(before) {
                let n = choose|n: int|
                    0 <= n < earlier.len() && run(poller, idle, #[trigger] earlier.take(n))
                        is Fetching;
                assert(events.take(n) =~= earlier.take(n));
            } else {
                assert(before is Waiting || before is Failed);
                assert(!asks_label_server(stepped(poller, before, events.last())));
            }
        }
    }
}

/// The engine never ends a run by itself: it asks to stop exactly when a
/// step has failed. In every other state it asks for a request or a sleep.
pub proof fn lemma_stops_only_on_failure(poller: PollerView, state: PollStateView)
    ensures
        action_of(poller, state) is Stop <==> state is Failed,
        action_of(poller, state) is Sleep <==> state is Waiting,
        action_of(poller, state) is Send <==> state is Fetching || asks_label_server(state),
{
}

/// The engine submits only resolved records. In every state that a run
/// reaches from its start, whatever the servers answer: the record that is
/// being updated stands where the update protocol led it, so that once it
/// is past the resolve step (its submit or its confirm request is the next
/// to be sent) some reply has resolved its label, and the record holds the
/// item that this reply gave.
pub proof fn lemma_engine_submits_only_resolved(poller: PollerView, events: Seq<PollEvent>)
    ensures
        run(poller, PollStateView::Fetching, events) matches PollStateView::Updating {
            update,
            rest,
        } ==> {
            &&& led_to(update)
            &&& update.step is Resolve || exists|esl: PricerEslView, reply: Reply| #[trigger]
                resolved(esl, reply) == Ok::<PricerEslView, PricerErrorView>(update.esl)
        },
    decreases events.len(),
{
    if events.len() > 0 {
        let earlier = events.drop_last();
        lemma_engine_submits_only_resolved(poller, earlier);
        let before = run(poller, PollStateView::Fetching, earlier);
        let reached = stepped(poller, before, events.last());
        if let PollStateView::Updating { update, rest } = reached {
            // The update was either led on by this event's reply, or it was
            // left as it was, or it has just been started.
            if let PollStateView::Updating { update: earlier_update, rest: earlier_rest } =
                before {
                if let PollEvent::Reply(reply) = events.last() {
                    lemma_led_to_goes_on(earlier_update, reply);
                }
            }
            lemma_started_is_led_to(update.esl);
            lemma_led_to_is_resolved(update);
        }
    }
}

/// A run that has ended stays ended: whatever events follow, the state is
/// the same, and the engine asks for nothing but to stop.
pub proof fn lemma_failed_is_final(
    poller: PollerView,
    error: PollingErrorView,
    events: Seq<PollEvent>,
)
    ensures
        run(poller, PollStateView::Failed { error }, events) == (PollStateView::Failed { error }),
        action_of(poller, PollStateView::Failed { error }) == PollActionView::Stop,
    decreases events.len(),
{
    if events.len() > 0 {
        lemma_failed_is_final(poller, error, events.drop_last());
    }
}

/// The first failure ends the cycle. When a step of the update of a record
/// fails (its label cannot be resolved, say), the run ends with that error:
/// the steps that would follow for this record are not asked for, the
/// records behind it are dropped, and nothing more is sent, whatever events
/// follow.
pub proof fn lemma_failure_ends_the_cycle(
    poller: PollerView,
    update: UpdateView,
    rest: Seq<PricerEslView>,
    reply: Reply,
    events: Seq<PollEvent>,
)
    requires
        advanced(update, reply) is Err,
    ensures
        ({
            let failed = PollStateView::Failed {
                error: PollingErrorView::PricerError { source: advanced(update, reply)->Err_0 },
            };
            &&& stepped(poller, PollStateView::Updating { update, rest }, PollEvent::Reply(reply))
                == failed
            &&& run(poller, failed, events) == failed
            &&& !asks_label_server(run(poller, failed, events))
            &&& action_of(poller, failed) == PollActionView::Stop
        }),
{
    lemma_failed_is_final(
        poller,
        PollingErrorView::PricerError { source: advanced(update, reply)->Err_0 },
        events,
    );
}

/// The records of a cycle are updated one at a time, in the order received:
/// the first record of a queue is started with the others behind it, and
/// when a record is through, the one behind it is started, or the cycle is
/// over.
pub proof fn lemma_records_in_order(
    poller: PollerView,
    status: u16,
    queue: Vec<GenericEsl>,
    update: UpdateView,
    rest: Seq<PricerEslView>,
    reply: Reply,
)
    ensures
        queue@.len() > 0 ==> stepped(
            poller,
            PollStateView::Fetching,
            PollEvent::Reply(Reply::Answered { status, payload: Payload::Queue(queue) }),
        ) == (PollStateView::Updating {
            update: started(transformed(queue@[0]@)),
            rest: records(queue.deep_view()).skip(1),
        }),
        advanced(update, reply) is Ok && advanced(update, reply)->Ok_0 is Complete ==> stepped(
            poller,
            PollStateView::Updating { update, rest },
            PollEvent::Reply(reply),
        ) == if rest.len() > 0 {
            PollStateView::Updating { update: started(rest[0]), rest: rest.skip(1) }
        } else {
            resting(poller.interval)
        },
{
}

/// The time still to sleep in a state, over all the sleeps that the engine
/// will ask for before it fetches the queue again.
pub open spec fn sleep_ahead(poller: PollerView, state: PollStateView) -> nat
    decreases
        (match state {
            PollStateView::Waiting { waited } => poller.interval - waited,
            _ => 0,
        }),
{
    match state {
        PollStateView::Waiting { waited } => if waited < poller.interval {
            next_sleep(poller.interval, waited) as nat + sleep_ahead(
                poller,
                stepped(poller, state, PollEvent::Tick),
            )
        } else {
            0
        },
        _ => 0,
    }
}

/// From any point of the wait on, the sleeps still to come take exactly
/// what is left of the interval, and each of them takes at least a
/// millisecond and at most one tick.
pub proof fn lemma_sleep_ahead(poller: PollerView, waited: u64)
    requires
        waited <= poller.interval,
    ensures
        sleep_ahead(poller, PollStateView::Waiting { waited }) == poller.interval - waited,
        waited < poller.interval ==> 1 <= next_sleep(poller.interval, waited) <= TICK_MILLIS,
    decreases poller.interval - waited,
{
    let state = PollStateView::Waiting { waited };
    if waited < poller.interval {
        let now = waited + next_sleep(poller.interval, waited);
        let next = stepped(poller, state, PollEvent::Tick);
        if now < poller.interval {
            assert(next == PollStateView::Waiting { waited: now as u64 });
            lemma_sleep_ahead(poller, now as u64);
        } else {
            assert(next is Fetching);
            assert(sleep_ahead(poller, next) == 0);
        }
    }
}

/// However the wait is cut into sleeps, it adds up to the interval: the
/// sleeps between the end of one cycle and the start of the next together
/// take exactly the configured interval.
pub proof fn lemma_wait_is_the_interval(poller: PollerView)
    ensures
        sleep_ahead(poller, resting(poller.interval)) == poller.interval,
{
    if poller.interval > 0 {
        lemma_sleep_ahead(poller, 0);
    }
}

} // verus!
