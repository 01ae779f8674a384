//! The supervisor: it runs one polling worker at a time, starts it again
//! after a failure, and stops for good when the worker returns without an
//! error or the runtime shuts down.

use crate::model::result_view;
use crate::services::exchange::Credentials;
use crate::services::poll::{
    polling_error_text, PollState, Poller, PollerView, PollingError, PollingErrorView,
};
use crate::services::{
    build_client, client_error_text, planned, routed, ClientError, ClientErrorView, ClientPlan,
    ClientPlanView, ProxyConfig,
};
use crate::settings::{
    configuration_error_text, configured_credentials, configured_interval, ConfigurationError,
    Settings,
};
use vstd::prelude::*;
use vstd::string::*;

verus! {

/// The wait before a worker that failed is started again, in milliseconds.
pub const RESTART_DELAY_MILLIS: u64 = 2000;

/// Why the bridge ended, or its worker.
#[derive(Debug, PartialEq, Eq)]
#[allow(inconsistent_fields)]
pub enum MainError {
    /// Required credentials are not configured.
    Configuration { source: ConfigurationError },
    /// No client could be had.
    ClientError { source: ClientError },
    /// The polling run ended with an error.
    PollingError { source: PollingError },
}

/// What a [`MainError`] holds, as mathematical values.
#[allow(inconsistent_fields)]
pub enum MainErrorView {
    Configuration { source: ConfigurationError },
    ClientError { source: ClientErrorView },
    PollingError { source: PollingErrorView },
}

impl View for MainError {
    type V = MainErrorView;

    open spec fn view(&self) -> MainErrorView {
        match self {
            MainError::Configuration { source } => MainErrorView::Configuration {
                source: *source,
            },
            MainError::ClientError { source } => MainErrorView::ClientError { source: source@ },
            MainError::PollingError { source } => MainErrorView::PollingError { source: source@ },
        }
    }
}

impl DeepView for MainError {
    type V = MainErrorView;

    open spec fn deep_view(&self) -> MainErrorView {
        self@
    }
}

/// What is logged for a [`MainError`].
pub open spec fn main_error_text(error: MainErrorView) -> Seq<char> {
    match error {
        MainErrorView::Configuration { source } => configuration_error_text(source),
        MainErrorView::ClientError { source } => "An issue occured with the ClientBuilder: "@
            + client_error_text(source),
        MainErrorView::PollingError { source } =>
            "An error occured with the polling service: "@ + polling_error_text(source),
    }
}

impl MainError {
    /// The error in words, for the log.
    pub fn message(&self) -> (text: String)
        ensures
            text@ == main_error_text(self@),
    {
        match self {
            MainError::Configuration { source } => source.message(),
            MainError::ClientError { source } => String::from_str(
                "An issue occured with the ClientBuilder: ",
            ).concat(source.message().as_str()),
            MainError::PollingError { source } => String::from_str(
                "An error occured with the polling service: ",
            ).concat(source.message().as_str()),
        }
    }
}

/// What a worker starts with: the plan of its client and the configuration
/// of its polling run.
#[derive(Debug, PartialEq, Eq)]
pub struct Worker {
    pub client: ClientPlan,
    pub poller: Poller,
}

/// What a [`Worker`] holds, as mathematical values.
pub struct WorkerView {
    pub client: ClientPlanView,
    pub poller: PollerView,
}

impl View for Worker {
    type V = WorkerView;

    open spec fn view(&self) -> WorkerView {
        WorkerView { client: self.client@, poller: self.poller@ }
    }
}

/// The proxy configuration of a configuration: through the configured
/// proxy, or as the system says where none is configured.
pub open spec fn configured_proxy(config: Settings) -> ProxyConfig {
    match config.proxy_cs {
        Some(cs) => ProxyConfig::ConnectionString(cs),
        None => ProxyConfig::System,
    }
}

/// Prepares a polling worker from the configuration and the credentials
/// that were checked at startup: the plan of its client, and its polling
/// run. Fails where no client can be planned.
pub fn polling_worker(config: &Settings, credentials: Credentials) -> (outcome: Result<
    Worker,
    MainError,
>)
    ensures
        result_view(outcome) == match routed(configured_proxy(*config)) {
            Ok(route) => Ok(
                WorkerView {
                    client: planned(
                        route,
                        config.certificate_pem_path.deep_view(),
                        config.certificate_root_path.deep_view(),
                        config.certificate_key_path.deep_view(),
                    ),
                    poller: PollerView {
                        client_serial: config.client_serial@,
                        hublot_server_url: config.hublot_server_url@,
                        esl_server_url: config.esl_server_url@,
                        credentials: credentials@,
                        interval: configured_interval(config.polling_rate),
                    },
                },
            ),
            Err(source) => Err(MainErrorView::ClientError { source }),
        },
{
    let settings: Settings = config.clone();
    let poller: Poller = config.poller(credentials);
    match build_client(
        config.proxy(),
        settings.certificate_pem_path,
        settings.certificate_root_path,
        settings.certificate_key_path,
    ) {
        Ok(client) => Ok(Worker { client, poller }),
        Err(source) => Err(MainError::ClientError { source }),
    }
}

/// The startup check: the credentials for the label server must be
/// configured. Where they are not, the bridge does not start; the check is
/// made once, before the first worker, and never again.
pub fn startup(config: &Settings) -> (outcome: Result<Credentials, MainError>)
    ensures
        result_view(outcome) == match configured_credentials(
            config.pricer_user.deep_view(),
            config.pricer_password.deep_view(),
        ) {
            Ok(credentials) => Ok(credentials),
            Err(source) => Err(MainErrorView::Configuration { source }),
        },
{
    match config.credentials() {
        Ok(credentials) => Ok(credentials),
        Err(source) => Err(MainError::Configuration { source }),
    }
}

/// What a worker returns when its polling run has stopped: the error of a
/// run that failed. A run in any other state has not failed, and a worker
/// that stops there returns without an error.
pub fn worker_result(state: PollState) -> (returned: Result<(), MainError>)
    ensures
        match state {
            PollState::Failed { error } => returned matches Err(failure) && failure@ == (
            MainErrorView::PollingError { source: error@ }),
            _ => returned is Ok,
        },
{
    match state {
        PollState::Failed { error } => Err(MainError::PollingError { source: error }),
        _ => Ok(()),
    }
}

/// How a worker ended.
#[derive(Clone, Copy, Debug, PartialEq, Eq, Structural)]
pub enum WorkerOutcome {
    /// It returned an error.
    NormalError,
    /// It panicked.
    Panic,
    /// It could not be joined for another reason: the runtime shuts down.
    ExternalCancellation,
    /// It returned without an error, which a polling run never does.
    UnexpectedSuccess,
}

/// How a worker that returned has ended.
pub fn worker_outcome(returned: &Result<(), MainError>) -> (outcome: WorkerOutcome)
    ensures
        outcome == if returned is Ok {
            WorkerOutcome::UnexpectedSuccess
        } else {
            WorkerOutcome::NormalError
        },
{
    match returned {
        Ok(done) => WorkerOutcome::UnexpectedSuccess,
        Err(error) => WorkerOutcome::NormalError,
    }
}

/// Where the supervisor stands.
#[derive(Clone, Copy, Debug, PartialEq, Eq, Structural)]
pub enum SupervisorState {
    /// No worker has been started yet.
    Starting,
    /// A worker runs.
    Running,
    /// The supervisor has stopped for good.
    Terminated,
}

/// What the supervisor is told.
#[derive(Clone, Copy, Debug, PartialEq, Eq, Structural)]
pub enum SupervisorEvent {
    /// The supervisor is to start.
    Start,
    /// The worker has ended.
    Exited(WorkerOutcome),
}

/// What the supervisor has to report.
#[derive(Clone, Copy, Debug, PartialEq, Eq, Structural)]
pub enum Notice {
    /// The worker returned an error; it will be started again.
    WorkerFailed,
    /// The worker panicked; it will be started again.
    WorkerPanicked,
    /// The worker returned without an error; the supervisor stops.
    WorkerReturned,
    /// The runtime shuts down; the supervisor stops.
    RuntimeShutdown,
}

/// What is logged for a [`Notice`].
pub open spec fn notice_text(notice: Notice) -> Seq<char> {
    match notice {
        Notice::WorkerFailed =>
            "The poller have crashed from an unrecoverable error. Restarting it in a few seconds"@,
        Notice::WorkerPanicked =>
            "The JoinHandler have crashed from an unrecoverable error. Restarting it in a few seconds"@,
        Notice::WorkerReturned =>
            "The poller have stopped with a successfull response. It is not an intended behavior please check the logs above."@,
        Notice::RuntimeShutdown =>
            "Runtime shutdown requested, gracefully shutting down the app"@,
    }
}

impl Notice {
    /// The notice in words, for the log.
    pub fn message(&self) -> (text: &'static str)
        ensures
            text@ == notice_text(*self),
    {
        match self {
            Notice::WorkerFailed =>
                "The poller have crashed from an unrecoverable error. Restarting it in a few seconds",
            Notice::WorkerPanicked =>
                "The JoinHandler have crashed from an unrecoverable error. Restarting it in a few seconds",
            Notice::WorkerReturned =>
                "The poller have stopped with a successfull response. It is not an intended behavior please check the logs above.",
            Notice::RuntimeShutdown =>
                "Runtime shutdown requested, gracefully shutting down the app",
        }
    }
}

/// What the supervisor asks its caller to do, in the order given.
#[derive(Clone, Copy, Debug, PartialEq, Eq, Structural)]
pub enum SupervisorAction {
    /// Log this.
    Report(Notice),
    /// Sleep this long.
    Sleep { millis: u64 },
    /// Start a worker.
    Spawn,
}

/// What is done when a worker has failed: the failure is reported, the
/// restart delay is slept, and a worker is started.
pub open spec fn restart(notice: Notice) -> Seq<SupervisorAction> {
    seq![
        SupervisorAction::Report(notice),
        SupervisorAction::Sleep { millis: RESTART_DELAY_MILLIS },
        SupervisorAction::Spawn,
    ]
}

/// The state after an event, and what is to be done on the way.
///
/// - Starting, told to start: a worker is started.
/// - Running, the worker returned an error or panicked: it is started
///   again after the restart delay.
/// - Running, the worker returned without an error, or the runtime shuts
///   down: the supervisor stops for good.
/// - Anything else changes nothing; a supervisor that has stopped does
///   nothing more.
pub open spec fn reaction(state: SupervisorState, event: SupervisorEvent) -> (
    SupervisorState,
    Seq<SupervisorAction>,
) {
    match (state, event) {
        (SupervisorState::Starting, SupervisorEvent::Start) => (
            SupervisorState::Running,
            seq![SupervisorAction::Spawn],
        ),
        (SupervisorState::Running, SupervisorEvent::Exited(WorkerOutcome::NormalError)) => (
            SupervisorState::Running,
            restart(Notice::WorkerFailed),
        ),
        (SupervisorState::Running, SupervisorEvent::Exited(WorkerOutcome::Panic)) => (
            SupervisorState::Running,
            restart(Notice::WorkerPanicked),
        ),
        (SupervisorState::Running, SupervisorEvent::Exited(WorkerOutcome::UnexpectedSuccess)) => (
            SupervisorState::Terminated,
            seq![SupervisorAction::Report(Notice::WorkerReturned)],
        ),
        (
            SupervisorState::Running,
            SupervisorEvent::Exited(WorkerOutcome::ExternalCancellation),
        ) => (
            SupervisorState::Terminated,
            seq![SupervisorAction::Report(Notice::RuntimeShutdown)],
        ),
        _ => (state, Seq::<SupervisorAction>::empty()),
    }
}

fn restart_actions(notice: Notice) -> (actions: Vec<SupervisorAction>)
    ensures
        actions@ == restart(notice),
{
    let mut actions: Vec<SupervisorAction> = Vec::new();
    actions.push(SupervisorAction::Report(notice));
    actions.push(SupervisorAction::Sleep { millis: RESTART_DELAY_MILLIS });
    actions.push(SupervisorAction::Spawn);
    assert(actions@ =~= restart(notice));
    actions
}

fn one_action(action: SupervisorAction) -> (actions: Vec<SupervisorAction>)
    ensures
        actions@ == seq![action],
{
    let mut actions: Vec<SupervisorAction> = Vec::new();
    actions.push(action);
    assert(actions@ =~= seq![action]);
    actions
}

/// One step of the supervisor: the state after `event`, and what the caller
/// is to do, in order.
pub fn supervise(state: SupervisorState, event: SupervisorEvent) -> (next: (
    SupervisorState,
    Vec<SupervisorAction>,
))
    ensures
        (next.0, next.1@) == reaction(state, event),
{
    match state {
        SupervisorState::Starting => match event {
            SupervisorEvent::Start => (
                SupervisorState::Running,
                one_action(SupervisorAction::Spawn),
            ),
            SupervisorEvent::Exited(outcome) => (SupervisorState::Starting, Vec::new()),
        },
        SupervisorState::Running => match event {
            SupervisorEvent::Start => (SupervisorState::Running, Vec::new()),
            SupervisorEvent::Exited(WorkerOutcome::NormalError) => (
                SupervisorState::Running,
                restart_actions(Notice::WorkerFailed),
            ),
            SupervisorEvent::Exited(WorkerOutcome::Panic) => (
                SupervisorState::Running,
                restart_actions(Notice::WorkerPanicked),
            ),
            SupervisorEvent::Exited(WorkerOutcome::UnexpectedSuccess) => (
                SupervisorState::Terminated,
                one_action(SupervisorAction::Report(Notice::WorkerReturned)),
            ),
            SupervisorEvent::Exited(WorkerOutcome::ExternalCancellation) => (
                SupervisorState::Terminated,
                one_action(SupervisorAction::Report(Notice::RuntimeShutdown)),
            ),
        },
        SupervisorState::Terminated => (SupervisorState::Terminated, Vec::new()),
    }
}

/// The state after a run of events, and everything that was to be done on
/// the way, in order.
pub open spec fn history(state: SupervisorState, events: Seq<SupervisorEvent>) -> (
    SupervisorState,
    Seq<SupervisorAction>,
)
    decreases events.len(),
{
    if events.len() == 0 {
        (state, Seq::<SupervisorAction>::empty())
    } else {
        let (before, done) = history(state, events.drop_last());
        let (after, doing) = reaction(before, events.last());
        (after, done + doing)
    }
}

/// A worker has failed: it returned an error, or it panicked.
pub open spec fn failure(event: SupervisorEvent) -> bool {
    event == SupervisorEvent::Exited(WorkerOutcome::NormalError) || event
        == SupervisorEvent::Exited(WorkerOutcome::Panic)
}

/// Every failure is answered by a restart, however many there are. After
/// any number of failures in a row the supervisor still runs a worker; it
/// has started one for each failure, and before each of these starts it has
/// slept the restart delay.
pub proof fn lemma_every_failure_restarts(failures: Seq<SupervisorEvent>)
    requires
        forall|i: int| 0 <= i < failures.len() ==> failure(#[trigger] failures[i]),
    ensures
        ({
            let (state, done) = history(SupervisorState::Running, failures);
            &&& state == SupervisorState::Running
            &&& done.len() == 3 * failures.len()
            &&& forall|k: int|
                0 <= k < failures.len() ==> {
                    &&& #[trigger] done[3 * k] is Report
                    &&& done[3 * k + 1] == SupervisorAction::Sleep { millis: RESTART_DELAY_MILLIS }
                    &&& done[3 * k + 2] == SupervisorAction::Spawn
                }
        }),
    decreases failures.len(),
{
    if failures.len() > 0 {
        let earlier = failures.drop_last();
        lemma_every_failure_restarts(earlier);
        let (before, done) = history(SupervisorState::Running, earlier);
        let (after, doing) = reaction(before, failures.last());
        assert(failure(failures[failures.len() - 1]));
        assert(doing.len() == 3);
        let all = done + doing;
        assert forall|k: int| 0 <= k < failures.len() implies {
            &&& #[trigger] all[3 * k] is Report
            &&& all[3 * k + 1] == SupervisorAction::Sleep { millis: RESTART_DELAY_MILLIS }
            &&& all[3 * k + 2] == SupervisorAction::Spawn
        } by {
            if k < earlier.len() {
                assert(done[3 * k] is Report);
                assert(all[3 * k] == done[3 * k]);
                assert(all[3 * k + 1] == done[3 * k + 1]);
                assert(all[3 * k + 2] == done[3 * k + 2]);
            } else {
                assert(all[3 * k] == doing[0]);
                assert(all[3 * k + 1] == doing[1]);
                assert(all[3 * k + 2] == doing[2]);
            }
        }
    }
}

/// No restart without the delay. Whatever happens to a supervisor that
/// runs a worker, every start of a worker that it asks for comes directly
/// after a sleep of the restart delay.
pub proof fn lemma_restart_waits(events: Seq<SupervisorEvent>, at: int)
    requires
        0 <= at < history(SupervisorState::Running, events).1.len(),
        history(SupervisorState::Running, events).1[at] == SupervisorAction::Spawn,
    ensures
        at >= 1,
        history(SupervisorState::Running, events).1[at - 1] == (SupervisorAction::Sleep {
            millis: RESTART_DELAY_MILLIS,
        }),
    decreases events.len(),
{
    if events.len() > 0 {
        let earlier = events.drop_last();
        let (before, done) = history(SupervisorState::Running, earlier);
        let (after, doing) = reaction(before, events.last());
        lemma_never_starting_again(earlier);
        if at < done.len() {
            lemma_restart_waits(earlier, at);
        } else {
            assert((done + doing)[at] == doing[at - done.len()]);
            assert(doing.len() == 3 || doing.len() <= 1);
            if doing.len() == 3 {
                assert(at - done.len() == 2);
                assert((done + doing)[at - 1] == doing[1]);
            }
        }
    }
}

/// A supervisor that runs a worker never gets back to where it started.
pub proof fn lemma_never_starting_again(events: Seq<SupervisorEvent>)
    ensures
        history(SupervisorState::Running, events).0 != SupervisorState::Starting,
    decreases events.len(),
{
    if events.len() > 0 {
        lemma_never_starting_again(events.drop_last());
    }
}

/// A supervisor that has stopped stays stopped: whatever it is told, it
/// asks for nothing more.
pub proof fn lemma_terminated_is_final(events: Seq<SupervisorEvent>)
    ensures
        history(SupervisorState::Terminated, events) == (
            SupervisorState::Terminated,
            Seq::<SupervisorAction>::empty(),
        ),
    decreases events.len(),
{
    if events.len() > 0 {
        lemma_terminated_is_final(events.drop_last());
        let (before, done) = history(SupervisorState::Terminated, events.drop_last());
        let (after, doing) = reaction(before, events.last());
        assert(done + doing =~= Seq::<SupervisorAction>::empty());
    }
}

} // verus!
