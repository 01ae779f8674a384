use esl_services_backend::services::exchange::Credentials;
use esl_services_backend::services::poll::{PollState, PollingError};
use esl_services_backend::services::pricer_service::PricerError;
use esl_services_backend::services::{
    Certificates, ClientError, ClientPlan, ProxyPlan,
};
use esl_services_backend::settings::{ConfigurationError, Settings};
use esl_services_backend::supervisor::{
    polling_worker, startup, supervise, worker_outcome, worker_result, MainError, Notice,
    SupervisorAction, SupervisorEvent, SupervisorState, WorkerOutcome, RESTART_DELAY_MILLIS,
};

fn settings() -> Settings {
    Settings {
        client_serial: "SN-42".to_string(),
        proxy_cs: None,
        certificate_pem_path: None,
        certificate_root_path: None,
        certificate_key_path: None,
        log_level: None,
        esl_server_url: "https://labels.example".to_string(),
        hublot_server_url: "https://source.example".to_string(),
        polling_rate: None,
        pricer_user: Some("bridge".to_string()),
        pricer_password: Some("secret".to_string()),
        parse_id: None,
        parse_url: None,
        log_file: None,
    }
}

fn credentials() -> Credentials {
    Credentials { user: "bridge".to_string(), password: "secret".to_string() }
}

#[test]
fn restart_delay_is_two_seconds() {
    assert_eq!(RESTART_DELAY_MILLIS, 2000);
}

#[test]
fn supervisor_starts_a_worker() {
    assert_eq!(
        supervise(SupervisorState::Starting, SupervisorEvent::Start),
        (SupervisorState::Running, vec![SupervisorAction::Spawn])
    );
}

#[test]
fn worker_error_is_answered_by_a_restart_after_the_delay() {
    assert_eq!(
        supervise(SupervisorState::Running, SupervisorEvent::Exited(WorkerOutcome::NormalError)),
        (
            SupervisorState::Running,
            vec![
                SupervisorAction::Report(Notice::WorkerFailed),
                SupervisorAction::Sleep { millis: 2000 },
                SupervisorAction::Spawn,
            ]
        )
    );
}

#[test]
fn worker_panic_is_answered_by_a_restart_after_the_delay() {
    assert_eq!(
        supervise(SupervisorState::Running, SupervisorEvent::Exited(WorkerOutcome::Panic)),
        (
            SupervisorState::Running,
            vec![
                SupervisorAction::Report(Notice::WorkerPanicked),
                SupervisorAction::Sleep { millis: 2000 },
                SupervisorAction::Spawn,
            ]
        )
    );
}

#[test]
fn worker_success_stops_the_supervisor() {
    assert_eq!(
        supervise(
            SupervisorState::Running,
            SupervisorEvent::Exited(WorkerOutcome::UnexpectedSuccess)
        ),
        (SupervisorState::Terminated, vec![SupervisorAction::Report(Notice::WorkerReturned)])
    );
}

#[test]
fn runtime_shutdown_stops_the_supervisor() {
    assert_eq!(
        supervise(
            SupervisorState::Running,
            SupervisorEvent::Exited(WorkerOutcome::ExternalCancellation)
        ),
        (SupervisorState::Terminated, vec![SupervisorAction::Report(Notice::RuntimeShutdown)])
    );
}

#[test]
fn terminated_supervisor_does_nothing_more() {
    for event in [
        SupervisorEvent::Start,
        SupervisorEvent::Exited(WorkerOutcome::NormalError),
        SupervisorEvent::Exited(WorkerOutcome::Panic),
        SupervisorEvent::Exited(WorkerOutcome::ExternalCancellation),
        SupervisorEvent::Exited(WorkerOutcome::UnexpectedSuccess),
    ] {
        assert_eq!(
            supervise(SupervisorState::Terminated, event),
            (SupervisorState::Terminated, vec![])
        );
    }
}

#[test]
fn events_out_of_turn_change_nothing() {
    assert_eq!(
        supervise(SupervisorState::Starting, SupervisorEvent::Exited(WorkerOutcome::NormalError)),
        (SupervisorState::Starting, vec![])
    );
    assert_eq!(
        supervise(SupervisorState::Running, SupervisorEvent::Start),
        (SupervisorState::Running, vec![])
    );
}

#[test]
fn n_failures_give_n_restarts_each_after_the_delay() {
    let n: usize = 25;
    let (mut state, mut done) = supervise(SupervisorState::Starting, SupervisorEvent::Start);
    for i in 0..n {
        let outcome = if i % 2 == 0 { WorkerOutcome::NormalError } else { WorkerOutcome::Panic };
        let (next, actions) = supervise(state, SupervisorEvent::Exited(outcome));
        state = next;
        done.extend(actions);
    }
    assert_eq!(state, SupervisorState::Running);
    let spawns: Vec<usize> = done
        .iter()
        .enumerate()
        .filter(|(_, action)| **action == SupervisorAction::Spawn)
        .map(|(at, _)| at)
        .collect();
    assert_eq!(spawns.len(), n + 1);
    assert_eq!(spawns[0], 0);
    for at in &spawns[1..] {
        assert_eq!(done[at - 1], SupervisorAction::Sleep { millis: RESTART_DELAY_MILLIS });
    }
    let sleeps = done.iter().filter(|a| matches!(a, SupervisorAction::Sleep { .. })).count();
    assert_eq!(sleeps, n);
}

#[test]
fn worker_that_returned_is_classified() {
    assert_eq!(worker_outcome(&Ok(())), WorkerOutcome::UnexpectedSuccess);
    let error = MainError::PollingError {
        source: PollingError::PricerError { source: PricerError::MissingItem },
    };
    assert_eq!(worker_outcome(&Err(error)), WorkerOutcome::NormalError);
}

#[test]
fn worker_is_prepared_from_the_configuration() {
    let worker = polling_worker(&settings(), credentials()).expect("the plan needs no proxy");
    assert_eq!(worker.client, ClientPlan { proxy: ProxyPlan::System, certificates: None });
    assert_eq!(worker.poller.client_serial, "SN-42");
    assert_eq!(worker.poller.hublot_server_url, "https://source.example");
    assert_eq!(worker.poller.esl_server_url, "https://labels.example");
    assert_eq!(worker.poller.credentials, credentials());
    assert_eq!(worker.poller.interval, 2000);
}

#[test]
fn worker_takes_proxy_certificates_and_rate_from_the_configuration() {
    let mut config = settings();
    config.proxy_cs = Some("HTTP://Proxy.Example:3128".to_string());
    config.certificate_pem_path = Some("client.pem".to_string());
    config.certificate_root_path = Some("root.pem".to_string());
    config.certificate_key_path = Some("client.key".to_string());
    config.polling_rate = Some(500);
    let worker = polling_worker(&config, credentials()).expect("the proxy is a URL");
    assert_eq!(
        worker.client,
        ClientPlan {
            proxy: ProxyPlan::Through { target: "http://proxy.example:3128/".to_string() },
            certificates: Some(Certificates {
                pem_path: "client.pem".to_string(),
                root_path: "root.pem".to_string(),
                key_path: "client.key".to_string(),
            }),
        }
    );
    assert_eq!(worker.poller.interval, 500);
}

#[test]
fn worker_fails_where_the_proxy_is_no_url() {
    let mut config = settings();
    config.proxy_cs = Some("not a url".to_string());
    match polling_worker(&config, credentials()) {
        Err(MainError::ClientError { source: ClientError::Url { source } }) => {
            assert_eq!(source, url::ParseError::RelativeUrlWithoutBase);
        }
        other => panic!("expected a URL error, got {:?}", other),
    }
}

#[test]
fn startup_hands_out_the_credentials() {
    assert_eq!(startup(&settings()), Ok(credentials()));
}

#[test]
fn startup_fails_without_credentials() {
    let mut config = settings();
    config.pricer_password = None;
    assert_eq!(
        startup(&config),
        Err(MainError::Configuration { source: ConfigurationError::MissingPricerPassword })
    );
    config.pricer_user = None;
    assert_eq!(
        startup(&config),
        Err(MainError::Configuration { source: ConfigurationError::MissingPricerUser })
    );
}

#[test]
fn failed_run_is_the_workers_error() {
    let failed =
        PollState::Failed { error: PollingError::PricerError { source: PricerError::MissingItem } };
    let returned = worker_result(failed);
    assert_eq!(
        returned,
        Err(MainError::PollingError {
            source: PollingError::PricerError { source: PricerError::MissingItem }
        })
    );
    assert_eq!(worker_outcome(&returned), WorkerOutcome::NormalError);
}

#[test]
fn run_that_has_not_failed_returns_without_error() {
    assert_eq!(worker_result(PollState::Fetching), Ok(()));
    assert_eq!(worker_result(PollState::Waiting { waited: 0 }), Ok(()));
    assert_eq!(worker_outcome(&worker_result(PollState::Fetching)), WorkerOutcome::UnexpectedSuccess);
}
