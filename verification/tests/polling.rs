use esl_services_backend::services::esl_service::{
    get_print_requests, get_print_requests_request, status, status_request, EslServiceError,
};
use esl_services_backend::services::exchange::{
    Credentials, Expect, Method, Payload, Reply, Request,
};
use esl_services_backend::services::generic_label::{EslType, GenericEsl};
use esl_services_backend::services::pricer::item::PricerAccepted;
use esl_services_backend::services::pricer::labels::{PricerLabels, PricerLinks};
use esl_services_backend::services::pricer::status::PricerItemsResult;
use esl_services_backend::services::poll::{
    poll, PollAction, PollEvent, PollState, Poller, PollingError, TICK_MILLIS,
};
use esl_services_backend::services::pricer_service::{PricerError, PricerEsl, UpdateStep};

const SOURCE: &str = "https://source.example";
const TARGET: &str = "https://labels.example";

fn poller(interval: u64) -> Poller {
    Poller {
        client_serial: "SN-42".to_string(),
        hublot_server_url: SOURCE.to_string(),
        esl_server_url: TARGET.to_string(),
        credentials: Credentials { user: "bridge".to_string(), password: "secret".to_string() },
        interval,
    }
}

fn pending(id: &str) -> GenericEsl {
    GenericEsl {
        kind: EslType::Pricer,
        id: id.to_string(),
        nom: format!("Poisson {}", id),
        nom_scientifique: "Gadus morhua".to_string(),
        prix: "9,90".to_string(),
        engin: Some("Chalut".to_string()),
        zone: Some("Mer du Nord".to_string()),
        sous_zone: None,
        zone_code: None,
        sous_zone_code: None,
        plu: "1".to_string(),
        taille: "1".to_string(),
        congel_infos: None,
        origine: None,
        production: None,
        allergenes: None,
        object_id: None,
    }
}

fn queue(ids: &[&str]) -> PollEvent {
    PollEvent::Reply(Reply::Answered {
        status: 200,
        payload: Payload::Queue(ids.iter().map(|id| pending(id)).collect()),
    })
}

fn labels(barcode: &str, item_id: &str) -> PollEvent {
    PollEvent::Reply(Reply::Answered {
        status: 200,
        payload: Payload::Labels(PricerLabels {
            barcode: barcode.to_string(),
            model_name: "SmartTag".to_string(),
            links: vec![PricerLinks {
                barcode: barcode.to_string(),
                item_id: item_id.to_string(),
                display_position: 0,
            }],
        }),
    })
}

fn accepted(request_id: i32) -> PollEvent {
    PollEvent::Reply(Reply::Answered {
        status: 202,
        payload: Payload::Accepted(PricerAccepted { request_id }),
    })
}

fn outcome() -> PollEvent {
    PollEvent::Reply(Reply::Answered {
        status: 200,
        payload: Payload::Outcome(PricerItemsResult {
            status: "ok".to_string(),
            item_results: vec![],
        }),
    })
}

fn refused(status: u16) -> PollEvent {
    PollEvent::Reply(Reply::Answered { status, payload: Payload::Absent })
}

fn sent(poller: &Poller, state: &PollState) -> Request {
    match poller.action(state) {
        PollAction::Send(request) => request,
        other => panic!("expected a request, got {:?}", other),
    }
}

fn goes_to_target(request: &Request) -> bool {
    request.url.starts_with(TARGET)
}

#[test]
fn queue_request_is_a_get_of_the_poll_route() {
    assert_eq!(
        get_print_requests_request(SOURCE, "SN-42"),
        Request {
            method: Method::Get,
            url: "https://source.example/esl-api/poll/SN-42".to_string(),
            credentials: None,
            body: None,
            expects: Expect::Queue,
        }
    );
}

#[test]
fn queue_is_decoded_whatever_the_status() {
    let request = get_print_requests_request(SOURCE, "SN-42");
    assert!(request.decodes(200));
    assert!(request.decodes(500));
}

#[test]
fn queue_is_taken_in_the_order_received() {
    let reply = Reply::Answered {
        status: 200,
        payload: Payload::Queue(vec![pending("1"), pending("2"), pending("3")]),
    };
    assert_eq!(get_print_requests(reply), Ok(vec![pending("1"), pending("2"), pending("3")]));
}

#[test]
fn queue_that_cannot_be_decoded_is_an_error() {
    let reply = Reply::Answered { status: 200, payload: Payload::Absent };
    assert_eq!(get_print_requests(reply), Err(EslServiceError::Deserialization));
    let reply =
        Reply::Answered { status: 200, payload: Payload::Accepted(PricerAccepted { request_id: 1 }) };
    assert_eq!(get_print_requests(reply), Err(EslServiceError::Deserialization));
}

#[test]
fn queue_without_a_response_is_a_transport_error() {
    let reply = Reply::Unreachable { detail: "timed out".to_string() };
    assert_eq!(
        get_print_requests(reply),
        Err(EslServiceError::Transport { detail: "timed out".to_string() })
    );
}

#[test]
fn source_status_request_is_a_get_of_the_status_route() {
    assert_eq!(
        status_request(SOURCE),
        Request {
            method: Method::Get,
            url: "https://source.example/esl-api/status".to_string(),
            credentials: None,
            body: None,
            expects: Expect::Nothing,
        }
    );
}

#[test]
fn source_is_reachable_on_200_only() {
    assert_eq!(status(Reply::Answered { status: 200, payload: Payload::Absent }), Ok(true));
    assert_eq!(status(Reply::Answered { status: 503, payload: Payload::Absent }), Ok(false));
    assert_eq!(
        status(Reply::Unreachable { detail: "no route".to_string() }),
        Err(EslServiceError::Transport { detail: "no route".to_string() })
    );
}

#[test]
fn engine_starts_by_fetching_the_queue() {
    let poller = poller(2000);
    let request = sent(&poller, &PollState::Fetching);
    assert_eq!(request, get_print_requests_request(SOURCE, "SN-42"));
    assert!(!goes_to_target(&request));
}

#[test]
fn empty_queue_goes_straight_to_the_wait() {
    let poller = poller(2000);
    let state = poll(&poller, PollState::Fetching, queue(&[]));
    assert_eq!(state, PollState::Waiting { waited: 0 });
    assert_eq!(poller.action(&state), PollAction::Sleep { millis: 150 });
}

#[test]
fn empty_queue_means_no_call_to_the_label_server_in_that_cycle() {
    let poller = poller(400);
    let mut state = poll(&poller, PollState::Fetching, queue(&[]));
    let mut asked: Vec<PollAction> = Vec::new();
    while state != PollState::Fetching {
        asked.push(poller.action(&state));
        state = poll(&poller, state, PollEvent::Tick);
    }
    assert_eq!(
        asked,
        vec![
            PollAction::Sleep { millis: 150 },
            PollAction::Sleep { millis: 150 },
            PollAction::Sleep { millis: 100 },
        ]
    );
}

#[test]
fn wait_adds_up_to_the_default_interval() {
    let poller = poller(2000);
    let mut state = PollState::Waiting { waited: 0 };
    let mut sleeps: Vec<u64> = Vec::new();
    while state != PollState::Fetching {
        match poller.action(&state) {
            PollAction::Sleep { millis } => sleeps.push(millis),
            other => panic!("expected a sleep, got {:?}", other),
        }
        state = poll(&poller, state, PollEvent::Tick);
    }
    assert_eq!(sleeps.len(), 14);
    assert_eq!(sleeps[..13], [150; 13]);
    assert_eq!(sleeps[13], 50);
    assert_eq!(sleeps.iter().sum::<u64>(), 2000);
}

#[test]
fn wait_adds_up_to_the_interval_however_it_is_cut() {
    for interval in [1u64, 149, 150, 151, 299, 300, 301, 1000, 2000, 4321] {
        let poller = poller(interval);
        let mut state = PollState::Waiting { waited: 0 };
        let mut total: u64 = 0;
        while state != PollState::Fetching {
            match poller.action(&state) {
                PollAction::Sleep { millis } => {
                    assert!(1 <= millis && millis <= TICK_MILLIS);
                    total += millis;
                }
                other => panic!("expected a sleep, got {:?}", other),
            }
            state = poll(&poller, state, PollEvent::Tick);
        }
        assert_eq!(total, interval);
    }
}

#[test]
fn tick_is_150_milliseconds() {
    assert_eq!(TICK_MILLIS, 150);
}

#[test]
fn no_interval_means_no_wait() {
    let poller = poller(0);
    assert_eq!(poll(&poller, PollState::Fetching, queue(&[])), PollState::Fetching);
}

#[test]
fn a_wait_that_is_already_over_ends_on_the_next_tick() {
    let poller = poller(100);
    let state = PollState::Waiting { waited: 500 };
    assert_eq!(poller.action(&state), PollAction::Sleep { millis: 0 });
    assert_eq!(poll(&poller, state, PollEvent::Tick), PollState::Fetching);
}

#[test]
fn fetch_failure_ends_the_run() {
    let poller = poller(2000);
    let event = PollEvent::Reply(Reply::Unreachable { detail: "dns".to_string() });
    let state = poll(&poller, PollState::Fetching, event);
    assert_eq!(
        state,
        PollState::Failed {
            error: PollingError::EslServiceError {
                source: EslServiceError::Transport { detail: "dns".to_string() }
            }
        }
    );
    assert_eq!(poller.action(&state), PollAction::Stop);
}

#[test]
fn malformed_queue_ends_the_run() {
    let poller = poller(2000);
    let state = poll(&poller, PollState::Fetching, refused(200));
    assert_eq!(
        state,
        PollState::Failed {
            error: PollingError::EslServiceError { source: EslServiceError::Deserialization }
        }
    );
}

#[test]
fn records_are_updated_in_the_order_received() {
    let poller = poller(2000);
    let mut state = poll(&poller, PollState::Fetching, queue(&["1", "2", "3"]));
    let mut urls: Vec<String> = Vec::new();
    for (barcode, item) in [("1", "A"), ("2", "B"), ("3", "C")] {
        match &state {
            PollState::Updating { update, .. } => {
                assert_eq!(update.step, UpdateStep::Resolve);
                assert_eq!(update.esl, PricerEsl::from(pending(barcode)));
            }
            other => panic!("expected an update, got {:?}", other),
        }
        urls.push(sent(&poller, &state).url);
        state = poll(&poller, state, labels(barcode, item));
        let patch = sent(&poller, &state);
        assert_eq!(patch.method, Method::Patch);
        let body = patch.body.expect("a patch has a body");
        assert_eq!(body.len(), 1);
        assert_eq!(body[0].barcode, barcode);
        assert_eq!(body[0].item_id, item);
        urls.push(patch.url);
        state = poll(&poller, state, accepted(7));
        urls.push(sent(&poller, &state).url);
        state = poll(&poller, state, outcome());
    }
    assert_eq!(state, PollState::Waiting { waited: 0 });
    assert_eq!(
        urls,
        vec![
            "https://labels.example/api/public/core/v1/labels/1",
            "https://labels.example/api/public/core/v1/items",
            "https://labels.example/api/public/core/v1/items-result/7",
            "https://labels.example/api/public/core/v1/labels/2",
            "https://labels.example/api/public/core/v1/items",
            "https://labels.example/api/public/core/v1/items-result/7",
            "https://labels.example/api/public/core/v1/labels/3",
            "https://labels.example/api/public/core/v1/items",
            "https://labels.example/api/public/core/v1/items-result/7",
        ]
    );
}

#[test]
fn resolve_failure_on_the_second_of_three_records_ends_the_cycle() {
    let poller = poller(2000);
    let mut state = poll(&poller, PollState::Fetching, queue(&["1", "2", "3"]));
    let mut requests: Vec<Request> = Vec::new();
    requests.push(sent(&poller, &state));
    state = poll(&poller, state, labels("1", "A"));
    requests.push(sent(&poller, &state));
    state = poll(&poller, state, accepted(7));
    requests.push(sent(&poller, &state));
    state = poll(&poller, state, outcome());
    requests.push(sent(&poller, &state));
    assert_eq!(requests[3].url, "https://labels.example/api/public/core/v1/labels/2");
    state = poll(&poller, state, refused(404));
    assert_eq!(
        state,
        PollState::Failed { error: PollingError::PricerError { source: PricerError::MissingItem } }
    );
    assert_eq!(poller.action(&state), PollAction::Stop);
    for event in [labels("3", "C"), accepted(8), outcome(), PollEvent::Tick, queue(&["4"])] {
        state = poll(&poller, state, event);
        assert_eq!(poller.action(&state), PollAction::Stop);
    }
    assert_eq!(requests.len(), 4);
    assert!(requests.iter().all(|r| !r.url.ends_with("/labels/3")));
    assert_eq!(requests.iter().filter(|r| r.method == Method::Patch).count(), 1);
}

#[test]
fn refused_update_ends_the_cycle() {
    let poller = poller(2000);
    let mut state = poll(&poller, PollState::Fetching, queue(&["1", "2"]));
    state = poll(&poller, state, labels("1", "A"));
    state = poll(&poller, state, refused(500));
    assert_eq!(
        state,
        PollState::Failed {
            error: PollingError::PricerError {
                source: PricerError::UpdateFailed { id: "1".to_string() }
            }
        }
    );
}

#[test]
fn events_that_are_not_waited_for_change_nothing() {
    let poller = poller(2000);
    assert_eq!(poll(&poller, PollState::Fetching, PollEvent::Tick), PollState::Fetching);
    assert_eq!(
        poll(&poller, PollState::Waiting { waited: 150 }, outcome()),
        PollState::Waiting { waited: 150 }
    );
    let state = poll(&poller, PollState::Fetching, queue(&["1"]));
    let same = poll(&poller, PollState::Fetching, queue(&["1"]));
    assert_eq!(poll(&poller, state, PollEvent::Tick), same);
}

#[test]
fn last_record_of_a_cycle_leads_to_the_wait() {
    let poller = poller(300);
    let mut state = poll(&poller, PollState::Fetching, queue(&["1"]));
    state = poll(&poller, state, labels("1", "A"));
    state = poll(&poller, state, accepted(1));
    state = poll(&poller, state, outcome());
    assert_eq!(state, PollState::Waiting { waited: 0 });
    state = poll(&poller, state, PollEvent::Tick);
    assert_eq!(state, PollState::Waiting { waited: 150 });
    state = poll(&poller, state, PollEvent::Tick);
    assert_eq!(state, PollState::Fetching);
}

#[test]
fn end_to_end_cycle_for_barcode_123_proceeds_to_the_wait() {
    let poller = poller(2000);
    let mut state = poll(&poller, PollState::Fetching, queue(&["123"]));
    let resolve = sent(&poller, &state);
    assert_eq!(resolve.method, Method::Get);
    assert_eq!(resolve.url, "https://labels.example/api/public/core/v1/labels/123");
    state = poll(&poller, state, labels("123", "A1"));
    let submit = sent(&poller, &state);
    assert_eq!(submit.method, Method::Patch);
    assert_eq!(submit.url, "https://labels.example/api/public/core/v1/items");
    let body = submit.body.expect("a patch has a body");
    assert_eq!(body.len(), 1);
    assert_eq!(body[0].barcode, "123");
    assert_eq!(body[0].item_id, "A1");
    state = poll(&poller, state, accepted(77));
    let confirm = sent(&poller, &state);
    assert_eq!(confirm.method, Method::Get);
    assert_eq!(confirm.url, "https://labels.example/api/public/core/v1/items-result/77");
    state = poll(&poller, state, outcome());
    assert_eq!(state, PollState::Waiting { waited: 0 });
    assert_eq!(poller.action(&state), PollAction::Sleep { millis: 150 });
}

#[test]
fn end_to_end_cycle_for_an_unknown_label_aborts_without_a_patch() {
    for reply in [
        refused(404),
        PollEvent::Reply(Reply::Answered {
            status: 200,
            payload: Payload::Labels(PricerLabels {
                barcode: "999".to_string(),
                model_name: "SmartTag".to_string(),
                links: vec![],
            }),
        }),
    ] {
        let poller = poller(2000);
        let mut state = poll(&poller, PollState::Fetching, queue(&["999"]));
        let resolve = sent(&poller, &state);
        assert_eq!(resolve.url, "https://labels.example/api/public/core/v1/labels/999");
        state = poll(&poller, state, reply);
        assert_eq!(
            state,
            PollState::Failed {
                error: PollingError::PricerError { source: PricerError::MissingItem }
            }
        );
        assert_eq!(poller.action(&state), PollAction::Stop);
    }
}

#[test]
fn requests_to_the_label_server_carry_the_credentials() {
    let poller = poller(2000);
    let mut state = poll(&poller, PollState::Fetching, queue(&["1"]));
    let expected = Some(Credentials { user: "bridge".to_string(), password: "secret".to_string() });
    assert_eq!(sent(&poller, &state).credentials, expected);
    assert!(goes_to_target(&sent(&poller, &state)));
    state = poll(&poller, state, labels("1", "A"));
    assert_eq!(sent(&poller, &state).credentials, expected);
    state = poll(&poller, state, accepted(3));
    assert_eq!(sent(&poller, &state).credentials, expected);
    assert!(goes_to_target(&sent(&poller, &state)));
    assert_eq!(sent(&poller, &PollState::Fetching).credentials, None);
}
