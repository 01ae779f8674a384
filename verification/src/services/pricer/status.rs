//! Confirm: the outcome of an accepted update, and the label server's own
//! status.

use crate::model::result_view;
use crate::services::exchange::{
    Credentials, CredentialsView, Expect, Method, Payload, Reply, Request, RequestView,
};
use crate::services::pricer::item::PricerAccepted;
use crate::services::pricer_service::{PricerError, PricerErrorView};
use crate::text::{decimal, decimal_string};
use vstd::prelude::*;
use vstd::string::*;

verus! {

/// The outcome for one item of an update.
#[derive(Debug, PartialEq, Eq)]
pub struct PricerItemResult {
    pub item_id: String,
    pub status: String,
    pub errors: Vec<String>,
}

/// What a [`PricerItemResult`] holds, as mathematical text.
pub struct PricerItemResultView {
    pub item_id: Seq<char>,
    pub status: Seq<char>,
    pub errors: Seq<Seq<char>>,
}

impl View for PricerItemResult {
    type V = PricerItemResultView;

    open spec fn view(&self) -> PricerItemResultView {
        PricerItemResultView {
            item_id: self.item_id@,
            status: self.status@,
            errors: self.errors.deep_view(),
        }
    }
}

impl DeepView for PricerItemResult {
    type V = PricerItemResultView;

    open spec fn deep_view(&self) -> PricerItemResultView {
        self@
    }
}

/// The outcome of an update: its status and one result per item, in order.
#[derive(Debug, PartialEq, Eq)]
pub struct PricerItemsResult {
    pub status: String,
    pub item_results: Vec<PricerItemResult>,
}

/// What a [`PricerItemsResult`] holds, as mathematical text.
pub struct PricerItemsResultView {
    pub status: Seq<char>,
    pub item_results: Seq<PricerItemResultView>,
}

impl View for PricerItemsResult {
    type V = PricerItemsResultView;

    open spec fn view(&self) -> PricerItemsResultView {
        PricerItemsResultView {
            status: self.status@,
            item_results: self.item_results.deep_view(),
        }
    }
}

impl DeepView for PricerItemsResult {
    type V = PricerItemsResultView;

    open spec fn deep_view(&self) -> PricerItemsResultView {
        self@
    }
}

/// The request that asks whether the label server is up: a GET of its
/// items, with basic authentication; only the status matters.
pub open spec fn liveness_request(server: Seq<char>, credentials: CredentialsView) -> RequestView {
    RequestView {
        method: Method::Get,
        url: server + "/api/public/core/v1/items"@,
        credentials: Some(credentials),
        body: None,
        expects: Expect::Nothing,
    }
}

/// Whether the label server is up: it answered, with status 200.
pub open spec fn server_is_up(reply: Reply) -> Result<bool, PricerErrorView> {
    match reply {
        Reply::Unreachable { detail } => Err(PricerErrorView::Transport { detail: detail@ }),
        Reply::Answered { status, payload } => Ok(status == 200),
    }
}

/// Builds the request that asks whether the label server is up.
pub fn item_status_request(esl_server_url: &str, credentials: &Credentials) -> (request: Request)
    ensures
        request@ == liveness_request(esl_server_url@, credentials@),
{
    let url: String = String::from_str(esl_server_url).concat("/api/public/core/v1/items");
    Request {
        method: Method::Get,
        url,
        credentials: Some(credentials.clone()),
        body: None,
        expects: Expect::Nothing,
    }
}

/// Decides whether the label server is up from what came back.
pub fn item_status(reply: Reply) -> (outcome: Result<bool, PricerError>)
    ensures
        match outcome {
            Ok(up) => server_is_up(reply) == Ok::<bool, PricerErrorView>(up),
            Err(error) => server_is_up(reply) == Err::<bool, PricerErrorView>(error@),
        },
{
    match reply {
        Reply::Unreachable { detail } => Err(PricerError::Transport { detail }),
        Reply::Answered { status, payload } => Ok(status == 200),
    }
}

/// The request that asks for the outcome of an accepted update: a GET of
/// the result under the acceptance's request id, with basic authentication.
pub open spec fn confirm_request(
    accepted: PricerAccepted,
    server: Seq<char>,
    credentials: CredentialsView,
) -> RequestView {
    RequestView {
        method: Method::Get,
        url: server + "/api/public/core/v1/items-result/"@ + decimal(accepted.request_id as int),
        credentials: Some(credentials),
        body: None,
        expects: Expect::Outcome,
    }
}

/// The outcome after the confirm step. Status 200 with an outcome in the
/// body succeeds; any other status gives `MissingItem`.
pub open spec fn confirmed(reply: Reply) -> Result<PricerItemsResultView, PricerErrorView> {
    match reply {
        Reply::Unreachable { detail } => Err(PricerErrorView::Transport { detail: detail@ }),
        Reply::Answered { status, payload } => {
            if status != 200 {
                Err(PricerErrorView::MissingItem)
            } else {
                match payload {
                    Payload::Outcome(outcome) => Ok(outcome@),
                    _ => Err(PricerErrorView::Deserialization),
                }
            }
        },
    }
}

/// Builds the request of the confirm step.
pub fn items_result_request(
    request_status: PricerAccepted,
    esl_server_url: &str,
    credentials: &Credentials,
) -> (request: Request)
    ensures
        request@ == confirm_request(request_status, esl_server_url@, credentials@),
{
    let id: String = decimal_string(request_status.request_id);
    let url: String = String::from_str(esl_server_url).concat(
        "/api/public/core/v1/items-result/",
    ).concat(id.as_str());
    Request {
        method: Method::Get,
        url,
        credentials: Some(credentials.clone()),
        body: None,
        expects: Expect::Outcome,
    }
}

/// Decides the confirm step from what came back. The outcome is handed on
/// as it is; the protocol does not look into it.
pub fn items_result(reply: Reply) -> (outcome: Result<PricerItemsResult, PricerError>)
    ensures
        result_view(outcome) == confirmed(reply),
{
    match reply {
        Reply::Unreachable { detail } => Err(PricerError::Transport { detail }),
        Reply::Answered { status, payload } => {
            if status != 200 {
                Err(PricerError::MissingItem)
            } else {
                match payload {
                    Payload::Outcome(outcome) => Ok(outcome),
                    _ => Err(PricerError::Deserialization),
                }
            }
        },
    }
}

} // verus!
