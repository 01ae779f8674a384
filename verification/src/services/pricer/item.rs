//! Submit: the resolved record is sent as a batch of one.

use crate::model::result_view;
use crate::services::exchange::{
    Credentials, CredentialsView, Expect, Method, Payload, Reply, Request, RequestView,
};
use crate::services::pricer_service::{PricerError, PricerErrorView, PricerEsl, PricerEslView};
use crate::services::wire::{encoded, WireEsl};
use vstd::prelude::*;
use vstd::string::*;

verus! {

/// The label server's acceptance of an update.
#[derive(Clone, Copy, Debug, PartialEq, Eq, Structural)]
pub struct PricerAccepted {
    pub request_id: i32,
}

impl View for PricerAccepted {
    type V = PricerAccepted;

    open spec fn view(&self) -> PricerAccepted {
        *self
    }
}

/// The request that submits `esl`: a PATCH whose body is an array holding
/// that one record, with basic authentication.
pub open spec fn submit_request(
    esl: PricerEslView,
    server: Seq<char>,
    credentials: CredentialsView,
) -> RequestView {
    RequestView {
        method: Method::Patch,
        url: server + "/api/public/core/v1/items"@,
        credentials: Some(credentials),
        body: Some(seq![encoded(esl)]),
        expects: Expect::Accepted,
    }
}

/// The acceptance after the submit step. Status 200 or 202 with an
/// acceptance in the body succeeds; any other status gives `UpdateFailed`
/// with the label's barcode.
pub open spec fn submitted(esl: PricerEslView, reply: Reply) -> Result<
    PricerAccepted,
    PricerErrorView,
> {
    match reply {
        Reply::Unreachable { detail } => Err(PricerErrorView::Transport { detail: detail@ }),
        Reply::Answered { status, payload } => {
            if status == 200 || status == 202 {
                match payload {
                    Payload::Accepted(accepted) => Ok(accepted),
                    _ => Err(PricerErrorView::Deserialization),
                }
            } else {
                Err(PricerErrorView::UpdateFailed { id: esl.barcode })
            }
        },
    }
}

/// Builds the request of the submit step.
pub fn update_item_request(esl: &PricerEsl, esl_server_url: &str, credentials: &Credentials) -> (request:
    Request)
    ensures
        request@ == submit_request(esl@, esl_server_url@, credentials@),
{
    let url: String = String::from_str(esl_server_url).concat("/api/public/core/v1/items");
    let mut payload: Vec<WireEsl> = Vec::new();
    payload.push(esl.encode());
    assert(payload.deep_view() =~= seq![encoded(esl@)]);
    Request {
        method: Method::Patch,
        url,
        credentials: Some(credentials.clone()),
        body: Some(payload),
        expects: Expect::Accepted,
    }
}

/// Decides the submit step from what came back.
pub fn update_item(esl: &PricerEsl, reply: Reply) -> (outcome: Result<PricerAccepted, PricerError>)
    ensures
        result_view(outcome) == submitted(esl@, reply),
{
    match reply {
        Reply::Unreachable { detail } => Err(PricerError::Transport { detail }),
        Reply::Answered { status, payload } => {
            if status == 200 || status == 202 {
                match payload {
                    Payload::Accepted(accepted) => Ok(accepted),
                    _ => Err(PricerError::Deserialization),
                }
            } else {
                Err(PricerError::UpdateFailed { id: esl.barcode.clone() })
            }
        },
    }
}

} // verus!
