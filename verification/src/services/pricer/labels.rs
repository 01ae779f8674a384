//! Resolve: the item that a label is linked to.

use crate::model::result_view;
use crate::services::exchange::{
    Credentials, CredentialsView, Expect, Method, Payload, Reply, Request, RequestView,
};
use crate::services::pricer_service::{PricerError, PricerErrorView, PricerEsl, PricerEslView};
use vstd::prelude::*;
use vstd::string::*;

verus! {

/// One link from a label to an item.
#[derive(Debug, PartialEq, Eq)]
pub struct PricerLinks {
    pub barcode: String,
    pub item_id: String,
    pub display_position: i32,
}

/// A label descriptor.
#[derive(Debug, PartialEq, Eq)]
pub struct PricerLabels {
    pub barcode: String,
    pub model_name: String,
    pub links: Vec<PricerLinks>,
}

/// The request that resolves the label of `esl`: a GET of the label's
/// descriptor, with basic authentication.
pub open spec fn resolve_request(
    esl: PricerEslView,
    server: Seq<char>,
    credentials: CredentialsView,
) -> RequestView {
    RequestView {
        method: Method::Get,
        url: server + "/api/public/core/v1/labels/"@ + esl.barcode,
        credentials: Some(credentials),
        body: None,
        expects: Expect::Labels,
    }
}

/// The record after the resolve step. A response with status 200 and a
/// descriptor with at least one link gives the record with the first link's
/// item; any other status, or a descriptor without links, gives
/// `MissingItem`.
pub open spec fn resolved(esl: PricerEslView, reply: Reply) -> Result<
    PricerEslView,
    PricerErrorView,
> {
    match reply {
        Reply::Unreachable { detail } => Err(PricerErrorView::Transport { detail: detail@ }),
        Reply::Answered { status, payload } => {
            if status != 200 {
                Err(PricerErrorView::MissingItem)
            } else {
                match payload {
                    Payload::Labels(labels) => {
                        if labels.links@.len() > 0 {
                            Ok(PricerEslView { item_id: labels.links@[0].item_id@, ..esl })
                        } else {
                            Err(PricerErrorView::MissingItem)
                        }
                    },
                    _ => Err(PricerErrorView::Deserialization),
                }
            }
        },
    }
}

/// Builds the request of the resolve step.
pub fn map_esl_to_id_request(esl: &PricerEsl, esl_server_url: &str, credentials: &Credentials) -> (request:
    Request)
    ensures
        request@ == resolve_request(esl@, esl_server_url@, credentials@),
{
    let url: String = String::from_str(esl_server_url).concat("/api/public/core/v1/labels/").concat(
        esl.barcode.as_str(),
    );
    Request {
        method: Method::Get,
        url,
        credentials: Some(credentials.clone()),
        body: None,
        expects: Expect::Labels,
    }
}

/// Decides the resolve step from what came back: the record with its item,
/// or the error.
pub fn map_esl_to_id(esl: PricerEsl, reply: Reply) -> (outcome: Result<PricerEsl, PricerError>)
    ensures
        result_view(outcome) == resolved(esl@, reply),
{
    match reply {
        Reply::Unreachable { detail } => Err(PricerError::Transport { detail }),
        Reply::Answered { status, payload } => {
            if status != 200 {
                Err(PricerError::MissingItem)
            } else {
                match payload {
                    Payload::Labels(labels) => {
                        if labels.links.len() > 0 {
                            let mut updated: PricerEsl = esl;
                            updated.item_id = labels.links[0].item_id.clone();
                            Ok(updated)
                        } else {
                            Err(PricerError::MissingItem)
                        }
                    },
                    _ => Err(PricerError::Deserialization),
                }
            }
        },
    }
}

} // verus!
