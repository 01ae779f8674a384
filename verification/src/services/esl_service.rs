//! The source server: its queue of pending updates and its status.

use crate::services::exchange::{Expect, Method, Payload, Reply, Request, RequestView};
use crate::services::generic_label::{GenericEsl, GenericEslView};
use vstd::prelude::*;
use vstd::string::*;

verus! {

/// Why an exchange with the source server failed.
#[derive(Debug, PartialEq, Eq)]
pub enum EslServiceError {
    /// The request got no response.
    Transport { detail: String },
    /// The response did not have the shape that was expected.
    Deserialization,
}

/// What an [`EslServiceError`] holds, as mathematical text.
pub enum EslServiceErrorView {
    Transport { detail: Seq<char> },
    Deserialization,
}

impl View for EslServiceError {
    type V = EslServiceErrorView;

    open spec fn view(&self) -> EslServiceErrorView {
        match self {
            EslServiceError::Transport { detail } => EslServiceErrorView::Transport {
                detail: detail@,
            },
            EslServiceError::Deserialization => EslServiceErrorView::Deserialization,
        }
    }
}

impl DeepView for EslServiceError {
    type V = EslServiceErrorView;

    open spec fn deep_view(&self) -> EslServiceErrorView {
        self@
    }
}

/// What is logged for an [`EslServiceError`].
pub open spec fn esl_service_error_text(error: EslServiceErrorView) -> Seq<char> {
    match error {
        EslServiceErrorView::Transport { detail } => "An issue occured within this request: "@
            + detail,
        EslServiceErrorView::Deserialization =>
            "An issue occured within this request: error decoding response body"@,
    }
}

impl EslServiceError {
    /// The error in words, for the log.
    pub fn message(&self) -> (text: String)
        ensures
            text@ == esl_service_error_text(self@),
    {
        match self {
            EslServiceError::Transport { detail } => String::from_str(
                "An issue occured within this request: ",
            ).concat(detail.as_str()),
            EslServiceError::Deserialization => String::from_str(
                "An issue occured within this request: error decoding response body",
            ),
        }
    }
}

/// The request that fetches the queue of a client: a GET of the client's
/// poll route, without authentication.
pub open spec fn queue_request(server: Seq<char>, client_serial: Seq<char>) -> RequestView {
    RequestView {
        method: Method::Get,
        url: server + "/esl-api/poll/"@ + client_serial,
        credentials: None,
        body: None,
        expects: Expect::Queue,
    }
}

/// The queue that came back, in the order received. Whatever the status, a
/// body that is a queue is taken; anything else is an error.
pub open spec fn fetched(reply: Reply) -> Result<Seq<GenericEslView>, EslServiceErrorView> {
    match reply {
        Reply::Unreachable { detail } => Err(EslServiceErrorView::Transport { detail: detail@ }),
        Reply::Answered { status, payload } => match payload {
            Payload::Queue(queue) => Ok(queue.deep_view()),
            _ => Err(EslServiceErrorView::Deserialization),
        },
    }
}

/// Builds the request that fetches the queue.
pub fn get_print_requests_request(hublot_server_url: &str, client_serial: &str) -> (request:
    Request)
    ensures
        request@ == queue_request(hublot_server_url@, client_serial@),
{
    let url: String = String::from_str(hublot_server_url).concat("/esl-api/poll/").concat(
        client_serial,
    );
    Request { method: Method::Get, url, credentials: None, body: None, expects: Expect::Queue }
}

/// Takes the queue out of what came back.
pub fn get_print_requests(reply: Reply) -> (outcome: Result<Vec<GenericEsl>, EslServiceError>)
    ensures
        match outcome {
            Ok(queue) => fetched(reply) == Ok::<Seq<GenericEslView>, EslServiceErrorView>(
                queue.deep_view(),
            ),
            Err(error) => fetched(reply) == Err::<Seq<GenericEslView>, EslServiceErrorView>(
                error@,
            ),
        },
{
    match reply {
        Reply::Unreachable { detail } => Err(EslServiceError::Transport { detail }),
        Reply::Answered { status, payload } => match payload {
            Payload::Queue(queue) => Ok(queue),
            _ => Err(EslServiceError::Deserialization),
        },
    }
}

/// The request that asks whether the source server can be reached: a GET of
/// its status route; only the status matters.
pub open spec fn reachability_request(server: Seq<char>) -> RequestView {
    RequestView {
        method: Method::Get,
        url: server + "/esl-api/status"@,
        credentials: None,
        body: None,
        expects: Expect::Nothing,
    }
}

/// Whether the source server can be reached: it answered, with status 200.
pub open spec fn reachable(reply: Reply) -> Result<bool, EslServiceErrorView> {
    match reply {
        Reply::Unreachable { detail } => Err(EslServiceErrorView::Transport { detail: detail@ }),
        Reply::Answered { status, payload } => Ok(status == 200),
    }
}

/// Builds the request that asks whether the source server can be reached.
pub fn status_request(hublot_server_url: &str) -> (request: Request)
    ensures
        request@ == reachability_request(hublot_server_url@),
{
    let url: String = String::from_str(hublot_server_url).concat("/esl-api/status");
    Request { method: Method::Get, url, credentials: None, body: None, expects: Expect::Nothing }
}

/// Decides whether the source server can be reached from what came back.
pub fn status(reply: Reply) -> (outcome: Result<bool, EslServiceError>)
    ensures
        match outcome {
            Ok(up) => reachable(reply) == Ok::<bool, EslServiceErrorView>(up),
            Err(error) => reachable(reply) == Err::<bool, EslServiceErrorView>(error@),
        },
{
    match reply {
        Reply::Unreachable { detail } => Err(EslServiceError::Transport { detail }),
        Reply::Answered { status, payload } => Ok(status == 200),
    }
}

} // verus!
