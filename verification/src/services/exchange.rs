//! One HTTP exchange as plain values: the request that the caller is asked
//! to send, and what came back. The library decides; the caller performs.

use crate::services::generic_label::GenericEsl;
use crate::services::pricer::item::PricerAccepted;
use crate::services::pricer::labels::PricerLabels;
use crate::services::pricer::status::PricerItemsResult;
use crate::services::wire::{WireEsl, WireEslView};
use vstd::prelude::*;

verus! {

/// User and password for HTTP Basic authentication.
#[derive(Debug, PartialEq, Eq)]
pub struct Credentials {
    pub user: String,
    pub password: String,
}

/// What a [`Credentials`] holds, as mathematical text.
pub struct CredentialsView {
    pub user: Seq<char>,
    pub password: Seq<char>,
}

impl View for Credentials {
    type V = CredentialsView;

    open spec fn view(&self) -> CredentialsView {
        CredentialsView { user: self.user@, password: self.password@ }
    }
}

impl DeepView for Credentials {
    type V = CredentialsView;

    open spec fn deep_view(&self) -> CredentialsView {
        self@
    }
}

impl Clone for Credentials {
    fn clone(&self) -> (copy: Self)
        ensures
            copy == *self,
    {
        Credentials { user: self.user.clone(), password: self.password.clone() }
    }
}

/// The HTTP methods the bridge uses.
#[derive(Clone, Copy, Debug, PartialEq, Eq, Structural)]
pub enum Method {
    Get,
    Patch,
}

/// The body that the sender of a request wants decoded from the response.
#[derive(Clone, Copy, Debug, PartialEq, Eq, Structural)]
pub enum Expect {
    /// Only the status matters.
    Nothing,
    /// The source server's queue of pending updates.
    Queue,
    /// A label descriptor with its links.
    Labels,
    /// The acceptance of an update.
    Accepted,
    /// The outcome of an accepted update.
    Outcome,
}

/// A request for the caller to send.
#[derive(Debug, PartialEq, Eq)]
pub struct Request {
    pub method: Method,
    pub url: String,
    /// Basic authentication, where the server asks for it.
    pub credentials: Option<Credentials>,
    /// The records to send as a JSON array; `None` for a request without a body.
    pub body: Option<Vec<WireEsl>>,
    pub expects: Expect,
}

/// What a [`Request`] holds, as mathematical values.
pub struct RequestView {
    pub method: Method,
    pub url: Seq<char>,
    pub credentials: Option<CredentialsView>,
    pub body: Option<Seq<WireEslView>>,
    pub expects: Expect,
}

impl View for Request {
    type V = RequestView;

    open spec fn view(&self) -> RequestView {
        RequestView {
            method: self.method,
            url: self.url@,
            credentials: self.credentials.deep_view(),
            body: self.body.deep_view(),
            expects: self.expects,
        }
    }
}

impl DeepView for Request {
    type V = RequestView;

    open spec fn deep_view(&self) -> RequestView {
        self@
    }
}

/// Whether the body of a response with `status` is to be decoded as
/// `expects`. The queue is decoded whatever the status; a label descriptor
/// and an outcome on 200; an acceptance on 200 and 202.
pub open spec fn wants_body(expects: Expect, status: u16) -> bool {
    match expects {
        Expect::Nothing => false,
        Expect::Queue => true,
        Expect::Labels => status == 200,
        Expect::Accepted => status == 200 || status == 202,
        Expect::Outcome => status == 200,
    }
}

impl Request {
    /// Whether the caller is to decode the body of a response with `status`.
    pub fn decodes(&self, status: u16) -> (wanted: bool)
        ensures
            wanted == wants_body(self.expects, status),
    {
        match self.expects {
            Expect::Nothing => false,
            Expect::Queue => true,
            Expect::Labels => status == 200,
            Expect::Accepted => status == 200 || status == 202,
            Expect::Outcome => status == 200,
        }
    }
}

/// The decoded body of a response.
#[derive(Debug, PartialEq, Eq)]
pub enum Payload {
    /// No body was decoded: none was wanted, or it did not have the shape
    /// that was expected.
    Absent,
    Queue(Vec<GenericEsl>),
    Labels(PricerLabels),
    Accepted(PricerAccepted),
    Outcome(PricerItemsResult),
}

/// What came back for a request.
#[derive(Debug, PartialEq, Eq)]
pub enum Reply {
    /// No response: the connection, TLS or the proxy failed.
    Unreachable { detail: String },
    /// A response, with its status and its body as far as it was decoded.
    Answered { status: u16, payload: Payload },
}

} // verus!
