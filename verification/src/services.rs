//! The services the bridge talks to, the records it exchanges with them,
//! and the plan of the HTTP client that reaches them.

pub mod esl_service;
pub mod exchange;
pub mod generic_label;
pub mod parse_log;
pub mod poll;
pub mod pricer;
pub mod pricer_service;
pub mod wire;

use crate::model::result_view;
use crate::text::{contains_text, has_substring};
use vstd::prelude::*;
use vstd::string::*;

verus! {

/// Declares `url::ParseError`, the error of the `url` crate's parser, so
/// that it can be carried in [`ClientError`]. Nothing is known of a value
/// but that it is one.
#[verifier::external_type_specification]
#[verifier::external_body]
pub struct ExParseError(url::ParseError);

/// Why no client could be had.
#[derive(Debug, PartialEq, Eq)]
pub enum ClientError {
    /// The HTTP client could not be built from the plan. Raised where the
    /// plan is carried out.
    Reqwest { detail: String },
    /// A certificate file could not be read. Raised where the plan is
    /// carried out.
    Io { detail: String },
    /// The proxy's connection string is no URL.
    Url { source: url::ParseError },
}

/// What a [`ClientError`] holds, as mathematical text. Which error the URL
/// parser gave is not part of it.
pub enum ClientErrorView {
    Reqwest { detail: Seq<char> },
    Io { detail: Seq<char> },
    Url,
}

impl View for ClientError {
    type V = ClientErrorView;

    open spec fn view(&self) -> ClientErrorView {
        match self {
            ClientError::Reqwest { detail } => ClientErrorView::Reqwest { detail: detail@ },
            ClientError::Io { detail } => ClientErrorView::Io { detail: detail@ },
            ClientError::Url { source } => ClientErrorView::Url,
        }
    }
}

impl DeepView for ClientError {
    type V = ClientErrorView;

    open spec fn deep_view(&self) -> ClientErrorView {
        self@
    }
}

/// What is logged for a [`ClientError`].
pub open spec fn client_error_text(error: ClientErrorView) -> Seq<char> {
    match error {
        ClientErrorView::Reqwest { detail } => "Unable to build a reqwest client: "@ + detail,
        ClientErrorView::Io { detail } => "unable to read from the file: "@ + detail,
        ClientErrorView::Url => "Unable to parse proxy url"@,
    }
}

impl ClientError {
    /// The error in words, for the log.
    pub fn message(&self) -> (text: String)
        ensures
            text@ == client_error_text(self@),
    {
        match self {
            ClientError::Reqwest { detail } => String::from_str(
                "Unable to build a reqwest client: ",
            ).concat(detail.as_str()),
            ClientError::Io { detail } => String::from_str("unable to read from the file: ").concat(
                detail.as_str(),
            ),
            ClientError::Url { source } => String::from_str("Unable to parse proxy url"),
        }
    }
}

/// How requests are to reach their servers.
#[derive(Debug, PartialEq, Eq)]
pub enum ProxyConfig {
    /// Through the proxy at this URL, except for local targets.
    ConnectionString(String),
    /// Directly, whatever the system says.
    BypassProxy,
    /// As the system is configured.
    System,
}

/// A host is local if its name holds a loopback address, the unspecified
/// address or `localhost`.
pub open spec fn local(host: Seq<char>) -> bool {
    ||| has_substring(host, "127.0.0.1"@)
    ||| has_substring(host, "0.0.0.0"@)
    ||| has_substring(host, "localhost"@)
}

/// Whether a host is local, so that a request to it goes round the proxy.
pub fn is_local(url: &str) -> (answer: bool)
    ensures
        answer == local(url@),
{
    contains_text(url, "127.0.0.1") || contains_text(url, "0.0.0.0") || contains_text(
        url,
        "localhost",
    )
}

/// The serialization of the URL that the `url` crate parses `text` to, or
/// `None` where it rejects `text`. The parser's grammar is not written out
/// here: this is only a name for what it returns.
pub uninterp spec fn parsed_url(text: Seq<char>) -> Option<Seq<char>>;

/// Calls `url::Url::parse` and hands the URL back in its serialized form
/// (`String::from`, which moves the serialization out).
///
/// Believed, not proved: the parser decides from the text alone, with no
/// look at the environment, so that its result can bear the name
/// [`parsed_url`]; and it returns for every text. Nothing is claimed of
/// which texts it accepts, nor of how it writes a URL.
#[verifier::external_body]
fn parse_url(text: &str) -> (parsed: Result<String, url::ParseError>)
    ensures
        match parsed {
            Ok(url) => parsed_url(text@) == Some(url@),
            Err(error) => parsed_url(text@) is None,
        },
{
    url::Url::parse(text).map(String::from)
}

/// The route that the client is to be built with.
#[derive(Debug, PartialEq, Eq)]
pub enum ProxyPlan {
    /// Through the proxy at `target`, except for local hosts.
    Through { target: String },
    /// Never through a proxy.
    Bypass,
    /// As the system is configured.
    System,
}

/// What a [`ProxyPlan`] holds, as mathematical text.
pub enum ProxyPlanView {
    Through { target: Seq<char> },
    Bypass,
    System,
}

impl View for ProxyPlan {
    type V = ProxyPlanView;

    open spec fn view(&self) -> ProxyPlanView {
        match self {
            ProxyPlan::Through { target } => ProxyPlanView::Through { target: target@ },
            ProxyPlan::Bypass => ProxyPlanView::Bypass,
            ProxyPlan::System => ProxyPlanView::System,
        }
    }
}

impl DeepView for ProxyPlan {
    type V = ProxyPlanView;

    open spec fn deep_view(&self) -> ProxyPlanView {
        self@
    }
}

/// The files of a mutual-TLS identity.
#[derive(Debug, PartialEq, Eq)]
pub struct Certificates {
    pub pem_path: String,
    pub root_path: String,
    pub key_path: String,
}

/// What a [`Certificates`] holds, as mathematical text.
pub struct CertificatesView {
    pub pem_path: Seq<char>,
    pub root_path: Seq<char>,
    pub key_path: Seq<char>,
}

impl View for Certificates {
    type V = CertificatesView;

    open spec fn view(&self) -> CertificatesView {
        CertificatesView {
            pem_path: self.pem_path@,
            root_path: self.root_path@,
            key_path: self.key_path@,
        }
    }
}

impl DeepView for Certificates {
    type V = CertificatesView;

    open spec fn deep_view(&self) -> CertificatesView {
        self@
    }
}

/// What the HTTP client is to be built from.
#[derive(Debug, PartialEq, Eq)]
pub struct ClientPlan {
    pub proxy: ProxyPlan,
    /// The identity to present, where all three files were named.
    pub certificates: Option<Certificates>,
}

/// What a [`ClientPlan`] holds, as mathematical text.
pub struct ClientPlanView {
    pub proxy: ProxyPlanView,
    pub certificates: Option<CertificatesView>,
}

impl View for ClientPlan {
    type V = ClientPlanView;

    open spec fn view(&self) -> ClientPlanView {
        ClientPlanView { proxy: self.proxy@, certificates: self.certificates.deep_view() }
    }
}

impl DeepView for ClientPlan {
    type V = ClientPlanView;

    open spec fn deep_view(&self) -> ClientPlanView {
        self@
    }
}

/// The identity of a client: the three files, where all three are named.
pub open spec fn identity(
    pem: Option<Seq<char>>,
    root: Option<Seq<char>>,
    key: Option<Seq<char>>,
) -> Option<CertificatesView> {
    if pem is Some && root is Some && key is Some {
        Some(CertificatesView { pem_path: pem->0, root_path: root->0, key_path: key->0 })
    } else {
        None
    }
}

/// The plan of a client from its route and the certificate files named.
pub open spec fn planned(
    proxy: ProxyPlanView,
    pem: Option<Seq<char>>,
    root: Option<Seq<char>>,
    key: Option<Seq<char>>,
) -> ClientPlanView {
    ClientPlanView { proxy, certificates: identity(pem, root, key) }
}

/// The route for a proxy configuration: a connection string must parse as
/// a URL, and the proxy is then that URL as the parser writes it.
pub open spec fn routed(proxy: ProxyConfig) -> Result<ProxyPlanView, ClientErrorView> {
    match proxy {
        ProxyConfig::ConnectionString(cs) => match parsed_url(cs@) {
            Some(target) => Ok(ProxyPlanView::Through { target }),
            None => Err(ClientErrorView::Url),
        },
        ProxyConfig::BypassProxy => Ok(ProxyPlanView::Bypass),
        ProxyConfig::System => Ok(ProxyPlanView::System),
    }
}

/// Puts a plan together from a route and the certificate files named. The
/// client presents an identity only where the certificate, the root
/// certificate and the key are all named.
pub fn plan_client(
    proxy: ProxyPlan,
    certificate_pem: Option<String>,
    certificate_root: Option<String>,
    certificate_key: Option<String>,
) -> (plan: ClientPlan)
    ensures
        plan@ == planned(
            proxy@,
            certificate_pem.deep_view(),
            certificate_root.deep_view(),
            certificate_key.deep_view(),
        ),
{
    let certificates: Option<Certificates> = match (
        certificate_pem,
        certificate_root,
        certificate_key,
    ) {
        (Some(pem), Some(root), Some(key)) => Some(
            Certificates { pem_path: pem, root_path: root, key_path: key },
        ),
        _ => None,
    };
    ClientPlan { proxy, certificates }
}

/// The route through a proxy whose connection string went through the URL
/// parser: the proxy at the URL as the parser wrote it, or the parser's
/// error.
pub fn proxied(parsed: Result<String, url::ParseError>) -> (outcome: Result<
    ProxyPlan,
    ClientError,
>)
    ensures
        match parsed {
            Ok(target) => outcome matches Ok(route) && route@ == (ProxyPlanView::Through {
                target: target@,
            }),
            Err(error) => outcome == Err::<ProxyPlan, ClientError>(
                ClientError::Url { source: error },
            ),
        },
{
    match parsed {
        Ok(target) => Ok(ProxyPlan::Through { target }),
        Err(source) => Err(ClientError::Url { source }),
    }
}

/// Plans the HTTP client: how it routes its requests and which identity it
/// presents. Fails only where the proxy's connection string is no URL.
pub fn build_client(
    proxy: ProxyConfig,
    certificate_pem: Option<String>,
    certificate_root: Option<String>,
    certificate_key: Option<String>,
) -> (outcome: Result<ClientPlan, ClientError>)
    ensures
        result_view(outcome) == match routed(proxy) {
            Ok(route) => Ok(
                planned(
                    route,
                    certificate_pem.deep_view(),
                    certificate_root.deep_view(),
                    certificate_key.deep_view(),
                ),
            ),
            Err(error) => Err(error),
        },
{
    let route: ProxyPlan = match proxy {
        ProxyConfig::ConnectionString(cs) => match proxied(parse_url(cs.as_str())) {
            Ok(route) => route,
            Err(error) => {
                return Err(error);
            },
        },
        ProxyConfig::BypassProxy => ProxyPlan::Bypass,
        ProxyConfig::System => ProxyPlan::System,
    };
    Ok(plan_client(route, certificate_pem, certificate_root, certificate_key))
}

/// The proxy for a request to `host`: the plan's proxy, unless the host is
/// local or the plan names no proxy.
pub open spec fn proxy_for(plan: ProxyPlanView, host: Seq<char>) -> Option<Seq<char>> {
    match plan {
        ProxyPlanView::Through { target } => if local(host) {
            None
        } else {
            Some(target)
        },
        _ => None,
    }
}

impl ProxyPlan {
    /// The proxy that a request to `host` is to go through, if any.
    pub fn route(&self, host: &str) -> (proxy: Option<String>)
        ensures
            proxy.deep_view() == proxy_for(self@, host@),
    {
        match self {
            ProxyPlan::Through { target } => {
                if is_local(host) {
                    None
                } else {
                    Some(target.clone())
                }
            },
            _ => None,
        }
    }
}

} // verus!
