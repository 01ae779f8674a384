//! The configuration of the bridge, and what the services need of it.

use crate::services::exchange::{Credentials, CredentialsView};
use crate::services::generic_label::clone_text;
use crate::services::poll::{Poller, PollerView};
use crate::services::ProxyConfig;
use vstd::prelude::*;
use vstd::string::*;

verus! {

/// The wait between two polling cycles where none is configured, in
/// milliseconds.
pub const DEFAULT_POLLING_RATE: i32 = 2000;

/// The configuration, as the configuration file gives it.
#[derive(Debug, PartialEq, Eq)]
pub struct Settings {
    pub client_serial: String,
    pub proxy_cs: Option<String>,
    pub certificate_pem_path: Option<String>,
    pub certificate_root_path: Option<String>,
    /// Only read where the TLS implementation wants the key in a file of
    /// its own.
    pub certificate_key_path: Option<String>,
    pub log_level: Option<String>,
    pub esl_server_url: String,
    pub hublot_server_url: String,
    /// The wait between two polling cycles, in milliseconds.
    pub polling_rate: Option<i32>,
    pub pricer_user: Option<String>,
    pub pricer_password: Option<String>,
    pub parse_id: Option<String>,
    pub parse_url: Option<String>,
    pub log_file: Option<String>,
}

impl Clone for Settings {
    fn clone(&self) -> (copy: Self)
        ensures
            copy == *self,
    {
        Settings {
            client_serial: self.client_serial.clone(),
            proxy_cs: clone_text(&self.proxy_cs),
            certificate_pem_path: clone_text(&self.certificate_pem_path),
            certificate_root_path: clone_text(&self.certificate_root_path),
            certificate_key_path: clone_text(&self.certificate_key_path),
            log_level: clone_text(&self.log_level),
            esl_server_url: self.esl_server_url.clone(),
            hublot_server_url: self.hublot_server_url.clone(),
            polling_rate: self.polling_rate,
            pricer_user: clone_text(&self.pricer_user),
            pricer_password: clone_text(&self.pricer_password),
            parse_id: clone_text(&self.parse_id),
            parse_url: clone_text(&self.parse_url),
            log_file: clone_text(&self.log_file),
        }
    }
}

/// What the configuration lacks. Either is fatal: the bridge does not start.
#[derive(Clone, Copy, Debug, PartialEq, Eq, Structural)]
pub enum ConfigurationError {
    MissingPricerUser,
    MissingPricerPassword,
}

impl View for ConfigurationError {
    type V = ConfigurationError;

    open spec fn view(&self) -> ConfigurationError {
        *self
    }
}

/// What is said of a [`ConfigurationError`].
pub open spec fn configuration_error_text(error: ConfigurationError) -> Seq<char> {
    match error {
        ConfigurationError::MissingPricerUser =>
            "Pricer user is empty in the config file, please add 'pricer_user=<user name>' in hublot-config.toml"@,
        ConfigurationError::MissingPricerPassword =>
            "Pricer password is empty in the config file, please add 'pricer_password=<password>' in hublot-config.toml"@,
    }
}

impl ConfigurationError {
    /// The error in words.
    pub fn message(&self) -> (text: String)
        ensures
            text@ == configuration_error_text(*self),
    {
        match self {
            ConfigurationError::MissingPricerUser => String::from_str(
                "Pricer user is empty in the config file, please add 'pricer_user=<user name>' in hublot-config.toml",
            ),
            ConfigurationError::MissingPricerPassword => String::from_str(
                "Pricer password is empty in the config file, please add 'pricer_password=<password>' in hublot-config.toml",
            ),
        }
    }
}

/// The credentials for the label server: both the user and the password
/// must be configured; the user is looked at first.
pub open spec fn configured_credentials(
    user: Option<Seq<char>>,
    password: Option<Seq<char>>,
) -> Result<CredentialsView, ConfigurationError> {
    match user {
        None => Err(ConfigurationError::MissingPricerUser),
        Some(user) => match password {
            None => Err(ConfigurationError::MissingPricerPassword),
            Some(password) => Ok(CredentialsView { user, password }),
        },
    }
}

/// The polling interval in milliseconds: the configured rate, the default
/// where none is configured, and no wait at all for a rate below zero.
pub open spec fn configured_interval(polling_rate: Option<i32>) -> u64 {
    match polling_rate {
        None => DEFAULT_POLLING_RATE as u64,
        Some(rate) => if rate < 0 {
            0
        } else {
            rate as u64
        },
    }
}

/// The log filter: the configured level, `warn` where none is configured.
pub open spec fn configured_log_level(log_level: Option<Seq<char>>) -> Seq<char> {
    match log_level {
        Some(level) => level,
        None => "warn"@,
    }
}

impl Settings {
    /// The credentials for the label server, or what is missing.
    pub fn credentials(&self) -> (outcome: Result<Credentials, ConfigurationError>)
        ensures
            match outcome {
                Ok(credentials) => configured_credentials(
                    self.pricer_user.deep_view(),
                    self.pricer_password.deep_view(),
                ) == Ok::<CredentialsView, ConfigurationError>(credentials@),
                Err(error) => configured_credentials(
                    self.pricer_user.deep_view(),
                    self.pricer_password.deep_view(),
                ) == Err::<CredentialsView, ConfigurationError>(error),
            },
    {
        match &self.pricer_user {
            None => Err(ConfigurationError::MissingPricerUser),
            Some(user) => match &self.pricer_password {
                None => Err(ConfigurationError::MissingPricerPassword),
                Some(password) => Ok(
                    Credentials { user: user.clone(), password: password.clone() },
                ),
            },
        }
    }

    /// The log filter to start the logger with.
    pub fn log_filter(&self) -> (level: String)
        ensures
            level@ == configured_log_level(self.log_level.deep_view()),
    {
        match &self.log_level {
            Some(level) => level.clone(),
            None => String::from_str("warn"),
        }
    }

    /// The polling interval in milliseconds.
    pub fn interval(&self) -> (millis: u64)
        ensures
            millis == configured_interval(self.polling_rate),
    {
        match self.polling_rate {
            None => DEFAULT_POLLING_RATE as u64,
            Some(rate) => if rate < 0 {
                0
            } else {
                rate as u64
            },
        }
    }

    /// The proxy configuration: through the configured proxy, or as the
    /// system says where none is configured.
    pub fn proxy(&self) -> (proxy: ProxyConfig)
        ensures
            match self.proxy_cs {
                Some(cs) => proxy == ProxyConfig::ConnectionString(cs),
                None => proxy == ProxyConfig::System,
            },
    {
        match &self.proxy_cs {
            Some(cs) => ProxyConfig::ConnectionString(cs.clone()),
            None => ProxyConfig::System,
        }
    }

    /// The configuration of a polling run with these credentials.
    pub fn poller(&self, credentials: Credentials) -> (poller: Poller)
        ensures
            poller@ == (PollerView {
                client_serial: self.client_serial@,
                hublot_server_url: self.hublot_server_url@,
                esl_server_url: self.esl_server_url@,
                credentials: credentials@,
                interval: configured_interval(self.polling_rate),
            }),
    {
        Poller {
            client_serial: self.client_serial.clone(),
            hublot_server_url: self.hublot_server_url.clone(),
            esl_server_url: self.esl_server_url.clone(),
            credentials,
            interval: self.interval(),
        }
    }
}

} // verus!
