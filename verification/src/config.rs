//! The configuration of a client and the builder that assembles it.

use crate::client::{Client, ClientView};
use crate::error::Error;
use crate::event::{clone_opt_text, opt_text};
use crate::text::{is_blank, lemma_trimmed_is_empty_iff_blank, trim, trimmed};
use vstd::prelude::*;

verus! {

/// Where reports go unless the builder is told otherwise.
pub const DEFAULT_BACKEND_URL: &'static str = "http://localhost:8080/ingress";

/// The path of the collector's ingestion endpoint below its base URL.
pub const INGRESS_PATH: &'static str = "/ingress";

/// The settings every part of the pipeline consults. All but the enabled
/// flag are fixed once the client is built.
#[derive(Debug)]
pub struct Config {
    api_key: String,
    backend_url: String,
    report_on_log_errors: bool,
    environment: Option<String>,
    version: Option<String>,
    is_enabled: bool,
}

/// What a [`Config`] holds, as mathematical values.
pub struct ConfigView {
    pub api_key: Seq<char>,
    /// The full URL reports are posted to.
    pub backend_url: Seq<char>,
    /// Whether an error-level record triggers a report of its own.
    pub report_on_log_errors: bool,
    pub environment: Option<Seq<char>>,
    pub version: Option<Seq<char>>,
    /// Whether faults and error-level records are reported at all.
    pub is_enabled: bool,
}

impl View for Config {
    type V = ConfigView;

    closed spec fn view(&self) -> ConfigView {
        ConfigView {
            api_key: self.api_key@,
            backend_url: self.backend_url@,
            report_on_log_errors: self.report_on_log_errors,
            environment: opt_text(self.environment),
            version: opt_text(self.version),
            is_enabled: self.is_enabled,
        }
    }
}

impl Clone for Config {
    fn clone(&self) -> (copy: Self)
        ensures
            copy@ == self@,
    {
        Config {
            api_key: self.api_key.clone(),
            backend_url: self.backend_url.clone(),
            report_on_log_errors: self.report_on_log_errors,
            environment: clone_opt_text(&self.environment),
            version: clone_opt_text(&self.version),
            is_enabled: self.is_enabled,
        }
    }
}

impl Config {
    pub fn api_key(&self) -> (key: &str)
        ensures
            key@ == self@.api_key,
    {
        self.api_key.as_str()
    }

    /// The full URL reports are posted to.
    pub fn backend_url(&self) -> (url: &str)
        ensures
            url@ == self@.backend_url,
    {
        self.backend_url.as_str()
    }

    pub fn report_on_log_errors(&self) -> (on: bool)
        ensures
            on == self@.report_on_log_errors,
    {
        self.report_on_log_errors
    }

    pub fn environment(&self) -> (name: Option<String>)
        ensures
            opt_text(name) == self@.environment,
    {
        clone_opt_text(&self.environment)
    }

    pub fn version(&self) -> (version: Option<String>)
        ensures
            opt_text(version) == self@.version,
    {
        clone_opt_text(&self.version)
    }

    pub fn is_enabled(&self) -> (on: bool)
        ensures
            on == self@.is_enabled,
    {
        self.is_enabled
    }

    /// Switches reporting on or off and leaves every other setting alone.
    pub fn set_enabled(&mut self, enabled: bool)
        ensures
            final(self)@ == (ConfigView { is_enabled: enabled, ..old(self)@ }),
    {
        self.is_enabled = enabled;
    }
}

/// A builder to configure a client before it is built.
///
/// Use [`builder`] to create one.
#[derive(Debug)]
pub struct Builder {
    config: Config,
}

impl View for Builder {
    type V = ConfigView;

    /// The configuration assembled so far.
    closed spec fn view(&self) -> ConfigView {
        self.config@
    }
}

impl Builder {
    /// Sets the reported environment, which tells reports from development
    /// and staging apart from production ones.
    pub fn environment(self, name: &str) -> (next: Self)
        ensures
            next@ == (ConfigView { environment: Some(name@), ..self@ }),
    {
        let mut next = self;
        next.config.environment = Some(name.to_owned());
        next
    }

    /// Sets the version of the application, which tells when a fault first
    /// occurred and when it was resolved.
    pub fn version(self, version: &str) -> (next: Self)
        ensures
            next@ == (ConfigView { version: Some(version@), ..self@ }),
    {
        let mut next = self;
        next.config.version = Some(version.to_owned());
        next
    }

    /// Sets where reports are sent: the base URL of the collector, protocol
    /// included and without a trailing slash. Reports go to its ingestion
    /// endpoint.
    pub fn backend_url(self, url: &str) -> (next: Self)
        ensures
            next@ == (ConfigView { backend_url: url@ + INGRESS_PATH@, ..self@ }),
    {
        let mut next = self;
        let mut full = url.to_owned();
        full.append(INGRESS_PATH);
        next.config.backend_url = full;
        next
    }

    /// Chooses whether an error-level log or trace record sends a report of
    /// its own. On by default.
    pub fn send_report_on_log_errors(self, enabled: bool) -> (next: Self)
        ensures
            next@ == (ConfigView { report_on_log_errors: enabled, ..self@ }),
    {
        let mut next = self;
        next.config.report_on_log_errors = enabled;
        next
    }

    /// Builds the client: a configuration with a non-empty API key and an
    /// empty recency buffer to which the fault hook is attached. Fails on an
    /// empty key, and on nothing else.
    pub fn build(self) -> (built: Result<Client, Error>)
        ensures
            built is Err <==> self@.api_key.len() == 0,
            built matches Err(e) ==> e == Error::EmptyApiKey,
            built matches Ok(client) ==> client@ == ClientView::initial(self@),
    {
        if self.config.api_key.as_str().is_empty() {
            Err(Error::EmptyApiKey)
        } else {
            Ok(Client::assemble(self.config))
        }
    }
}

/// The entry point of the library: a builder for the project with the given
/// API key. Whitespace around the key is dropped, so that a blank key is an
/// empty one; reporting starts enabled, towards [`DEFAULT_BACKEND_URL`], with
/// no environment or version set.
pub fn builder(api_key: &str) -> (made: Builder)
    ensures
        made@ == (ConfigView {
            api_key: trimmed(api_key@),
            backend_url: DEFAULT_BACKEND_URL@,
            report_on_log_errors: true,
            environment: None,
            version: None,
            is_enabled: true,
        }),
        made@.api_key.len() == 0 <==> is_blank(api_key@),
{
    proof {
        lemma_trimmed_is_empty_iff_blank(api_key@);
    }
    Builder {
        config: Config {
            api_key: trim(api_key),
            backend_url: DEFAULT_BACKEND_URL.to_owned(),
            report_on_log_errors: true,
            environment: None,
            version: None,
            is_enabled: true,
        },
    }
}

} // verus!
