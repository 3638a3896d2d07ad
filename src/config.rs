use vstd::prelude::*;
use crate::text::{opt_text, text_of};

verus! {

/// Port the server listens on when none is configured.
pub const DEFAULT_PORT: u16 = 4069;

/// Settings read once at startup and passed to the parts that need them.
pub struct EnvVars {
    gemini_api_key: String,
    authorization_key: Option<String>,
    port: u16,
    rate_limit_max: usize,
    rate_limit_duration: u64,
    posthog_project_api_key: Option<String>,
    posthog_api_host: Option<String>,
}

impl EnvVars {
    pub fn new(
        gemini_api_key: String,
        authorization_key: Option<String>,
        port: u16,
        rate_limit_max: usize,
        rate_limit_duration: u64,
        posthog_project_api_key: Option<String>,
        posthog_api_host: Option<String>,
    ) -> (r: EnvVars)
        ensures
            r.gemini_api_key() == gemini_api_key,
            r.authorization_key() == authorization_key,
            r.port() == port,
            r.rate_limit_max() == rate_limit_max,
            r.rate_limit_duration() == rate_limit_duration,
            r.posthog_project_api_key() == posthog_project_api_key,
            r.posthog_api_host() == posthog_api_host,
    {
        EnvVars {
            gemini_api_key,
            authorization_key,
            port,
            rate_limit_max,
            rate_limit_duration,
            posthog_project_api_key,
            posthog_api_host,
        }
    }

    pub closed spec fn gemini_api_key(&self) -> String {
        self.gemini_api_key
    }

    pub closed spec fn authorization_key(&self) -> Option<String> {
        self.authorization_key
    }

    pub closed spec fn port(&self) -> u16 {
        self.port
    }

    pub closed spec fn rate_limit_max(&self) -> usize {
        self.rate_limit_max
    }

    pub closed spec fn rate_limit_duration(&self) -> u64 {
        self.rate_limit_duration
    }

    pub closed spec fn posthog_project_api_key(&self) -> Option<String> {
        self.posthog_project_api_key
    }

    pub closed spec fn posthog_api_host(&self) -> Option<String> {
        self.posthog_api_host
    }

    /// Key for the model service.
    pub fn api_key(&self) -> (r: &str)
        ensures
            r@ == self.gemini_api_key()@,
    {
        self.gemini_api_key.as_str()
    }

    /// The authorisation key, where one is configured.
    pub fn auth_key(&self) -> (r: Option<&str>)
        ensures
            text_of(r) == opt_text(self.authorization_key()),
    {
        match &self.authorization_key {
            Some(k) => Some(k.as_str()),
            None => None,
        }
    }

    pub fn listen_port(&self) -> (r: u16)
        ensures
            r == self.port(),
    {
        self.port
    }

    /// Most requests a client may make within one window.
    pub fn max_requests(&self) -> (r: usize)
        ensures
            r == self.rate_limit_max(),
    {
        self.rate_limit_max
    }

    /// Length of the rate-limit window, in seconds.
    pub fn window_secs(&self) -> (r: u64)
        ensures
            r == self.rate_limit_duration(),
    {
        self.rate_limit_duration
    }

    /// Analytics project key, where one is configured.
    pub fn analytics_key(&self) -> (r: Option<&str>)
        ensures
            text_of(r) == opt_text(self.posthog_project_api_key()),
    {
        match &self.posthog_project_api_key {
            Some(k) => Some(k.as_str()),
            None => None,
        }
    }

    /// Analytics host, where one is configured.
    pub fn analytics_host(&self) -> (r: Option<&str>)
        ensures
            text_of(r) == opt_text(self.posthog_api_host()),
    {
        match &self.posthog_api_host {
            Some(h) => Some(h.as_str()),
            None => None,
        }
    }
}

} // verus!
