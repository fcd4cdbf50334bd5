//! Request settings of a client.

use crate::time::{duration_nanos, NANOS_PER_SEC};
use std::time::Duration;
use vstd::prelude::*;

verus! {

/// User agent that `ClientSetting::user_agent_firefox` sets.
pub const DEFAULT_USER_AGENT_FIREFOX: &'static str =
    "Mozilla/5.0 (X11; Linux x86_64; rv:109.0) Gecko/20100101 Firefox/121.0";

/// User agent that `ClientSetting::user_agent_chrome` sets.
pub const DEFAULT_USER_AGENT_CHROME: &'static str =
    "Mozilla/5.0 (X11; Linux x86_64) AppleWebKit/537.36 (KHTML, like Gecko) Chrome/120.0.0.0 Safari/537.36";

/// User agent of a client whose setting names none: the crate's name and
/// version.
pub const DEFAULT_USER_AGENT: &'static str = "ipstruct-rust-client/0.2.0";

/// Timeout of a fresh setting, in seconds.
pub const DEFAULT_TIMEOUT_SECS: u64 = 10;

/// Client Setting
#[derive(Debug)]
pub struct ClientSetting {
    /// Timeout for the request
    pub timeout: Duration,
    /// User Agent for the request
    pub user_agent: Option<String>,
    /// Proxy Scheme for the request
    pub proxy_scheme: Option<String>,
    /// Blocking or non-blocking
    pub blocking: bool,
    /// Reverse DNS lookup for the request
    pub reverse_dns: bool,
}

/// A setting as plain values: the timeout in nanoseconds, the texts as
/// sequences of characters.
pub struct ClientSettingView {
    pub timeout: nat,
    pub user_agent: Option<Seq<char>>,
    pub proxy_scheme: Option<Seq<char>>,
    pub blocking: bool,
    pub reverse_dns: bool,
}

/// The text that an optional string holds, if any.
pub open spec fn text_of(s: Option<String>) -> Option<Seq<char>> {
    match s {
        Some(t) => Some(t@),
        None => None,
    }
}

impl View for ClientSetting {
    type V = ClientSettingView;

    open spec fn view(&self) -> ClientSettingView {
        ClientSettingView {
            timeout: duration_nanos(self.timeout),
            user_agent: text_of(self.user_agent),
            proxy_scheme: text_of(self.proxy_scheme),
            blocking: self.blocking,
            reverse_dns: self.reverse_dns,
        }
    }
}

impl ClientSetting {
    /// The setting that `new` gives: ten seconds of timeout, no user agent,
    /// no proxy, neither blocking nor reverse DNS.
    pub open spec fn initial() -> ClientSettingView {
        ClientSettingView {
            timeout: (DEFAULT_TIMEOUT_SECS * NANOS_PER_SEC) as nat,
            user_agent: None,
            proxy_scheme: None,
            blocking: false,
            reverse_dns: false,
        }
    }

    /// Create a new instance of ClientSetting
    pub fn new() -> (r: Self)
        ensures
            r@ == Self::initial(),
    {
        ClientSetting {
            timeout: Duration::from_secs(DEFAULT_TIMEOUT_SECS),
            user_agent: None,
            proxy_scheme: None,
            blocking: false,
            reverse_dns: false,
        }
    }

    /// Set the timeout for the request
    pub fn timeout(self, timeout: Duration) -> (r: Self)
        ensures
            r@ == (ClientSettingView { timeout: duration_nanos(timeout), ..self@ }),
    {
        let mut setting = self;
        setting.timeout = timeout;
        setting
    }

    /// Set the user agent for the request
    pub fn user_agent(self, user_agent: &str) -> (r: Self)
        ensures
            r@ == (ClientSettingView { user_agent: Some(user_agent@), ..self@ }),
    {
        let mut setting = self;
        setting.user_agent = Some(user_agent.to_string());
        setting
    }

    /// Set the proxy scheme for the request
    pub fn proxy_scheme(self, proxy_scheme: &str) -> (r: Self)
        ensures
            r@ == (ClientSettingView { proxy_scheme: Some(proxy_scheme@), ..self@ }),
    {
        let mut setting = self;
        setting.proxy_scheme = Some(proxy_scheme.to_string());
        setting
    }

    /// Set the user agent to Firefox
    pub fn user_agent_firefox(self) -> (r: Self)
        ensures
            r@ == (ClientSettingView { user_agent: Some(DEFAULT_USER_AGENT_FIREFOX@), ..self@ }),
    {
        let mut setting = self;
        setting.user_agent = Some(DEFAULT_USER_AGENT_FIREFOX.to_string());
        setting
    }

    /// Set the user agent to Chrome
    pub fn user_agent_chrome(self) -> (r: Self)
        ensures
            r@ == (ClientSettingView { user_agent: Some(DEFAULT_USER_AGENT_CHROME@), ..self@ }),
    {
        let mut setting = self;
        setting.user_agent = Some(DEFAULT_USER_AGENT_CHROME.to_string());
        setting
    }

    /// Set blocking or non-blocking
    pub fn blocking(self, blocking: bool) -> (r: Self)
        ensures
            r@ == (ClientSettingView { blocking, ..self@ }),
    {
        let mut setting = self;
        setting.blocking = blocking;
        setting
    }

    /// Set reverse DNS
    pub fn reverse_dns(self, reverse_dns: bool) -> (r: Self)
        ensures
            r@ == (ClientSettingView { reverse_dns, ..self@ }),
    {
        let mut setting = self;
        setting.reverse_dns = reverse_dns;
        setting
    }

    /// Set the user agent for the request
    pub fn set_user_agent(&mut self, user_agent: &str)
        ensures
            final(self)@ == (ClientSettingView { user_agent: Some(user_agent@), ..old(self)@ }),
    {
        self.user_agent = Some(user_agent.to_string());
    }

    /// Set the proxy scheme for the request
    pub fn set_proxy_scheme(&mut self, proxy_scheme: &str)
        ensures
            final(self)@ == (ClientSettingView { proxy_scheme: Some(proxy_scheme@), ..old(self)@ }),
    {
        self.proxy_scheme = Some(proxy_scheme.to_string());
    }

    /// Set the timeout for the request
    pub fn set_timeout(&mut self, timeout: Duration)
        ensures
            final(self)@ == (ClientSettingView { timeout: duration_nanos(timeout), ..old(self)@ }),
    {
        self.timeout = timeout;
    }

    /// Set reverse DNS
    pub fn set_reverse_dns(&mut self, reverse_dns: bool)
        ensures
            final(self)@ == (ClientSettingView { reverse_dns, ..old(self)@ }),
    {
        self.reverse_dns = reverse_dns;
    }

    /// Get the user agent for the request
    pub fn get_user_agent(&self) -> (r: String)
        ensures
            r@ == match self@.user_agent {
                Some(user_agent) => user_agent,
                None => Seq::<char>::empty(),
            },
    {
        match &self.user_agent {
            Some(user_agent) => user_agent.clone(),
            None => String::new(),
        }
    }

    /// Get the proxy scheme for the request
    pub fn get_proxy_scheme(&self) -> (r: String)
        ensures
            r@ == match self@.proxy_scheme {
                Some(proxy_scheme) => proxy_scheme,
                None => Seq::<char>::empty(),
            },
    {
        match &self.proxy_scheme {
            Some(proxy_scheme) => proxy_scheme.clone(),
            None => String::new(),
        }
    }

    /// Get the timeout for the request
    pub fn get_timeout(&self) -> (r: Duration)
        ensures
            r == self.timeout,
    {
        self.timeout
    }
}

impl Clone for ClientSetting {
    fn clone(&self) -> (r: Self)
        ensures
            r@ == self@,
    {
        ClientSetting {
            timeout: self.timeout,
            user_agent: self.user_agent.clone(),
            proxy_scheme: self.proxy_scheme.clone(),
            blocking: self.blocking,
            reverse_dns: self.reverse_dns,
        }
    }
}

impl Default for ClientSetting {
    fn default() -> (r: Self)
        ensures
            r@ == ClientSetting::initial(),
    {
        Self::new()
    }
}

} // verus!
