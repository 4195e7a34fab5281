//! Configuration for external integrations.

use vstd::prelude::*;

verus! {

/// Configuration for external integrations.
pub struct IntegrationConfig {
    /// IPinfo API key (optional, increases rate limits).
    pub ipinfo_api_key: Option<String>,
    /// Shodan API key (required for Shodan lookups).
    pub shodan_api_key: Option<String>,
    /// Custom HTTP timeout in seconds.
    pub timeout_secs: u64,
    /// Enable caching of API responses.
    pub enable_cache: bool,
}

impl Default for IntegrationConfig {
    /// No keys, no timeout, no cache.
    fn default() -> (r: Self)
        ensures
            r.ipinfo_api_key is None,
            r.shodan_api_key is None,
            r.timeout_secs == 0,
            !r.enable_cache,
    {
        IntegrationConfig { ipinfo_api_key: None, shodan_api_key: None, timeout_secs: 0, enable_cache: false }
    }
}

impl IntegrationConfig {
    /// Create a new configuration with default settings: no keys, a 30 s
    /// timeout, caching on.
    pub fn new() -> (r: Self)
        ensures
            r.ipinfo_api_key is None,
            r.shodan_api_key is None,
            r.timeout_secs == 30,
            r.enable_cache,
    {
        IntegrationConfig { ipinfo_api_key: None, shodan_api_key: None, timeout_secs: 30, enable_cache: true }
    }

    /// Set IPinfo API key.
    pub fn with_ipinfo_key(self, key: String) -> (r: Self)
        ensures
            r.ipinfo_api_key == Some(key),
            r.shodan_api_key == self.shodan_api_key,
            r.timeout_secs == self.timeout_secs,
            r.enable_cache == self.enable_cache,
    {
        let mut c = self;
        c.ipinfo_api_key = Some(key);
        c
    }

    /// Set Shodan API key.
    pub fn with_shodan_key(self, key: String) -> (r: Self)
        ensures
            r.shodan_api_key == Some(key),
            r.ipinfo_api_key == self.ipinfo_api_key,
            r.timeout_secs == self.timeout_secs,
            r.enable_cache == self.enable_cache,
    {
        let mut c = self;
        c.shodan_api_key = Some(key);
        c
    }

    /// Set timeout in seconds.
    pub fn with_timeout(self, secs: u64) -> (r: Self)
        ensures
            r.timeout_secs == secs,
            r.ipinfo_api_key == self.ipinfo_api_key,
            r.shodan_api_key == self.shodan_api_key,
            r.enable_cache == self.enable_cache,
    {
        let mut c = self;
        c.timeout_secs = secs;
        c
    }
}

} // verus!
