//! Connectivity probes: their settings and the records of their results.
//!
//! Running `ping`, `traceroute` and resolvers is the caller's; durations
//! here are whole milliseconds.

use vstd::prelude::*;
use crate::cli::TracerouteProtocol;
use crate::net::IpAddress;

verus! {

/// Default ping count.
pub const DEFAULT_PING_COUNT: u32 = 4;

/// Default ping timeout in seconds.
pub const DEFAULT_PING_TIMEOUT_SECS: u64 = 2;

/// Default traceroute max hops.
pub const DEFAULT_MAX_HOPS: u8 = 30;

/// Default traceroute probes per hop.
pub const DEFAULT_PROBES_PER_HOP: u8 = 3;

/// Ping configuration.
#[derive(Debug)]
pub struct PingConfig {
    /// Number of pings to send.
    pub count: u32,
    /// Timeout per ping (milliseconds).
    pub timeout_ms: u64,
    /// Interval between pings (milliseconds).
    pub interval_ms: u64,
    /// Packet size in bytes.
    pub size: usize,
}

impl Default for PingConfig {
    fn default() -> (c: Self)
        ensures
            c.count == 4,
            c.timeout_ms == 2000,
            c.interval_ms == 1000,
            c.size == 64,
    {
        PingConfig { count: DEFAULT_PING_COUNT, timeout_ms: DEFAULT_PING_TIMEOUT_SECS * 1000, interval_ms: 1000, size: 64 }
    }
}

/// Pinger for connectivity testing.
#[derive(Debug)]
pub struct Pinger {
    /// Whether to use the system `ping` command.
    use_system_ping: bool,
}

impl Pinger {
    /// Whether the pinger runs the system `ping` command.
    pub closed spec fn system_ping(&self) -> bool {
        self.use_system_ping
    }

    /// Creates a new pinger; it always runs the system `ping` command.
    pub fn new() -> (p: Self)
        ensures
            p.system_ping(),
    {
        Pinger { use_system_ping: true }
    }

    /// Whether the pinger runs the system `ping` command.
    pub fn uses_system_ping(&self) -> (r: bool)
        ensures
            r == self.system_ping(),
    {
        self.use_system_ping
    }
}

/// Traceroute configuration.
#[derive(Debug)]
pub struct TracerouteConfig {
    /// Maximum number of hops.
    pub max_hops: u8,
    /// Number of probes per hop.
    pub probes_per_hop: u8,
    /// Timeout per probe (milliseconds).
    pub timeout_ms: u64,
    /// Protocol to use.
    pub protocol: TracerouteProtocol,
    /// Resolve hostnames.
    pub resolve_hostnames: bool,
}

impl Default for TracerouteConfig {
    fn default() -> (c: Self)
        ensures
            c.max_hops == 30,
            c.probes_per_hop == 3,
            c.timeout_ms == 3000,
            c.protocol == TracerouteProtocol::Icmp,
            c.resolve_hostnames,
    {
        TracerouteConfig {
            max_hops: DEFAULT_MAX_HOPS,
            probes_per_hop: DEFAULT_PROBES_PER_HOP,
            timeout_ms: 3000,
            protocol: TracerouteProtocol::Icmp,
            resolve_hostnames: true,
        }
    }
}

/// Tracer for path analysis.
#[derive(Debug)]
pub struct Tracer {}

impl Tracer {
    /// Creates a new tracer.
    pub fn new() -> (t: Self) {
        Tracer {}
    }
}

/// DNS resolution result.
#[derive(Debug)]
pub struct DnsResult {
    /// Query name.
    pub query: String,
    /// Resolved addresses.
    pub addresses: Vec<IpAddress>,
    /// Resolution time (milliseconds).
    pub duration_ms: u64,
    /// Whether resolution was successful.
    pub success: bool,
    /// Error message if failed.
    pub error: Option<String>,
}

impl DnsResult {
    /// Creates a successful DNS result.
    pub fn success(query: String, addresses: Vec<IpAddress>, duration_ms: u64) -> (r: Self)
        ensures
            r.query == query,
            r.addresses == addresses,
            r.duration_ms == duration_ms,
            r.success,
            r.error is None,
    {
        DnsResult { query, addresses, duration_ms, success: true, error: None }
    }

    /// Creates a failed DNS result.
    pub fn failed(query: String, duration_ms: u64, error: String) -> (r: Self)
        ensures
            r.query == query,
            r.addresses@.len() == 0,
            r.duration_ms == duration_ms,
            !r.success,
            r.error == Some(error),
    {
        DnsResult { query, addresses: Vec::new(), duration_ms, success: false, error: Some(error) }
    }

    /// The answer for a target that is already an IP address: that address
    /// alone, with no lookup (`parsed` is what `std::net` read from the
    /// target, which is the caller's to read).  `None` when the target is a
    /// name that needs resolving.
    pub fn for_literal(target: &str, parsed: Option<IpAddress>, duration_ms: u64) -> (r: Option<Self>)
        ensures
            match parsed {
                Some(a) => r matches Some(d) && d.query@ == target@ && d.addresses@ == seq![a]
                    && d.duration_ms == duration_ms && d.success && d.error is None,
                None => r is None,
            },
    {
        match parsed {
            Some(a) => {
                let mut addresses: Vec<IpAddress> = Vec::new();
                addresses.push(a);
                assert(addresses@ =~= seq![a]);
                Some(DnsResult::success(crate::text::str_to_string(target), addresses, duration_ms))
            }
            None => None,
        }
    }
}

} // verus!
