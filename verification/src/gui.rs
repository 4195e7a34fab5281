//! The records the desktop front end receives, and the decisions its
//! commands take: which fix a request names, what a run reports, how WiFi
//! interference is rated, how a captured packet is shown.

use vstd::prelude::*;
use crate::autofix::actions::{FixAction, FixCategory, FixPrerequisite, FixSeverity, FixType, standard_action};
use crate::autofix::clock::{uuid_text, uuid_text_of};
use crate::capture::decode::{DecodedPacket, Protocol};
use crate::net::{ip_text, ip_to_text, IpAddress};
use crate::text::{decimal, joined, push_decimal, str_eq, str_to_string, views};

verus! {

/// Network interface information.
#[derive(Debug)]
pub struct InterfaceInfo {
    /// Interface name.
    pub name: String,
    /// Friendly name.
    pub friendly_name: Option<String>,
    /// MAC address.
    pub mac_address: Option<String>,
    /// IPv4 addresses.
    pub ipv4_addresses: Vec<String>,
    /// IPv6 addresses.
    pub ipv6_addresses: Vec<String>,
    /// Whether the interface is up.
    pub is_up: bool,
    /// Whether it is a loopback interface.
    pub is_loopback: bool,
    /// Whether it is the default interface.
    pub is_default: bool,
    /// Interface type.
    pub interface_type: String,
}

/// System information.
#[derive(Debug)]
pub struct SystemInfo {
    /// Hostname.
    pub hostname: String,
    /// Operating system type.
    pub os_type: String,
    /// Operating system version.
    pub os_version: String,
    /// Architecture.
    pub architecture: String,
    /// Uptime in seconds.
    pub uptime_seconds: Option<u64>,
}

/// WiFi interface information.
#[derive(Debug)]
pub struct WifiInterfaceInfo {
    /// Interface name.
    pub name: String,
    /// Whether the radio is on.
    pub powered_on: bool,
    /// MAC address.
    pub mac_address: Option<String>,
}

/// Access point information.
#[derive(Debug)]
pub struct AccessPointInfo {
    /// Network name.
    pub ssid: String,
    /// BSSID.
    pub bssid: String,
    /// Signal strength (dBm).
    pub rssi: i32,
    /// Signal quality (0-100).
    pub signal_quality: u8,
    /// Channel.
    pub channel: u8,
    /// Band.
    pub band: String,
    /// Security.
    pub security: String,
    /// WiFi standard.
    pub wifi_standard: String,
    /// Whether this is the connected network.
    pub is_connected: bool,
}

/// Channel analysis.
#[derive(Debug)]
pub struct ChannelAnalysis {
    /// Channel.
    pub channel: u8,
    /// Band.
    pub band: String,
    /// Networks on the channel.
    pub network_count: usize,
    /// Interference level.
    pub interference_level: String,
    /// Whether the channel is a DFS channel.
    pub is_dfs: bool,
    /// Whether the channel is recommended.
    pub is_recommended: bool,
    /// Whether it is the current channel.
    pub is_current: bool,
}

/// Diagnostics summary.
#[derive(Debug)]
pub struct DiagnosticsSummary {
    /// Number of tests.
    pub total_tests: usize,
    /// Tests passed.
    pub passed: usize,
    /// Tests failed.
    pub failed: usize,
    /// Warnings.
    pub warnings: usize,
    /// Overall status ("healthy", "warning", "critical").
    pub overall_status: String,
}

/// A generated report.
#[derive(Debug)]
pub struct GeneratedReport {
    /// Report content.
    pub content: String,
    /// MIME type.
    pub mime_type: String,
    /// File extension.
    pub file_extension: String,
    /// Whether the content is binary (base64).
    pub is_binary: bool,
    /// Health score (0-100).
    pub health_score: u8,
    /// Health status.
    pub health_status: String,
}

/// A fix action as the front end lists it.
#[derive(Debug)]
pub struct FixActionInfo {
    /// Action ID.
    pub id: String,
    /// Name.
    pub name: String,
    /// Description.
    pub description: String,
    /// Severity.
    pub severity: String,
    /// Category.
    pub category: String,
    /// Whether it can be undone.
    pub reversible: bool,
    /// Estimated time (seconds).
    pub estimated_time_secs: u32,
    /// Prerequisites.
    pub prerequisites: Vec<String>,
}

/// The result of a fix as the front end shows it.
#[derive(Debug)]
pub struct FixResultInfo {
    /// Action ID.
    pub action_id: String,
    /// Whether it succeeded.
    pub success: bool,
    /// Message.
    pub message: Option<String>,
    /// Error.
    pub error: Option<String>,
    /// Duration in milliseconds.
    pub duration_ms: u64,
    /// Rollback point ID.
    pub rollback_id: Option<String>,
}

/// A rollback point as the front end lists it.
#[derive(Debug)]
pub struct RollbackPointInfo {
    /// ID.
    pub id: String,
    /// Creation time.
    pub created_at: String,
    /// Description.
    pub description: String,
    /// Whether it is still valid.
    pub valid: bool,
}

/// A capture device.
#[derive(Debug)]
pub struct CaptureDeviceInfo {
    /// Device name.
    pub name: String,
    /// Description.
    pub description: Option<String>,
    /// Addresses.
    pub addresses: Vec<String>,
    /// Whether it is a loopback device.
    pub is_loopback: bool,
    /// Whether it is up.
    pub is_up: bool,
}

/// A captured packet as the front end shows it.
#[derive(Debug)]
pub struct CapturedPacketInfo {
    /// Timestamp (RFC 3339).
    pub timestamp: String,
    /// Protocol.
    pub protocol: String,
    /// Source IP.
    pub src_ip: Option<String>,
    /// Destination IP.
    pub dst_ip: Option<String>,
    /// Source port.
    pub src_port: Option<u16>,
    /// Destination port.
    pub dst_port: Option<u16>,
    /// Length.
    pub length: usize,
    /// One-line summary.
    pub summary: String,
}

/// Capture statistics as the front end shows them.
#[derive(Debug)]
pub struct CaptureStatsInfo {
    /// Packets captured.
    pub total_packets: u64,
    /// Bytes captured.
    pub total_bytes: u64,
    /// Packets dropped.
    pub packets_dropped: u64,
    /// Packets per protocol.
    pub protocol_breakdown: Vec<(String, u64)>,
}

/// Errors of the desktop back end.
#[derive(Debug)]
pub enum GuiError {
    /// Network error.
    Network(String),
    /// DNS resolution failed.
    DnsResolution(String),
    /// Operation timed out.
    Timeout(String),
    /// Permission denied.
    PermissionDenied(String),
    /// Not supported.
    NotSupported(String),
    /// Internal error.
    Internal(String),
}

/// How a back-end error reads.
pub open spec fn gui_error_text(e: GuiError) -> Seq<char> {
    match e {
        GuiError::Network(m) => "Network error: "@ + m@,
        GuiError::DnsResolution(m) => "DNS resolution failed: "@ + m@,
        GuiError::Timeout(m) => "Operation timed out: "@ + m@,
        GuiError::PermissionDenied(m) => "Permission denied: "@ + m@,
        GuiError::NotSupported(m) => "Not supported: "@ + m@,
        GuiError::Internal(m) => "Internal error: "@ + m@,
    }
}

impl GuiError {
    /// The error as text.
    pub fn to_display_string(&self) -> (r: String)
        ensures
            r@ == gui_error_text(*self),
    {
        let (prefix, m) = match self {
            GuiError::Network(m) => ("Network error: ", m),
            GuiError::DnsResolution(m) => ("DNS resolution failed: ", m),
            GuiError::Timeout(m) => ("Operation timed out: ", m),
            GuiError::PermissionDenied(m) => ("Permission denied: ", m),
            GuiError::NotSupported(m) => ("Not supported: ", m),
            GuiError::Internal(m) => ("Internal error: ", m),
        };
        let mut r = str_to_string(prefix);
        r.append(m.as_str());
        r
    }
}

/// A string as `{:?}` shows it: quoted, with its characters escaped as
/// `str::escape_debug` escapes them.
pub uninterp spec fn debug_text(s: Seq<char>) -> Seq<char>;

/// Formats a string with `{:?}` (std's `Debug` for `str`), whose result
/// is named by `debug_text`; the escaping rules are not written out here.
#[verifier::external_body]
fn debug_quoted(s: &str) -> (r: String)
    ensures
        r@ == debug_text(s@),
{
    format!("{:?}", s)
}

/// A severity in lower case, as the front end shows it.
pub open spec fn severity_text(s: FixSeverity) -> Seq<char> {
    match s {
        FixSeverity::Low => "low"@,
        FixSeverity::Medium => "medium"@,
        FixSeverity::High => "high"@,
        FixSeverity::Critical => "critical"@,
    }
}

/// A category in lower case, as the front end shows it.
pub open spec fn category_text(c: FixCategory) -> Seq<char> {
    match c {
        FixCategory::Dns => "dns"@,
        FixCategory::Adapter => "adapter"@,
        FixCategory::TcpIp => "tcpip"@,
        FixCategory::Wifi => "wifi"@,
        FixCategory::Routing => "routing"@,
        FixCategory::Firewall => "firewall"@,
        FixCategory::Service => "service"@,
    }
}

/// A prerequisite as `{:?}` shows it.
pub open spec fn prerequisite_text(p: FixPrerequisite) -> Seq<char> {
    match p {
        FixPrerequisite::AdminPrivileges => "AdminPrivileges"@,
        FixPrerequisite::RebootMayBeRequired => "RebootMayBeRequired"@,
        FixPrerequisite::NetworkConnection => "NetworkConnection"@,
        FixPrerequisite::InterfaceExists(n) => "InterfaceExists("@ + debug_text(n@) + ")"@,
    }
}

/// `info` lists `a`.
pub open spec fn lists_action(a: FixAction, info: FixActionInfo) -> bool {
    &&& info.id@ == uuid_text_of(a.id)
    &&& info.name == a.name
    &&& info.description == a.description
    &&& info.severity@ == severity_text(a.severity)
    &&& info.category@ == category_text(a.category)
    &&& info.reversible == a.reversible
    &&& info.estimated_time_secs == a.estimated_time_secs
    &&& views(info.prerequisites@) == a.prerequisites@.map_values(|p: FixPrerequisite| prerequisite_text(p))
}

/// A fix action as the front end lists it.
pub fn fix_action_info(a: FixAction) -> (info: FixActionInfo)
    ensures
        lists_action(a, info),
{
    let severity = match a.severity {
        FixSeverity::Low => str_to_string("low"),
        FixSeverity::Medium => str_to_string("medium"),
        FixSeverity::High => str_to_string("high"),
        FixSeverity::Critical => str_to_string("critical"),
    };
    let category = match a.category {
        FixCategory::Dns => str_to_string("dns"),
        FixCategory::Adapter => str_to_string("adapter"),
        FixCategory::TcpIp => str_to_string("tcpip"),
        FixCategory::Wifi => str_to_string("wifi"),
        FixCategory::Routing => str_to_string("routing"),
        FixCategory::Firewall => str_to_string("firewall"),
        FixCategory::Service => str_to_string("service"),
    };
    let mut prerequisites: Vec<String> = Vec::new();
    let mut i: usize = 0;
    while i < a.prerequisites.len()
        invariant
            i <= a.prerequisites@.len(),
            views(prerequisites@) == a.prerequisites@.take(i as int).map_values(|p: FixPrerequisite| prerequisite_text(p)),
        decreases a.prerequisites@.len() - i,
    {
        let t = match &a.prerequisites[i] {
            FixPrerequisite::AdminPrivileges => str_to_string("AdminPrivileges"),
            FixPrerequisite::RebootMayBeRequired => str_to_string("RebootMayBeRequired"),
            FixPrerequisite::NetworkConnection => str_to_string("NetworkConnection"),
            FixPrerequisite::InterfaceExists(n) => {
                let mut t = str_to_string("InterfaceExists(");
                let q = debug_quoted(n.as_str());
                t.append(q.as_str());
                t.append(")");
                t
            }
        };
        let ghost before = views(prerequisites@);
        prerequisites.push(t);
        assert(views(prerequisites@) =~= before.push(prerequisite_text(a.prerequisites@[i as int])));
        assert(a.prerequisites@.take(i + 1).map_values(|p: FixPrerequisite| prerequisite_text(p))
            =~= a.prerequisites@.take(i as int).map_values(|p: FixPrerequisite| prerequisite_text(p)).push(prerequisite_text(a.prerequisites@[i as int])));
        i = i + 1;
    }
    assert(a.prerequisites@.take(a.prerequisites@.len() as int) =~= a.prerequisites@);
    FixActionInfo {
        id: uuid_text(a.id),
        name: a.name,
        description: a.description,
        severity,
        category,
        reversible: a.reversible,
        estimated_time_secs: a.estimated_time_secs,
        prerequisites,
    }
}

/// The fixes the front end offers without a diagnosis: flush the DNS
/// cache, reset TCP/IP, restart the network service.
pub fn available_fixes() -> (v: Vec<FixActionInfo>)
    ensures
        v@.len() == 3,
        exists|a: FixAction| lists_action(a, v@[0]) && a.fix_type == FixType::FlushDnsCache && standard_action(a),
        exists|a: FixAction| lists_action(a, v@[1]) && a.fix_type == FixType::ResetTcpIp && standard_action(a),
        exists|a: FixAction| lists_action(a, v@[2]) && a.fix_type == FixType::RestartNetworkService && standard_action(a),
{
    let a0 = FixAction::flush_dns_cache();
    let a1 = FixAction::reset_tcp_ip();
    let a2 = FixAction::restart_network_service();
    let ghost (g0, g1, g2) = (a0, a1, a2);
    let mut v: Vec<FixActionInfo> = Vec::new();
    v.push(fix_action_info(a0));
    v.push(fix_action_info(a1));
    v.push(fix_action_info(a2));
    assert(lists_action(g0, v@[0]) && lists_action(g1, v@[1]) && lists_action(g2, v@[2]));
    v
}

/// The fix a request names: its kind, and the interface the kinds that
/// need one are given.
pub open spec fn requested_fix_type(kind: Seq<char>, interface: Option<String>) -> Result<FixType, Seq<char>> {
    if kind == "flush_dns_cache"@ {
        Ok(FixType::FlushDnsCache)
    } else if kind == "reset_tcp_ip"@ {
        Ok(FixType::ResetTcpIp)
    } else if kind == "restart_network_service"@ {
        Ok(FixType::RestartNetworkService)
    } else if kind == "reset_adapter"@ {
        match interface {
            Some(i) => Ok(FixType::ResetAdapter { interface: i }),
            None => Err("Interface required for reset_adapter"@),
        }
    } else if kind == "renew_dhcp"@ {
        match interface {
            Some(i) => Ok(FixType::RenewDhcp { interface: i }),
            None => Err("Interface required for renew_dhcp"@),
        }
    } else if kind == "reconnect_wifi"@ {
        match interface {
            Some(i) => Ok(FixType::ReconnectWifi { interface: i }),
            None => Err("Interface required for reconnect_wifi"@),
        }
    } else {
        Err("Unknown fix type: "@ + kind)
    }
}

/// The action a fix request names, or why there is none.
pub fn requested_fix(fix_type: &str, interface: Option<String>) -> (r: Result<FixAction, String>)
    ensures
        match requested_fix_type(fix_type@, interface) {
            Ok(t) => r matches Ok(a) && a.fix_type == t && standard_action(a),
            Err(m) => r matches Err(e) && e@ == m,
        },
{
    if str_eq(fix_type, "flush_dns_cache") {
        Ok(FixAction::flush_dns_cache())
    } else if str_eq(fix_type, "reset_tcp_ip") {
        Ok(FixAction::reset_tcp_ip())
    } else if str_eq(fix_type, "restart_network_service") {
        Ok(FixAction::restart_network_service())
    } else if str_eq(fix_type, "reset_adapter") {
        match interface {
            Some(i) => Ok(FixAction::reset_adapter(i)),
            None => Err(str_to_string("Interface required for reset_adapter")),
        }
    } else if str_eq(fix_type, "renew_dhcp") {
        match interface {
            Some(i) => Ok(FixAction::renew_dhcp(i)),
            None => Err(str_to_string("Interface required for renew_dhcp")),
        }
    } else if str_eq(fix_type, "reconnect_wifi") {
        match interface {
            Some(i) => Ok(FixAction::reconnect_wifi(i)),
            None => Err(str_to_string("Interface required for reconnect_wifi")),
        }
    } else {
        let mut m = str_to_string("Unknown fix type: ");
        m.append(fix_type);
        Err(m)
    }
}

/// The result of a fix that ran (or, with `Ok`, a dry run's message).
pub fn fix_result_info(action_id: String, outcome: Result<String, String>, duration_ms: u64) -> (r: FixResultInfo)
    ensures
        r.action_id == action_id,
        r.duration_ms == duration_ms,
        r.rollback_id is None,
        match outcome {
            Ok(m) => r.success && r.message == Some(m) && r.error is None,
            Err(e) => !r.success && r.message is None && r.error == Some(e),
        },
{
    match outcome {
        Ok(m) => FixResultInfo { action_id, success: true, message: Some(m), error: None, duration_ms, rollback_id: None },
        Err(e) => FixResultInfo { action_id, success: false, message: None, error: Some(e), duration_ms, rollback_id: None },
    }
}

/// The result of a fix request in a dry run.
pub fn dry_run_info(action_id: String, duration_ms: u64) -> (r: FixResultInfo)
    ensures
        r.action_id == action_id,
        r.success,
        r.message matches Some(m) && m@ == "Dry run - not applied"@,
        r.error is None,
        r.duration_ms == duration_ms,
        r.rollback_id is None,
{
    fix_result_info(action_id, Ok(str_to_string("Dry run - not applied")), duration_ms)
}

/// The number of tests that passed.
pub open spec fn passed_count(s: Seq<bool>) -> nat
    decreases s.len(),
{
    if s.len() == 0 {
        0
    } else {
        passed_count(s.drop_last()) + (if s.last() { 1nat } else { 0nat })
    }
}

/// The overall status of a run with `failed` failed tests.
pub open spec fn overall_status_text(failed: nat) -> Seq<char> {
    if failed == 0 { "healthy"@ } else if failed <= 2 { "warning"@ } else { "critical"@ }
}

/// Summarizes a run from whether each test passed: healthy with no
/// failure, a warning with up to two, critical beyond.
pub fn diagnostics_summary(results: &Vec<bool>) -> (s: DiagnosticsSummary)
    ensures
        s.total_tests == results@.len(),
        s.passed == passed_count(results@),
        s.failed == results@.len() - passed_count(results@),
        s.warnings == 0,
        s.overall_status@ == overall_status_text((results@.len() - passed_count(results@)) as nat),
{
    let mut passed: usize = 0;
    let mut i: usize = 0;
    while i < results.len()
        invariant
            i <= results@.len(),
            passed == passed_count(results@.take(i as int)),
            passed <= i,
        decreases results@.len() - i,
    {
        assert(results@.take(i + 1).drop_last() =~= results@.take(i as int));
        if results[i] {
            passed = passed + 1;
        }
        i = i + 1;
    }
    assert(results@.take(results@.len() as int) =~= results@);
    let failed = results.len() - passed;
    let overall_status = if failed == 0 {
        str_to_string("healthy")
    } else if failed <= 2 {
        str_to_string("warning")
    } else {
        str_to_string("critical")
    };
    DiagnosticsSummary { total_tests: results.len(), passed, failed, warnings: 0, overall_status }
}

/// How the link's signal rates: by signal-to-noise ratio when the noise is
/// known, else by signal strength alone.
pub open spec fn snr_rating_text(rssi: Option<i32>, noise: Option<i32>) -> Seq<char> {
    match (rssi, noise) {
        (Some(r), Some(n)) => {
            let snr = r - n;
            if snr >= 40 { "Excellent"@ } else if snr >= 25 { "Good"@ } else if snr >= 15 { "Fair"@ } else { "Poor"@ }
        },
        (Some(r), None) => {
            if r >= -50 { "Excellent"@ } else if r >= -60 { "Good"@ } else if r >= -70 { "Fair"@ } else { "Poor"@ }
        },
        _ => "Unknown"@,
    }
}

/// Rates the link's signal.  The signal-to-noise difference must fit in
/// `i32`.
pub fn snr_rating(rssi: Option<i32>, noise: Option<i32>) -> (r: String)
    requires
        rssi matches Some(r) && noise matches Some(n) ==> i32::MIN <= r - n <= i32::MAX,
    ensures
        r@ == snr_rating_text(rssi, noise),
{
    let t = match (rssi, noise) {
        (Some(r), Some(n)) => {
            let snr = r - n;
            if snr >= 40 { "Excellent" } else if snr >= 25 { "Good" } else if snr >= 15 { "Fair" } else { "Poor" }
        }
        (Some(r), None) => {
            if r >= -50 { "Excellent" } else if r >= -60 { "Good" } else if r >= -70 { "Fair" } else { "Poor" }
        }
        _ => "Unknown",
    };
    str_to_string(t)
}

/// A scanned network: its name and channel.
#[derive(Debug)]
pub struct ScannedNetwork {
    /// Network name.
    pub ssid: String,
    /// Channel.
    pub channel: u8,
}

/// A network overlaps the current channel: a 2.4 GHz channel (below 36)
/// within four of it but not the same.
pub open spec fn overlaps(channel: u8, current: u8) -> bool {
    let d = channel - current;
    d != 0 && -4 <= d <= 4 && channel < 36
}

/// A network as the overlap list names it: "name (ch N)".
pub open spec fn network_label(n: ScannedNetwork) -> Seq<char> {
    n.ssid@ + " (ch "@ + decimal(n.channel as nat) + ")"@
}

/// The networks that overlap the current channel, other than the current
/// network, in scan order.
pub open spec fn overlapping(aps: Seq<ScannedNetwork>, current: u8, current_ssid: Option<Seq<char>>) -> Seq<Seq<char>>
    decreases aps.len(),
{
    if aps.len() == 0 {
        seq![]
    } else {
        let n = aps.last();
        overlapping(aps.drop_last(), current, current_ssid)
            + (if overlaps(n.channel, current) && Some(n.ssid@) != current_ssid { seq![network_label(n)] } else { seq![] })
    }
}

/// The networks that overlap the current channel (none when it is not
/// known).
pub fn overlapping_networks(aps: &Vec<ScannedNetwork>, current_channel: Option<u8>, current_ssid: &Option<String>) -> (r: Vec<String>)
    ensures
        views(r@) == (match current_channel {
            Some(c) => overlapping(aps@, c, match current_ssid { Some(s) => Some(s@), None => None }),
            None => seq![],
        }),
{
    let mut r: Vec<String> = Vec::new();
    match current_channel {
        None => {
            assert(views(r@) =~= Seq::<Seq<char>>::empty());
            r
        }
        Some(c) => {
            let ghost cs = match current_ssid { Some(s) => Some(s@), None => None };
            let mut i: usize = 0;
            assert(views(r@) =~= overlapping(aps@.take(0), c, cs));
            while i < aps.len()
                invariant
                    i <= aps@.len(),
                    cs == (match current_ssid { Some(s) => Some(s@), None => None }),
                    views(r@) == overlapping(aps@.take(i as int), c, cs),
                decreases aps@.len() - i,
            {
                let n = &aps[i];
                assert(aps@.take(i + 1).drop_last() =~= aps@.take(i as int));
                let near = n.channel != c && (n.channel as u16) <= (c as u16) + 4 && (c as u16) <= (n.channel as u16) + 4 && n.channel < 36;
                let same_network = match current_ssid {
                    Some(s) => str_eq(n.ssid.as_str(), s.as_str()),
                    None => false,
                };
                let ghost before = views(r@);
                if near && !same_network {
                    let mut t = n.ssid.clone();
                    t.append(" (ch ");
                    push_decimal(&mut t, n.channel as u64);
                    t.append(")");
                    r.push(t);
                    assert(views(r@) =~= before.push(network_label(*n)));
                }
                assert(views(r@) =~= overlapping(aps@.take(i + 1), c, cs));
                i = i + 1;
            }
            assert(aps@.take(aps@.len() as int) =~= aps@);
            r
        }
    }
}

/// The advice an interference check gives: move closer on a poor or fair
/// signal, switch to 5 GHz with more than three overlapping networks or on
/// a crowded 2.4 GHz band (more than ten networks), and an all-clear when
/// nothing applies.
pub open spec fn interference_advice(rating: Seq<char>, overlapping_count: nat, current_channel: Option<u8>, network_count: nat) -> Seq<Seq<char>> {
    let a = (if rating == "Poor"@ || rating == "Fair"@ {
            seq!["Consider moving closer to your router or reducing interference sources"@]
        } else { seq![] })
        + (if overlapping_count > 3 {
            seq!["High channel congestion detected. Consider switching to a 5GHz network if available"@]
        } else { seq![] })
        + (if (current_channel matches Some(c) && c < 36) && network_count > 10 {
            seq!["Many networks on 2.4GHz band. A 5GHz network would provide better performance"@]
        } else { seq![] });
    if a.len() == 0 { seq!["Your WiFi connection appears to be in good condition"@] } else { a }
}

/// The advice of an interference check.
pub fn interference_recommendations(rating: &str, overlapping_count: usize, current_channel: Option<u8>, network_count: usize) -> (r: Vec<String>)
    ensures
        views(r@) == interference_advice(rating@, overlapping_count as nat, current_channel, network_count as nat),
{
    let mut r: Vec<String> = Vec::new();
    let ghost mut expect: Seq<Seq<char>> = seq![];
    if str_eq(rating, "Poor") || str_eq(rating, "Fair") {
        r.push(str_to_string("Consider moving closer to your router or reducing interference sources"));
    }
    if overlapping_count > 3 {
        r.push(str_to_string("High channel congestion detected. Consider switching to a 5GHz network if available"));
    }
    let low_band = match current_channel {
        Some(c) => c < 36,
        None => false,
    };
    if low_band && network_count > 10 {
        r.push(str_to_string("Many networks on 2.4GHz band. A 5GHz network would provide better performance"));
    }
    if r.len() == 0 {
        r.push(str_to_string("Your WiFi connection appears to be in good condition"));
    }
    assert(views(r@) =~= interference_advice(rating@, overlapping_count as nat, current_channel, network_count as nat));
    r
}

/// How many packets a capture request takes: 50 unless asked, at most 500.
pub fn capture_limit(count: Option<usize>) -> (n: usize)
    ensures
        n == (match count { Some(c) => if c < 500 { c } else { 500 }, None => 50 }),
{
    match count {
        Some(c) => if c < 500 { c } else { 500 },
        None => 50,
    }
}

/// A protocol as `{:?}` shows it.
pub open spec fn protocol_debug(p: Protocol) -> Seq<char> {
    match p {
        Protocol::Unknown => "Unknown"@,
        Protocol::Ethernet => "Ethernet"@,
        Protocol::Arp => "Arp"@,
        Protocol::Ipv4 => "Ipv4"@,
        Protocol::Ipv6 => "Ipv6"@,
        Protocol::Tcp => "Tcp"@,
        Protocol::Udp => "Udp"@,
        Protocol::Icmp => "Icmp"@,
        Protocol::Icmpv6 => "Icmpv6"@,
        Protocol::Dns => "Dns"@,
        Protocol::Http => "Http"@,
        Protocol::Https => "Https"@,
        Protocol::Ssh => "Ssh"@,
        Protocol::Dhcp => "Dhcp"@,
    }
}

/// A protocol as `{:?}` shows it.
pub fn protocol_debug_name(p: Protocol) -> (r: &'static str)
    ensures
        r@ == protocol_debug(p),
{
    match p {
        Protocol::Unknown => "Unknown",
        Protocol::Ethernet => "Ethernet",
        Protocol::Arp => "Arp",
        Protocol::Ipv4 => "Ipv4",
        Protocol::Ipv6 => "Ipv6",
        Protocol::Tcp => "Tcp",
        Protocol::Udp => "Udp",
        Protocol::Icmp => "Icmp",
        Protocol::Icmpv6 => "Icmpv6",
        Protocol::Dns => "Dns",
        Protocol::Http => "Http",
        Protocol::Https => "Https",
        Protocol::Ssh => "Ssh",
        Protocol::Dhcp => "Dhcp",
    }
}

/// An optional address as text (empty when absent).
pub open spec fn ip_or_empty(ip: Option<IpAddress>) -> Seq<char> {
    match ip {
        Some(a) => ip_text(a),
        None => seq![],
    }
}

/// An optional port (zero when absent).
pub open spec fn port_or_zero(p: Option<u16>) -> nat {
    match p {
        Some(x) => x as nat,
        None => 0,
    }
}

/// A length in decimal.
pub open spec fn length_text(n: usize) -> Seq<char> {
    decimal(n as nat)
}

/// Appends an optional port in decimal (zero when absent).
fn push_port(s: &mut String, p: Option<u16>)
    ensures
        final(s)@ == old(s)@ + decimal(port_or_zero(p)),
{
    push_decimal(s, match p { Some(x) => x as u64, None => 0 });
}

/// Appends a length in decimal.
fn push_length(s: &mut String, n: usize)
    ensures
        final(s)@ == old(s)@ + length_text(n),
{
    push_decimal(s, n as u64);
}

/// How the front end summarizes a packet: endpoints with ports and length
/// for TCP and UDP, endpoints for ICMP, protocol and endpoints otherwise.
pub open spec fn gui_summary(p: DecodedPacket) -> Seq<char> {
    let src = ip_or_empty(p.src_ip);
    let dst = ip_or_empty(p.dst_ip);
    match p.protocol {
        Protocol::Tcp => "TCP "@ + src + ":"@ + decimal(port_or_zero(p.src_port)) + " -> "@ + dst + ":"@
            + decimal(port_or_zero(p.dst_port)) + " len="@ + length_text(p.length),
        Protocol::Udp => "UDP "@ + src + ":"@ + decimal(port_or_zero(p.src_port)) + " -> "@ + dst + ":"@
            + decimal(port_or_zero(p.dst_port)) + " len="@ + length_text(p.length),
        Protocol::Icmp => "ICMP "@ + src + " -> "@ + dst,
        Protocol::Icmpv6 => "ICMP "@ + src + " -> "@ + dst,
        _ => protocol_debug(p.protocol) + " "@ + src + " -> "@ + dst,
    }
}

/// Appends an optional address (nothing when absent).
fn push_ip_or_empty(s: &mut String, ip: &Option<IpAddress>)
    ensures
        final(s)@ == old(s)@ + ip_or_empty(*ip),
{
    match ip {
        Some(a) => {
            let t = ip_to_text(a);
            s.append(t.as_str());
        }
        None => {
            assert(old(s)@ + ip_or_empty(*ip) =~= old(s)@);
        }
    }
}

/// An optional address as text.
fn ip_option_text(ip: &Option<IpAddress>) -> (r: Option<String>)
    ensures
        match ip {
            Some(a) => r matches Some(t) && t@ == ip_text(*a),
            None => r is None,
        },
{
    match ip {
        Some(a) => Some(ip_to_text(a)),
        None => None,
    }
}

/// A captured packet as the front end shows it, with its time already
/// written out.
pub fn captured_packet_info(p: &DecodedPacket, timestamp: String) -> (r: CapturedPacketInfo)
    ensures
        r.timestamp == timestamp,
        r.protocol@ == protocol_debug(p.protocol),
        match p.src_ip { Some(a) => r.src_ip matches Some(t) && t@ == ip_text(a), None => r.src_ip is None },
        match p.dst_ip { Some(a) => r.dst_ip matches Some(t) && t@ == ip_text(a), None => r.dst_ip is None },
        r.src_port == p.src_port,
        r.dst_port == p.dst_port,
        r.length == p.length,
        r.summary@ == gui_summary(*p),
{
    let mut s = String::new();
    match p.protocol {
        Protocol::Tcp | Protocol::Udp => {
            if p.protocol == Protocol::Tcp { s.append("TCP "); } else { s.append("UDP "); }
            push_ip_or_empty(&mut s, &p.src_ip);
            s.append(":");
            push_port(&mut s, p.src_port);
            s.append(" -> ");
            push_ip_or_empty(&mut s, &p.dst_ip);
            s.append(":");
            push_port(&mut s, p.dst_port);
            s.append(" len=");
            push_length(&mut s, p.length);
        }
        Protocol::Icmp | Protocol::Icmpv6 => {
            s.append("ICMP ");
            push_ip_or_empty(&mut s, &p.src_ip);
            s.append(" -> ");
            push_ip_or_empty(&mut s, &p.dst_ip);
        }
        _ => {
            s.append(protocol_debug_name(p.protocol));
            s.append(" ");
            push_ip_or_empty(&mut s, &p.src_ip);
            s.append(" -> ");
            push_ip_or_empty(&mut s, &p.dst_ip);
        }
    }
    assert(s@ =~= gui_summary(*p));
    CapturedPacketInfo {
        timestamp,
        protocol: str_to_string(protocol_debug_name(p.protocol)),
        src_ip: ip_option_text(&p.src_ip),
        dst_ip: ip_option_text(&p.dst_ip),
        src_port: p.src_port,
        dst_port: p.dst_port,
        length: p.length,
        summary: s,
    }
}

} // verus!
