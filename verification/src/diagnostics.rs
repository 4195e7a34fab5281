//! The diagnostics run of the graphical front end: which tests a run
//! takes, what each test concludes from what the platform reported, and
//! which report formats exist.
//!
//! Reading the platform, timing the tests and the float-valued tests
//! (DNS resolution time, ping latency, download speed) are the caller's.

use vstd::prelude::*;
use crate::text::{all_ascii, ascii_lower_seq, decimal, push_decimal, str_eq, str_to_string, to_lowercase, unicode_lowercase};

verus! {

/// The value of an optional flag, or its default.
pub open spec fn flag_or(o: Option<bool>, default: bool) -> bool {
    match o {
        Some(b) => b,
        None => default,
    }
}

/// The front end's optional flags with their defaults filled in: quick
/// mode (off by default), whether the speed test is asked for (by default,
/// when not quick) and the WiFi test (on by default).  Whether the speed
/// test actually runs is `run_plan`'s decision: never in quick mode.
pub fn run_options(quick: Option<bool>, include_speed: Option<bool>, include_wifi: Option<bool>) -> (r: (bool, bool, bool))
    ensures
        r == (flag_or(quick, false), flag_or(include_speed, !flag_or(quick, false)), flag_or(include_wifi, true)),
{
    let quick_mode = match quick {
        Some(b) => b,
        None => false,
    };
    let test_speed = match include_speed {
        Some(b) => b,
        None => !quick_mode,
    };
    let test_wifi = match include_wifi {
        Some(b) => b,
        None => true,
    };
    (quick_mode, test_speed, test_wifi)
}

/// Which tests a diagnostics run performs beyond the interface, gateway,
/// DNS and connectivity tests that every run performs.
#[derive(Debug, Clone, Copy, PartialEq, Eq, Structural)]
pub struct RunPlan {
    /// Pings sent to 8.8.8.8: 2 in quick mode, else 4.
    pub ping_count: u32,
    /// Whether the WiFi signal test runs.
    pub wifi: bool,
    /// Whether the download speed test runs.
    pub speed: bool,
}

/// The plan of a run: the WiFi test when asked for (by default it is), the
/// speed test when asked for and not in quick mode.
pub open spec fn plan_of(quick: Option<bool>, include_speed: Option<bool>, include_wifi: Option<bool>) -> RunPlan {
    let q = flag_or(quick, false);
    RunPlan {
        ping_count: if q { 2 } else { 4 },
        wifi: flag_or(include_wifi, true),
        speed: flag_or(include_speed, !q) && !q,
    }
}

/// Decides which tests a diagnostics run performs.
pub fn run_plan(quick: Option<bool>, include_speed: Option<bool>, include_wifi: Option<bool>) -> (p: RunPlan)
    ensures
        p == plan_of(quick, include_speed, include_wifi),
{
    let (quick_mode, test_speed, test_wifi) = run_options(quick, include_speed, include_wifi);
    RunPlan { ping_count: if quick_mode { 2 } else { 4 }, wifi: test_wifi, speed: test_speed && !quick_mode }
}

/// A quick run never includes the speed test, whatever else is asked.
pub proof fn quick_run_skips_speed_test(include_speed: Option<bool>, include_wifi: Option<bool>)
    ensures
        !plan_of(Some(true), include_speed, include_wifi).speed,
{
}

/// One test of a diagnostics run.
#[derive(Debug)]
pub struct DiagnosticTest {
    /// Test name.
    pub name: String,
    /// Category.
    pub category: String,
    /// Whether it passed.
    pub passed: bool,
    /// What it found.
    pub message: String,
    /// How long it took (milliseconds).
    pub duration_ms: u64,
}

/// A test together with the issue it reports and the recommendation it
/// makes, if any.
#[derive(Debug)]
pub struct TestReport {
    /// The test.
    pub test: DiagnosticTest,
    /// The issue found.
    pub issue: Option<String>,
    /// What to do about it.
    pub recommendation: Option<String>,
}

/// The characters of an optional string.
pub open spec fn opt_text(o: Option<String>) -> Option<Seq<char>> {
    match o {
        Some(s) => Some(s@),
        None => None,
    }
}

/// The characters of an optional string slice.
pub open spec fn opt_str(o: Option<&str>) -> Option<Seq<char>> {
    match o {
        Some(s) => Some(s@),
        None => None,
    }
}

/// `t` is the test report with these fields.
pub open spec fn report_is(
    t: TestReport,
    name: Seq<char>,
    category: Seq<char>,
    passed: bool,
    message: Seq<char>,
    issue: Option<Seq<char>>,
    recommendation: Option<Seq<char>>,
    duration_ms: u64,
) -> bool {
    &&& t.test.name@ == name
    &&& t.test.category@ == category
    &&& t.test.passed == passed
    &&& t.test.message@ == message
    &&& t.test.duration_ms == duration_ms
    &&& opt_text(t.issue) == issue
    &&& opt_text(t.recommendation) == recommendation
}

/// Builds a test report.
fn report(
    name: &str,
    category: &str,
    passed: bool,
    message: String,
    issue: Option<&str>,
    recommendation: Option<&str>,
    duration_ms: u64,
) -> (t: TestReport)
    ensures
        report_is(t, name@, category@, passed, message@, opt_str(issue), opt_str(recommendation), duration_ms),
{
    let issue = match issue {
        Some(s) => Some(str_to_string(s)),
        None => None,
    };
    let recommendation = match recommendation {
        Some(s) => Some(str_to_string(s)),
        None => None,
    };
    TestReport {
        test: DiagnosticTest {
            name: str_to_string(name),
            category: str_to_string(category),
            passed,
            message,
            duration_ms,
        },
        issue,
        recommendation,
    }
}

/// `prefix` followed by `rest`.
fn joined2(prefix: &str, rest: &str) -> (r: String)
    ensures
        r@ == prefix@ + rest@,
{
    let mut r = str_to_string(prefix);
    r.append(rest);
    r
}

/// The interfaces test: it passes when some interface is up and some has
/// an IPv4 address.
pub fn interfaces_test(active: usize, has_ipv4: bool, duration_ms: u64) -> (t: TestReport)
    ensures
        active > 0 && has_ipv4 ==> report_is(t, "Network Interfaces"@, "Network"@, true,
            decimal(active as nat) + " active interface(s) with IPv4 connectivity"@, None, None, duration_ms),
        !(active > 0 && has_ipv4) ==> report_is(t, "Network Interfaces"@, "Network"@, false,
            "No active network interfaces found"@, Some("No active network interfaces"@),
            Some("Check that your network cable is connected or WiFi is enabled"@), duration_ms),
{
    if active > 0 && has_ipv4 {
        let mut m = String::new();
        push_decimal(&mut m, active as u64);
        m.append(" active interface(s) with IPv4 connectivity");
        assert(m@ =~= decimal(active as nat) + " active interface(s) with IPv4 connectivity"@);
        report("Network Interfaces", "Network", true, m, None, None, duration_ms)
    } else {
        report("Network Interfaces", "Network", false, str_to_string("No active network interfaces found"),
            Some("No active network interfaces"), Some("Check that your network cable is connected or WiFi is enabled"),
            duration_ms)
    }
}

/// The interfaces test when the interfaces could not be listed.
pub fn interfaces_error(error: &str, duration_ms: u64) -> (t: TestReport)
    ensures
        report_is(t, "Network Interfaces"@, "Network"@, false, "Failed to enumerate interfaces: "@ + error@,
            Some("Could not check network interfaces"@), None, duration_ms),
{
    report("Network Interfaces", "Network", false, joined2("Failed to enumerate interfaces: ", error),
        Some("Could not check network interfaces"), None, duration_ms)
}

/// The gateway test when a default gateway was found: it passes.
pub fn gateway_found(address: &str, interface: &str, duration_ms: u64) -> (t: TestReport)
    ensures
        report_is(t, "Default Gateway"@, "Network"@, true, "Gateway: "@ + address@ + " via "@ + interface@,
            None, None, duration_ms),
{
    let mut m = joined2("Gateway: ", address);
    m.append(" via ");
    m.append(interface);
    report("Default Gateway", "Network", true, m, None, None, duration_ms)
}

/// The gateway test when no default gateway is configured.
pub fn gateway_missing(duration_ms: u64) -> (t: TestReport)
    ensures
        report_is(t, "Default Gateway"@, "Network"@, false, "No default gateway configured"@,
            Some("No default gateway"@), Some("Check your router connection and DHCP settings"@), duration_ms),
{
    report("Default Gateway", "Network", false, str_to_string("No default gateway configured"),
        Some("No default gateway"), Some("Check your router connection and DHCP settings"), duration_ms)
}

/// The gateway test when the gateway could not be read.
pub fn gateway_error(error: &str, duration_ms: u64) -> (t: TestReport)
    ensures
        report_is(t, "Default Gateway"@, "Network"@, false, "Failed to get gateway: "@ + error@, None, None, duration_ms),
{
    report("Default Gateway", "Network", false, joined2("Failed to get gateway: ", error), None, None, duration_ms)
}

/// The DNS configuration test: it passes when some server is configured.
pub fn dns_config_test(servers: usize, duration_ms: u64) -> (t: TestReport)
    ensures
        servers > 0 ==> report_is(t, "DNS Configuration"@, "DNS"@, true,
            decimal(servers as nat) + " DNS server(s) configured"@, None, None, duration_ms),
        servers == 0 ==> report_is(t, "DNS Configuration"@, "DNS"@, false, "No DNS servers configured"@,
            Some("No DNS servers configured"@), Some("Configure DNS servers (e.g., 8.8.8.8, 1.1.1.1)"@), duration_ms),
{
    if servers > 0 {
        let mut m = String::new();
        push_decimal(&mut m, servers as u64);
        m.append(" DNS server(s) configured");
        assert(m@ =~= decimal(servers as nat) + " DNS server(s) configured"@);
        report("DNS Configuration", "DNS", true, m, None, None, duration_ms)
    } else {
        report("DNS Configuration", "DNS", false, str_to_string("No DNS servers configured"),
            Some("No DNS servers configured"), Some("Configure DNS servers (e.g., 8.8.8.8, 1.1.1.1)"), duration_ms)
    }
}

/// The DNS configuration test when the servers could not be read.
pub fn dns_config_error(error: &str, duration_ms: u64) -> (t: TestReport)
    ensures
        report_is(t, "DNS Configuration"@, "DNS"@, false, "Failed to get DNS servers: "@ + error@, None, None, duration_ms),
{
    report("DNS Configuration", "DNS", false, joined2("Failed to get DNS servers: ", error), None, None, duration_ms)
}

/// The DNS resolution test when google.com did not resolve.
pub fn dns_resolution_failed(duration_ms: u64) -> (t: TestReport)
    ensures
        report_is(t, "DNS Resolution"@, "DNS"@, false, "Failed to resolve google.com"@,
            Some("DNS resolution failing"@), Some("Check DNS server configuration or try alternative DNS (8.8.8.8)"@),
            duration_ms),
{
    report("DNS Resolution", "DNS", false, str_to_string("Failed to resolve google.com"),
        Some("DNS resolution failing"), Some("Check DNS server configuration or try alternative DNS (8.8.8.8)"),
        duration_ms)
}

/// The connectivity test when 8.8.8.8 answered no ping.
pub fn connectivity_failed(duration_ms: u64) -> (t: TestReport)
    ensures
        report_is(t, "Internet Connectivity"@, "Connectivity"@, false, "Unable to reach 8.8.8.8"@,
            Some("No internet connectivity"@), Some("Check your internet connection and router"@), duration_ms),
{
    report("Internet Connectivity", "Connectivity", false, str_to_string("Unable to reach 8.8.8.8"),
        Some("No internet connectivity"), Some("Check your internet connection and router"), duration_ms)
}

/// The decimal text of a signed number.
pub open spec fn signed_text(n: int) -> Seq<char> {
    if n < 0 { "-"@ + decimal((-n) as nat) } else { decimal(n as nat) }
}

/// The quality of a WiFi signal strength (dBm).
pub open spec fn signal_quality(rssi: i32) -> Seq<char> {
    if rssi >= -50 {
        "Excellent"@
    } else if rssi >= -60 {
        "Good"@
    } else if rssi >= -70 {
        "Fair"@
    } else {
        "Weak"@
    }
}

/// The WiFi signal test: it passes at -75 dBm or stronger.
pub fn wifi_signal_test(ssid: &str, rssi: i32, duration_ms: u64) -> (t: TestReport)
    ensures
        rssi >= -75 ==> report_is(t, "WiFi Signal"@, "WiFi"@, true,
            "Connected to "@ + ssid@ + " ("@ + signed_text(rssi as int) + " dBm - "@ + signal_quality(rssi) + ")"@,
            None, None, duration_ms),
        rssi < -75 ==> report_is(t, "WiFi Signal"@, "WiFi"@, false,
            "Connected to "@ + ssid@ + " ("@ + signed_text(rssi as int) + " dBm - "@ + signal_quality(rssi) + ")"@,
            Some("Weak WiFi signal"@), Some("Move closer to your router or reduce interference"@), duration_ms),
{
    let quality = if rssi >= -50 {
        "Excellent"
    } else if rssi >= -60 {
        "Good"
    } else if rssi >= -70 {
        "Fair"
    } else {
        "Weak"
    };
    let mut m = joined2("Connected to ", ssid);
    m.append(" (");
    let ghost before = m@;
    if rssi < 0 {
        m.append("-");
        let magnitude: u64 = if rssi == i32::MIN { 2147483648u64 } else { (-rssi) as u64 };
        push_decimal(&mut m, magnitude);
        assert(m@ =~= before + signed_text(rssi as int));
    } else {
        push_decimal(&mut m, rssi as u64);
        assert(m@ =~= before + signed_text(rssi as int));
    }
    m.append(" dBm - ");
    m.append(quality);
    m.append(")");
    assert(m@ =~= "Connected to "@ + ssid@ + " ("@ + signed_text(rssi as int) + " dBm - "@ + signal_quality(rssi) + ")"@);
    if rssi >= -75 {
        report("WiFi Signal", "WiFi", true, m, None, None, duration_ms)
    } else {
        report("WiFi Signal", "WiFi", false, m, Some("Weak WiFi signal"),
            Some("Move closer to your router or reduce interference"), duration_ms)
    }
}

/// The WiFi signal test when WiFi is on but not connected.
pub fn wifi_not_connected(duration_ms: u64) -> (t: TestReport)
    ensures
        report_is(t, "WiFi Signal"@, "WiFi"@, false, "WiFi enabled but not connected"@,
            Some("WiFi not connected"@), Some("Connect to a WiFi network"@), duration_ms),
{
    report("WiFi Signal", "WiFi", false, str_to_string("WiFi enabled but not connected"),
        Some("WiFi not connected"), Some("Connect to a WiFi network"), duration_ms)
}

/// The WiFi signal test when WiFi is switched off.
pub fn wifi_disabled(duration_ms: u64) -> (t: TestReport)
    ensures
        report_is(t, "WiFi Signal"@, "WiFi"@, false, "WiFi is disabled"@, None, None, duration_ms),
{
    report("WiFi Signal", "WiFi", false, str_to_string("WiFi is disabled"), None, None, duration_ms)
}

/// The speed test when it could not be run.
pub fn speed_test_failed(error: &str, duration_ms: u64) -> (t: TestReport)
    ensures
        report_is(t, "Download Speed"@, "Speed"@, false, "Speed test failed: "@ + error@, None, None, duration_ms),
{
    report("Download Speed", "Speed", false, joined2("Speed test failed: ", error), None, None, duration_ms)
}

/// A report format.
#[derive(Debug, Clone, Copy, PartialEq, Eq, Structural)]
pub enum ReportFormat {
    /// JSON.
    Json,
    /// Plain text.
    Text,
    /// Markdown.
    Markdown,
    /// HTML.
    Html,
}

/// The format a (lower-cased) format name asks for.
pub open spec fn format_named(lower: Seq<char>) -> Option<ReportFormat> {
    if lower == "json"@ {
        Some(ReportFormat::Json)
    } else if lower == "text"@ || lower == "txt"@ {
        Some(ReportFormat::Text)
    } else if lower == "markdown"@ || lower == "md"@ {
        Some(ReportFormat::Markdown)
    } else if lower == "html"@ {
        Some(ReportFormat::Html)
    } else {
        None
    }
}

/// `r` answers a request for format `format`, whose lower-cased form is
/// `lower`.
pub open spec fn format_answer(format: Seq<char>, lower: Seq<char>, r: Result<ReportFormat, String>) -> bool {
    match format_named(lower) {
        Some(f) => r matches Ok(g) && g == f,
        None => r matches Err(e)
            && e@ == "Unsupported format: "@ + format + ". Supported formats: json, text, markdown, html"@,
    }
}

/// The report format a name asks for, ignoring case; any other name is
/// refused with the list of supported formats.
pub fn report_format(format: &str) -> (r: Result<ReportFormat, String>)
    ensures
        format_answer(format@, unicode_lowercase(format@), r),
        all_ascii(format@) ==> format_answer(format@, ascii_lower_seq(format@), r),
{
    let lower = to_lowercase(format);
    let l = lower.as_str();
    if str_eq(l, "json") {
        Ok(ReportFormat::Json)
    } else if str_eq(l, "text") || str_eq(l, "txt") {
        Ok(ReportFormat::Text)
    } else if str_eq(l, "markdown") || str_eq(l, "md") {
        Ok(ReportFormat::Markdown)
    } else if str_eq(l, "html") {
        Ok(ReportFormat::Html)
    } else {
        let mut e = joined2("Unsupported format: ", format);
        e.append(". Supported formats: json, text, markdown, html");
        Err(e)
    }
}

/// The MIME type, file extension and binary flag of a format.
pub open spec fn file_type_of(f: ReportFormat) -> (Seq<char>, Seq<char>, bool) {
    match f {
        ReportFormat::Json => ("application/json"@, "json"@, false),
        ReportFormat::Text => ("text/plain"@, "txt"@, false),
        ReportFormat::Markdown => ("text/markdown"@, "md"@, false),
        ReportFormat::Html => ("text/html"@, "html"@, false),
    }
}

/// The MIME type, file extension and binary flag of a report format.
pub fn report_file_type(f: ReportFormat) -> (r: (String, String, bool))
    ensures
        (r.0@, r.1@, r.2) == file_type_of(f),
{
    match f {
        ReportFormat::Json => (str_to_string("application/json"), str_to_string("json"), false),
        ReportFormat::Text => (str_to_string("text/plain"), str_to_string("txt"), false),
        ReportFormat::Markdown => (str_to_string("text/markdown"), str_to_string("md"), false),
        ReportFormat::Html => (str_to_string("text/html"), str_to_string("html"), false),
    }
}

} // verus!
