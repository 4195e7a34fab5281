use netdiag::cli::{first_public_hop, isp_from_hops, isp_hostname_check};
use netdiag::diagnostics::{
    connectivity_failed, dns_config_error, dns_config_test, dns_resolution_failed, gateway_error, gateway_found,
    gateway_missing, interfaces_error, interfaces_test, report_file_type, report_format, run_options,
    speed_test_failed, wifi_disabled, wifi_not_connected, wifi_signal_test, ReportFormat,
};

fn names(v: &[Option<&str>]) -> Vec<Option<String>> {
    v.iter().map(|o| o.map(|s| s.to_string())).collect()
}

#[test]
fn run_options_defaults() {
    assert_eq!(run_options(None, None, None), (false, true, true));
    assert_eq!(run_options(Some(true), None, None), (true, false, true));
    assert_eq!(run_options(Some(true), Some(true), Some(false)), (true, true, false));
    assert_eq!(run_options(Some(false), Some(false), None), (false, false, true));
}

#[test]
fn interface_and_gateway_tests() {
    let t = interfaces_test(2, true, 7);
    assert!(t.test.passed);
    assert_eq!(t.test.name, "Network Interfaces");
    assert_eq!(t.test.category, "Network");
    assert_eq!(t.test.message, "2 active interface(s) with IPv4 connectivity");
    assert_eq!(t.test.duration_ms, 7);
    assert!(t.issue.is_none() && t.recommendation.is_none());
    let t = interfaces_test(3, false, 1);
    assert!(!t.test.passed);
    assert_eq!(t.test.message, "No active network interfaces found");
    assert_eq!(t.issue.as_deref(), Some("No active network interfaces"));
    assert_eq!(t.recommendation.as_deref(), Some("Check that your network cable is connected or WiFi is enabled"));
    let t = interfaces_error("denied", 0);
    assert_eq!(t.test.message, "Failed to enumerate interfaces: denied");
    assert_eq!(t.issue.as_deref(), Some("Could not check network interfaces"));
    assert!(t.recommendation.is_none());

    let t = gateway_found("192.168.1.1", "eth0", 3);
    assert!(t.test.passed);
    assert_eq!(t.test.message, "Gateway: 192.168.1.1 via eth0");
    let t = gateway_missing(3);
    assert_eq!(t.test.message, "No default gateway configured");
    assert_eq!(t.recommendation.as_deref(), Some("Check your router connection and DHCP settings"));
    let t = gateway_error("boom", 3);
    assert_eq!(t.test.message, "Failed to get gateway: boom");
    assert!(t.issue.is_none());
}

#[test]
fn dns_connectivity_speed_tests() {
    let t = dns_config_test(2, 1);
    assert!(t.test.passed);
    assert_eq!(t.test.category, "DNS");
    assert_eq!(t.test.message, "2 DNS server(s) configured");
    let t = dns_config_test(0, 1);
    assert!(!t.test.passed);
    assert_eq!(t.recommendation.as_deref(), Some("Configure DNS servers (e.g., 8.8.8.8, 1.1.1.1)"));
    assert_eq!(dns_config_error("x", 1).test.message, "Failed to get DNS servers: x");
    let t = dns_resolution_failed(5);
    assert_eq!(t.test.name, "DNS Resolution");
    assert_eq!(t.issue.as_deref(), Some("DNS resolution failing"));
    let t = connectivity_failed(5);
    assert_eq!(t.test.message, "Unable to reach 8.8.8.8");
    assert_eq!(t.issue.as_deref(), Some("No internet connectivity"));
    let t = speed_test_failed("timeout", 9);
    assert_eq!(t.test.name, "Download Speed");
    assert_eq!(t.test.message, "Speed test failed: timeout");
}

#[test]
fn wifi_signal_grades() {
    let t = wifi_signal_test("home", -45, 2);
    assert!(t.test.passed);
    assert_eq!(t.test.message, "Connected to home (-45 dBm - Excellent)");
    let t = wifi_signal_test("home", -75, 2);
    assert!(t.test.passed);
    assert_eq!(t.test.message, "Connected to home (-75 dBm - Weak)");
    let t = wifi_signal_test("cafe", -80, 2);
    assert!(!t.test.passed);
    assert_eq!(t.issue.as_deref(), Some("Weak WiFi signal"));
    assert_eq!(t.recommendation.as_deref(), Some("Move closer to your router or reduce interference"));
    assert_eq!(wifi_signal_test("x", -65, 0).test.message, "Connected to x (-65 dBm - Fair)");
    assert_eq!(wifi_signal_test("x", -55, 0).test.message, "Connected to x (-55 dBm - Good)");
    assert_eq!(wifi_signal_test("x", 0, 0).test.message, "Connected to x (0 dBm - Excellent)");
    assert_eq!(wifi_not_connected(0).recommendation.as_deref(), Some("Connect to a WiFi network"));
    let t = wifi_disabled(0);
    assert_eq!(t.test.message, "WiFi is disabled");
    assert!(t.issue.is_none());
}

#[test]
fn report_formats() {
    assert_eq!(report_format("json"), Ok(ReportFormat::Json));
    assert_eq!(report_format("JSON"), Ok(ReportFormat::Json));
    assert_eq!(report_format("txt"), Ok(ReportFormat::Text));
    assert_eq!(report_format("Text"), Ok(ReportFormat::Text));
    assert_eq!(report_format("md"), Ok(ReportFormat::Markdown));
    assert_eq!(report_format("Markdown"), Ok(ReportFormat::Markdown));
    assert_eq!(report_format("HTML"), Ok(ReportFormat::Html));
    assert_eq!(
        report_format("PDF"),
        Err("Unsupported format: PDF. Supported formats: json, text, markdown, html".to_string())
    );
    assert_eq!(report_file_type(ReportFormat::Json), ("application/json".to_string(), "json".to_string(), false));
    assert_eq!(report_file_type(ReportFormat::Text), ("text/plain".to_string(), "txt".to_string(), false));
    assert_eq!(report_file_type(ReportFormat::Markdown), ("text/markdown".to_string(), "md".to_string(), false));
    assert_eq!(report_file_type(ReportFormat::Html), ("text/html".to_string(), "html".to_string(), false));
}

#[test]
fn isp_from_public_hops() {
    let hs = names(&[
        Some("gw.example.com"),
        Some("router.lan"),
        Some("192.168.0.1"),
        None,
        Some("be-301.cr01.comcast.net"),
        Some("ae1.level3.net"),
    ]);
    assert_eq!(first_public_hop(&hs), Some(4));
    assert_eq!(isp_from_hops(&hs), Some("Comcast".to_string()));
    let c = isp_hostname_check(&hs);
    assert!(c.passed);
    assert_eq!(c.name, "ISP Identification");
    assert_eq!(c.details, "Provider: Comcast (detected from hostname)");

    // the gateway itself is never the ISP hop
    let only_gateway = names(&[Some("cr01.comcast.net")]);
    assert_eq!(first_public_hop(&only_gateway), None);
    assert_eq!(isp_from_hops(&only_gateway), None);
    assert_eq!(isp_hostname_check(&only_gateway).details, "Unable to identify ISP (no external hops found)");

    // a public hop whose name reveals nothing
    let opaque = names(&[None, Some("a.b")]);
    assert_eq!(isp_from_hops(&opaque), None);
    assert_eq!(isp_hostname_check(&opaque).details, "ISP hop detected: a.b");

    // private and local names are skipped
    let private = names(&[None, Some("10.0.0.1"), Some("my-gateway"), Some("host.local")]);
    assert_eq!(first_public_hop(&private), None);
}
