use netdiag::android::{
    channel_recommended, channel_utilization_percent, detect_interface_type, frequency_to_channel, get_display_name,
    group_channels, infer_wifi_standard, infer_wifi_standard_from_caps, interference_level, is_default_interface,
    parse_mac_address, parse_security_capabilities, AndroidSystemInfoProvider, ChannelBand, InterfaceType,
    InterferenceLevel, ScanEntry, SecurityType, WifiStandard,
};
use netdiag::cli::{
    calculate_steps, extract_isp_from_hostname, get_default_interface, truncate, DiagnosticCheck, OutputFormat,
    TracerouteProtocol,
};
use netdiag::connectivity::{DnsResult, PingConfig, Pinger, TracerouteConfig};
use netdiag::daemon::config::TargetOs;
use netdiag::net::IpAddress;

#[test]
fn interface_names() {
    assert_eq!(get_display_name("lo"), "Loopback");
    assert_eq!(get_display_name("wlan0"), "Wi-Fi");
    assert_eq!(get_display_name("rmnet_data0"), "Cellular");
    assert_eq!(get_display_name("tun0"), "VPN Tunnel");
    assert_eq!(get_display_name("p2p-wlan0-0"), "Wi-Fi Direct");
    assert_eq!(get_display_name("dummy0"), "dummy0");
    assert_eq!(detect_interface_type("eth0"), InterfaceType::Ethernet);
    assert_eq!(detect_interface_type("p2p0"), InterfaceType::Wifi);
    assert_eq!(detect_interface_type("tun1"), InterfaceType::Vpn);
    assert_eq!(detect_interface_type("wlan1"), InterfaceType::Other);
    assert!(is_default_interface("wlan0"));
    assert!(is_default_interface("rmnet0"));
    assert!(!is_default_interface("rmnet1"));
    let s = AndroidSystemInfoProvider::new();
    assert_eq!(s.android_version(), "Android");
    assert_eq!(s.device_model(), "Android Device");
}

#[test]
fn channels() {
    assert_eq!(frequency_to_channel(2412), (1, ChannelBand::TwoGhz));
    assert_eq!(frequency_to_channel(2437), (6, ChannelBand::TwoGhz));
    assert_eq!(frequency_to_channel(2484), (14, ChannelBand::TwoGhz));
    assert_eq!(frequency_to_channel(5180), (36, ChannelBand::FiveGhz));
    assert_eq!(frequency_to_channel(5825), (165, ChannelBand::FiveGhz));
    assert_eq!(frequency_to_channel(5955), (1, ChannelBand::SixGhz));
    assert_eq!(frequency_to_channel(5935), (-3, ChannelBand::SixGhz));
    assert_eq!(frequency_to_channel(900), (0, ChannelBand::TwoGhz));
}

#[test]
fn security_and_standards() {
    assert_eq!(parse_security_capabilities("[WPA2-PSK-CCMP][ESS]"), SecurityType::Wpa2Personal);
    assert_eq!(parse_security_capabilities("[wpa2-eap-ccmp][ess]"), SecurityType::Wpa2Enterprise);
    assert_eq!(parse_security_capabilities("[WPA3-SAE-CCMP][ESS]"), SecurityType::Wpa3Personal);
    assert_eq!(parse_security_capabilities("[RSN-SAE]"), SecurityType::Wpa3Personal);
    assert_eq!(parse_security_capabilities("[WPA-EAP-TKIP]"), SecurityType::WpaEnterprise);
    assert_eq!(parse_security_capabilities("[WEP]"), SecurityType::Wep);
    assert_eq!(parse_security_capabilities("[ESS]"), SecurityType::Open);
    assert_eq!(parse_security_capabilities(""), SecurityType::Unknown);
    assert_eq!(infer_wifi_standard(5955, 100), WifiStandard::Ax);
    assert_eq!(infer_wifi_standard(5180, 866), WifiStandard::Ac);
    assert_eq!(infer_wifi_standard(5180, 1200), WifiStandard::Ax);
    assert_eq!(infer_wifi_standard(2437, 144), WifiStandard::N);
    assert_eq!(infer_wifi_standard(2437, 54), WifiStandard::G);
    assert_eq!(infer_wifi_standard(2437, 11), WifiStandard::B);
    assert_eq!(infer_wifi_standard(900, 11), WifiStandard::Unknown);
    assert_eq!(infer_wifi_standard_from_caps("[he]", 2437), WifiStandard::Ax);
    assert_eq!(infer_wifi_standard_from_caps("[VHT]", 5180), WifiStandard::Ac);
    assert_eq!(infer_wifi_standard_from_caps("[HT]", 2437), WifiStandard::N);
    assert_eq!(infer_wifi_standard_from_caps("", 5180), WifiStandard::N);
    assert_eq!(infer_wifi_standard_from_caps("", 2437), WifiStandard::G);
}

#[test]
fn mac_parsing() {
    assert_eq!(parse_mac_address("00:1A:2b:3C:4d:FF"), Some([0x00, 0x1a, 0x2b, 0x3c, 0x4d, 0xff]));
    assert_eq!(parse_mac_address("0:1:2:3:4:5"), Some([0, 1, 2, 3, 4, 5]));
    assert_eq!(parse_mac_address("00:11:22:33:44"), None);
    assert_eq!(parse_mac_address("00:11:22:33:44:55:66"), None);
    assert_eq!(parse_mac_address("00:11:22:33:44:GG"), None);
    assert_eq!(parse_mac_address("00-11-22-33-44-55"), None);
}

fn ap(channel: u8, band: ChannelBand, rssi: i32) -> ScanEntry {
    ScanEntry { channel, band, rssi }
}

#[test]
fn channel_grouping() {
    let g = group_channels(&vec![
        ap(6, ChannelBand::TwoGhz, -70),
        ap(1, ChannelBand::TwoGhz, -120),
        ap(6, ChannelBand::TwoGhz, -50),
        ap(1, ChannelBand::SixGhz, -60),
        ap(6, ChannelBand::TwoGhz, -80),
    ]);
    assert_eq!(g.len(), 3);
    assert_eq!((g[0].channel, g[0].ap_count, g[0].max_rssi), (6, 3, -50));
    assert_eq!((g[1].channel, g[1].ap_count, g[1].max_rssi), (1, 1, -100));
    assert_eq!((g[2].band, g[2].ap_count), (ChannelBand::SixGhz, 1));
    assert_eq!(interference_level(6), InterferenceLevel::High);
    assert_eq!(interference_level(3), InterferenceLevel::Medium);
    assert_eq!(interference_level(2), InterferenceLevel::Low);
    assert!(channel_recommended(2));
    assert!(!channel_recommended(3));
    assert_eq!(channel_utilization_percent(3), 30);
    assert_eq!(channel_utilization_percent(12), 100);
}

#[test]
fn diagnose_steps() {
    assert_eq!(calculate_steps(true, false, false), 4);
    assert_eq!(calculate_steps(true, true, false), 5);
    assert_eq!(calculate_steps(false, false, false), 9);
    assert_eq!(calculate_steps(false, true, true), 9);
    assert_eq!(calculate_steps(false, true, false), 10);
}

#[test]
fn isp_names() {
    assert_eq!(extract_isp_from_hostname("c-73-1-2-3.hsd1.ca.comcast.net").as_deref(), Some("Comcast"));
    assert_eq!(extract_isp_from_hostname("ae-1.r01.LEVEL3.NET").as_deref(), Some("Level3/Lumen"));
    assert_eq!(extract_isp_from_hostname("lax17s49-in-f14.1e100.net").as_deref(), Some("Google"));
    assert_eq!(extract_isp_from_hostname("router.example.org").as_deref(), Some("Example"));
    assert_eq!(extract_isp_from_hostname("gw.ab.org"), None);
    assert_eq!(extract_isp_from_hostname("gw.my-isp.org"), None);
    assert_eq!(extract_isp_from_hostname("localhost"), None);
}

#[test]
fn text_truncation() {
    assert_eq!(truncate("short", 10), "short");
    assert_eq!(truncate("exactly10!", 10), "exactly10!");
    assert_eq!(truncate("hello world", 8), "hello...");
    assert_eq!(truncate("abcd", 3), "...");
}

#[test]
fn cli_records() {
    let c = DiagnosticCheck::pass("Gateway", "192.168.1.1 reachable");
    assert!(c.passed);
    assert_eq!(c.details, "192.168.1.1 reachable");
    let f = DiagnosticCheck::fail("DNS", "timeout", Some("Check resolver")).with_verbose(vec!["tried 8.8.8.8".to_string()]);
    assert!(!f.passed);
    assert_eq!(f.suggestion.as_deref(), Some("Check resolver"));
    assert_eq!(f.verbose_details.len(), 1);
    assert_eq!(OutputFormat::default(), OutputFormat::Text);
    assert_eq!(get_default_interface(TargetOs::MacOs), "en0");
    assert_eq!(get_default_interface(TargetOs::Windows), "Ethernet");
    assert_eq!(get_default_interface(TargetOs::Linux), "eth0");
}

#[test]
fn connectivity_defaults() {
    let p = PingConfig::default();
    assert_eq!((p.count, p.timeout_ms, p.interval_ms, p.size), (4, 2000, 1000, 64));
    assert!(Pinger::new().uses_system_ping());
    let t = TracerouteConfig::default();
    assert_eq!((t.max_hops, t.probes_per_hop, t.timeout_ms), (30, 3, 3000));
    assert_eq!(t.protocol, TracerouteProtocol::Icmp);
    assert!(t.resolve_hostnames);
    let ok = DnsResult::success("example.com".to_string(), vec![IpAddress::V4([93, 184, 216, 34])], 12);
    assert!(ok.success);
    assert_eq!(ok.addresses.len(), 1);
    let bad = DnsResult::failed("nx.example".to_string(), 30, "NXDOMAIN".to_string());
    assert!(!bad.success);
    assert!(bad.addresses.is_empty());
    assert_eq!(bad.error.as_deref(), Some("NXDOMAIN"));
}
