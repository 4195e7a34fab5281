use netdiag::autofix::actions::{FixAction, FixPrerequisite, FixType};
use netdiag::capture::decode::{DecodedPacket, Protocol};
use netdiag::gui::{
    available_fixes, capture_limit, captured_packet_info, diagnostics_summary, dry_run_info, fix_action_info,
    fix_result_info, interference_recommendations, overlapping_networks, protocol_debug_name, requested_fix,
    snr_rating, GuiError, ScannedNetwork,
};
use netdiag::net::IpAddress;

#[test]
fn action_info_lists_prerequisites() {
    let mut a = FixAction::reset_adapter("eth0".to_string());
    a.prerequisites.push(FixPrerequisite::InterfaceExists("eth0".to_string()));
    a.prerequisites.push(FixPrerequisite::InterfaceExists("we\"ird".to_string()));
    let info = fix_action_info(a);
    assert_eq!(info.name, "Reset eth0");
    assert_eq!(info.severity, "medium");
    assert_eq!(info.category, "adapter");
    assert_eq!(info.estimated_time_secs, 10);
    assert_eq!(
        info.prerequisites,
        vec![
            "AdminPrivileges".to_string(),
            "InterfaceExists(\"eth0\")".to_string(),
            "InterfaceExists(\"we\\\"ird\")".to_string(),
        ]
    );
    assert_eq!(info.id.len(), 36);
    let all = available_fixes();
    assert_eq!(all.len(), 3);
    assert_eq!(all[0].name, "Flush DNS Cache");
    assert_eq!(all[1].severity, "high");
    assert_eq!(all[1].prerequisites, vec!["AdminPrivileges".to_string(), "RebootMayBeRequired".to_string()]);
    assert_eq!(all[2].category, "service");
}

#[test]
fn requested_fixes() {
    assert!(matches!(requested_fix("flush_dns_cache", None).unwrap().fix_type, FixType::FlushDnsCache));
    assert!(matches!(requested_fix("restart_network_service", None).unwrap().fix_type, FixType::RestartNetworkService));
    let r = requested_fix("renew_dhcp", Some("eth0".to_string())).unwrap();
    assert!(matches!(r.fix_type, FixType::RenewDhcp { ref interface } if interface == "eth0"));
    assert_eq!(requested_fix("reset_adapter", None).unwrap_err(), "Interface required for reset_adapter");
    assert_eq!(requested_fix("reconnect_wifi", None).unwrap_err(), "Interface required for reconnect_wifi");
    assert_eq!(requested_fix("format_disk", None).unwrap_err(), "Unknown fix type: format_disk");
}

#[test]
fn result_infos() {
    let ok = fix_result_info("id".to_string(), Ok("done".to_string()), 12);
    assert!(ok.success);
    assert_eq!(ok.message.as_deref(), Some("done"));
    let bad = fix_result_info("id".to_string(), Err("Fix failed: x".to_string()), 3);
    assert!(!bad.success);
    assert_eq!(bad.error.as_deref(), Some("Fix failed: x"));
    let dry = dry_run_info("id".to_string(), 0);
    assert!(dry.success);
    assert_eq!(dry.message.as_deref(), Some("Dry run - not applied"));
}

#[test]
fn summaries() {
    let s = diagnostics_summary(&vec![true, true, true]);
    assert_eq!((s.total_tests, s.passed, s.failed), (3, 3, 0));
    assert_eq!(s.overall_status, "healthy");
    let s = diagnostics_summary(&vec![true, false, false, true]);
    assert_eq!(s.failed, 2);
    assert_eq!(s.overall_status, "warning");
    let s = diagnostics_summary(&vec![false, false, false]);
    assert_eq!(s.overall_status, "critical");
    assert_eq!(diagnostics_summary(&vec![]).overall_status, "healthy");
}

#[test]
fn wifi_ratings() {
    assert_eq!(snr_rating(Some(-40), Some(-90)), "Excellent");
    assert_eq!(snr_rating(Some(-60), Some(-90)), "Good");
    assert_eq!(snr_rating(Some(-70), Some(-88)), "Fair");
    assert_eq!(snr_rating(Some(-80), Some(-90)), "Poor");
    assert_eq!(snr_rating(Some(-55), None), "Good");
    assert_eq!(snr_rating(Some(-75), None), "Poor");
    assert_eq!(snr_rating(None, Some(-90)), "Unknown");
}

fn net(ssid: &str, channel: u8) -> ScannedNetwork {
    ScannedNetwork { ssid: ssid.to_string(), channel }
}

#[test]
fn overlapping_and_advice() {
    let aps = vec![net("home", 6), net("a", 4), net("b", 11), net("c", 2), net("d", 40), net("e", 10)];
    let o = overlapping_networks(&aps, Some(6), &Some("home".to_string()));
    assert_eq!(o, vec!["a (ch 4)".to_string(), "c (ch 2)".to_string(), "e (ch 10)".to_string()]);
    assert!(overlapping_networks(&aps, None, &None).is_empty());
    assert_eq!(
        interference_recommendations("Excellent", 0, Some(6), 3),
        vec!["Your WiFi connection appears to be in good condition".to_string()]
    );
    let r = interference_recommendations("Poor", 4, Some(6), 11);
    assert_eq!(r.len(), 3);
    assert_eq!(r[0], "Consider moving closer to your router or reducing interference sources");
    assert_eq!(r[2], "Many networks on 2.4GHz band. A 5GHz network would provide better performance");
    assert_eq!(interference_recommendations("Good", 1, Some(44), 20).len(), 1);
}

#[test]
fn capture_helpers() {
    assert_eq!(capture_limit(None), 50);
    assert_eq!(capture_limit(Some(10)), 10);
    assert_eq!(capture_limit(Some(5000)), 500);
    assert_eq!(protocol_debug_name(Protocol::Https), "Https");
    assert_eq!(GuiError::Timeout("ping".to_string()).to_display_string(), "Operation timed out: ping");
    assert_eq!(GuiError::DnsResolution("x".to_string()).to_display_string(), "DNS resolution failed: x");
}

fn packet(protocol: Protocol) -> DecodedPacket {
    DecodedPacket {
        timestamp: 0,
        length: 60,
        capture_length: 60,
        src_mac: None,
        dst_mac: None,
        ether_type: None,
        src_ip: Some(IpAddress::V4([10, 0, 0, 1])),
        dst_ip: Some(IpAddress::V4([10, 0, 0, 2])),
        ip_protocol: None,
        ttl: None,
        src_port: Some(5353),
        dst_port: None,
        protocol,
        tcp_flags: None,
        icmp_type: None,
        icmp_code: None,
        payload_preview: None,
        payload_length: 0,
    }
}

#[test]
fn packet_infos() {
    let i = captured_packet_info(&packet(Protocol::Udp), "2024-01-01T00:00:00Z".to_string());
    assert_eq!(i.protocol, "Udp");
    assert_eq!(i.summary, "UDP 10.0.0.1:5353 -> 10.0.0.2:0 len=60");
    assert_eq!(i.src_ip.as_deref(), Some("10.0.0.1"));
    assert_eq!(i.timestamp, "2024-01-01T00:00:00Z");
    let i = captured_packet_info(&packet(Protocol::Icmpv6), String::new());
    assert_eq!(i.summary, "ICMP 10.0.0.1 -> 10.0.0.2");
    let i = captured_packet_info(&packet(Protocol::Dns), String::new());
    assert_eq!(i.summary, "Dns 10.0.0.1 -> 10.0.0.2");
    let mut p = packet(Protocol::Arp);
    p.src_ip = None;
    let i = captured_packet_info(&p, String::new());
    assert_eq!(i.summary, "Arp  -> 10.0.0.2");
    assert_eq!(i.src_ip, None);
}
