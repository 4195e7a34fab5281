use netdiag::capture::decode::{format_mac, prefix_bytes, Protocol, ProtocolDecoder, TcpFlags};
use netdiag::capture::device::{open_error, CaptureError};
use netdiag::capture::session::{CaptureConfig, CaptureLoop, ReadOutcome};
use netdiag::capture::stats::{select_top, CaptureStats, ProtocolStats};
use netdiag::capture::filter::CaptureFilter;
use netdiag::net::IpAddress;

fn tcp_frame(flags: u8, dst_port: u16) -> Vec<u8> {
    let mut f: Vec<u8> = Vec::new();
    // Ethernet II: destination, source, EtherType IPv4.
    f.extend_from_slice(&[0x00, 0x11, 0x22, 0x33, 0x44, 0x55]);
    f.extend_from_slice(&[0xaa, 0xbb, 0xcc, 0xdd, 0xee, 0x0f]);
    f.extend_from_slice(&[0x08, 0x00]);
    // IPv4 header, 20 bytes, total length 40, TTL 64, protocol TCP.
    f.extend_from_slice(&[0x45, 0x00, 0x00, 0x28, 0x00, 0x00, 0x40, 0x00, 64, 6, 0x00, 0x00]);
    f.extend_from_slice(&[192, 168, 1, 10]);
    f.extend_from_slice(&[93, 184, 216, 34]);
    // TCP header, 20 bytes.
    f.extend_from_slice(&[0x30, 0x39]);
    f.extend_from_slice(&dst_port.to_be_bytes());
    f.extend_from_slice(&[0, 0, 0, 1, 0, 0, 0, 0, 0x50, flags, 0xff, 0xff, 0, 0, 0, 0]);
    f
}

#[test]
fn decode_ethernet_ipv4_tcp_frame() {
    let frame = tcp_frame(0x12, 443);
    let p = ProtocolDecoder::new().decode(&frame, 1_700_000_000_000);
    assert_eq!(p.timestamp, 1_700_000_000_000);
    assert_eq!(p.length, 54);
    assert_eq!(p.src_mac.as_deref(), Some("AA:BB:CC:DD:EE:0F"));
    assert_eq!(p.dst_mac.as_deref(), Some("00:11:22:33:44:55"));
    assert_eq!(p.ether_type, Some(0x0800));
    assert_eq!(p.src_ip, Some(IpAddress::V4([192, 168, 1, 10])));
    assert_eq!(p.dst_ip, Some(IpAddress::V4([93, 184, 216, 34])));
    assert_eq!(p.ip_protocol, Some(6));
    assert_eq!(p.ttl, Some(64));
    assert_eq!(p.src_port, Some(12345));
    assert_eq!(p.dst_port, Some(443));
    assert_eq!(p.protocol, Protocol::Https);
    let flags = p.tcp_flags.unwrap();
    assert!(flags.syn && flags.ack && !flags.fin && !flags.rst);
    assert_eq!(p.payload_length, 0);
    assert!(p.payload_preview.is_none());
    assert_eq!(p.summary(), "HTTPS 192.168.1.10:12345 -> 93.184.216.34:443 SA len=54");
}

#[test]
fn decode_plain_tcp_port() {
    let frame = tcp_frame(0x01, 5000);
    let p = ProtocolDecoder::new().decode(&frame, 0);
    assert_eq!(p.protocol, Protocol::Tcp);
    assert_eq!(p.summary(), "TCP 192.168.1.10:12345 -> 93.184.216.34:5000 F len=54");
}

#[test]
fn decode_unsliceable_frame_keeps_preview() {
    let data = [1u8, 2, 3];
    let p = ProtocolDecoder::with_payload_preview(2).decode(&data, 5);
    assert_eq!(p.protocol, Protocol::Unknown);
    assert_eq!(p.payload_length, 3);
    assert_eq!(p.payload_preview, Some(vec![1, 2]));
    assert!(p.src_ip.is_none());
    assert_eq!(p.summary(), "Unknown ? -> ?  len=3 payload=3");
    let none = ProtocolDecoder::with_payload_preview(0).decode(&data, 5);
    assert!(none.payload_preview.is_none());
}

#[test]
fn identify_ports() {
    let d = ProtocolDecoder::new();
    assert_eq!(d.identify_tcp_protocol(80, 1000), Protocol::Http);
    assert_eq!(d.identify_tcp_protocol(1000, 8443), Protocol::Https);
    assert_eq!(d.identify_tcp_protocol(22, 1000), Protocol::Ssh);
    assert_eq!(d.identify_tcp_protocol(53, 1000), Protocol::Dns);
    assert_eq!(d.identify_tcp_protocol(1000, 2000), Protocol::Tcp);
    assert_eq!(d.identify_udp_protocol(1000, 53), Protocol::Dns);
    assert_eq!(d.identify_udp_protocol(68, 67), Protocol::Dhcp);
    assert_eq!(d.identify_udp_protocol(1000, 2000), Protocol::Udp);
    assert_eq!(Protocol::Icmpv6.name(), "ICMPv6");
    assert_eq!(Protocol::Arp.name(), "ARP");
}

#[test]
fn tcp_flags_forms() {
    let f = TcpFlags::from_byte(0x3f);
    assert!(f.fin && f.syn && f.rst && f.psh && f.ack && f.urg && !f.ece && !f.cwr);
    assert_eq!(f.to_string_short(), "SAFRPU");
    assert_eq!(TcpFlags::from_byte(0).to_string_short(), ".");
    assert_eq!(TcpFlags::from_byte(0xc0).to_string_short(), ".");
    assert_eq!(TcpFlags::from_byte(0x18).to_display_string(), "[AP]");
}

#[test]
fn mac_and_prefix() {
    assert_eq!(format_mac(&[0, 1, 0xab, 0x10, 0xff, 9]), "00:01:AB:10:FF:09");
    assert_eq!(prefix_bytes(&[5, 6, 7], 2), vec![5, 6]);
    assert_eq!(prefix_bytes(&[5, 6, 7], 0), Vec::<u8>::new());
}

#[test]
fn capture_config_builders() {
    let c = CaptureConfig::for_device("eth0");
    assert_eq!(c.device, "eth0");
    assert!(c.promiscuous);
    assert_eq!(c.snaplen, 65535);
    assert_eq!(c.buffer_size, 1024 * 1024);
    assert_eq!(c.timeout_ms, 1000);
    assert_eq!(c.max_packets, 0);
    assert!(c.max_duration.is_none());
    let c = c
        .with_filter(CaptureFilter::port(53))
        .promiscuous(false)
        .max_packets(10)
        .max_duration(std::time::Duration::from_secs(3));
    assert_eq!(c.filter.as_str(), "port 53");
    assert!(!c.promiscuous);
    assert_eq!(c.max_packets, 10);
    assert_eq!(c.max_duration, Some(std::time::Duration::from_secs(3)));
    assert_eq!(CaptureConfig::default().device, "");
}

#[test]
fn capture_loop_stops_at_limit() {
    let mut l = CaptureLoop::new(2);
    assert!(!l.check_stop(false, false));
    assert!(l.record(ReadOutcome::Delivered));
    assert!(!l.check_stop(false, false));
    assert!(l.record(ReadOutcome::TimedOut));
    assert_eq!(l.packet_count, 1);
    assert!(l.record(ReadOutcome::Delivered));
    assert!(l.check_stop(false, false));
    assert!(l.finished);
    assert_eq!(l.packet_count, 2);
}

#[test]
fn capture_loop_stops_on_request_error_or_time() {
    let mut l = CaptureLoop::new(0);
    assert!(l.check_stop(true, false));
    let mut l = CaptureLoop::new(0);
    assert!(!l.record(ReadOutcome::Failed));
    assert!(l.finished);
    let mut l = CaptureLoop::new(0);
    assert!(!l.record(ReadOutcome::Refused));
    let mut l = CaptureLoop::new(0);
    assert!(l.check_stop(false, true));
}

#[test]
fn protocol_stats_counts() {
    let mut s = ProtocolStats::new();
    s.update_ip("10.0.0.1");
    s.update_ip("10.0.0.2");
    s.update_ip("10.0.0.1");
    assert_eq!(s.ip_count("10.0.0.1"), 2);
    assert_eq!(s.ip_count("10.0.0.2"), 1);
    assert_eq!(s.ip_count("10.0.0.3"), 0);
    assert_eq!(s.ip_counts().len(), 2);
    s.update_port(443);
    s.update_port(443);
    assert_eq!(s.port_counts.get(&443), Some(&2));
    assert_eq!(ProtocolStats::default().packets, 0);
}

#[test]
fn open_error_mapping() {
    assert!(matches!(
        open_error("socket: Operation not permitted (permission denied)".to_string()),
        CaptureError::PermissionDenied
    ));
    match open_error("no such device".to_string()) {
        CaptureError::PcapError(m) => assert_eq!(m, "no such device"),
        other => panic!("unexpected {:?}", other),
    }
}

#[test]
fn capture_stats_update_and_top_lists() {
    let mut s = CaptureStats::new();
    s.update(Protocol::Https, 100, Some("10.0.0.1"), Some("1.1.1.1"), Some(50000), Some(443));
    s.update(Protocol::Https, 200, Some("10.0.0.1"), Some("8.8.8.8"), Some(50001), Some(443));
    s.update(Protocol::Dns, 60, Some("10.0.0.1"), Some("8.8.8.8"), Some(50002), Some(53));
    s.update(Protocol::Arp, 42, None, None, None, None);
    assert_eq!(s.packets_captured, 4);
    assert_eq!(s.bytes_captured, 402);
    assert_eq!(s.protocols.len(), 3);
    assert_eq!(s.protocols[0].0, Protocol::Https);
    assert_eq!(s.protocols[0].1.packets, 2);
    assert_eq!(s.protocols[0].1.bytes, 300);
    assert_eq!(s.protocols[2].1.packets, 1);
    assert_eq!(s.ip_total_of("10.0.0.1"), 3);
    assert_eq!(s.ip_total_of("8.8.8.8"), 2);
    assert_eq!(s.port_total_of(443), 2);
    let talkers = s.top_talkers(10);
    assert_eq!(
        talkers,
        vec![("10.0.0.1".to_string(), 3), ("8.8.8.8".to_string(), 2), ("1.1.1.1".to_string(), 1)]
    );
    let top2 = s.top_talkers(2);
    assert_eq!(top2.len(), 2);
    assert_eq!(top2[1].1, 2);
    let ports = s.top_ports(10);
    assert_eq!(ports[0], (443, 2));
    assert_eq!(ports.len(), 5);
    assert!(ports.windows(2).all(|w| w[0].1 >= w[1].1));
    assert!(s.top_ports(0).is_empty());
}

#[test]
fn selecting_largest_counts() {
    assert_eq!(select_top(&vec![3, 9, 1, 9, 4], 3), vec![1, 3, 4]);
    assert_eq!(select_top(&vec![5, 2], 10), vec![0, 1]);
    assert!(select_top(&vec![], 4).is_empty());
}
